//! User locale packs: which names may be looked up, the size limit, and how a pack's text
//! becomes the flat key/value overrides.
use vstd::prelude::*;

use std::collections::BTreeMap;

use crate::errors::{command_error, CommandError};
use crate::text::{chars_of, concat, decode_utf8};

verus! {

/// The largest locale pack, in bytes: 1 MiB.
pub const MAX_LOCALE_PACK_BYTES: u64 = 1048576;

/// A character that a locale name may hold: an ASCII letter or digit, `-` or `_`.
pub open spec fn is_locale_char(c: char) -> bool {
    ('a' <= c && c <= 'z') || ('A' <= c && c <= 'Z') || ('0' <= c && c <= '9') || c == '-' || c
        == '_'
}

/// A locale name is non-empty and holds only ASCII letters, digits, `-` and `_`.
pub open spec fn is_valid_locale(s: Seq<char>) -> bool {
    &&& s.len() > 0
    &&& forall|i: int| 0 <= i < s.len() ==> #[trigger] is_locale_char(s[i])
}

/// Checks a requested locale name before anything is opened.
pub fn check_locale(locale: &str) -> (r: Result<(), CommandError>)
    ensures
        r is Ok <==> is_valid_locale(locale@),
        r is Ok <==> locale@.len() > 0 && forall|i: int|
            0 <= i < locale@.len() ==> {
                let c = #[trigger] locale@[i];
                ('a' <= c && c <= 'z') || ('A' <= c && c <= 'Z') || ('0' <= c && c <= '9') || c
                    == '-' || c == '_'
            },
        r matches Err(e) ==> e.code@ == "invalid_locale"@ && e.message@
            == "locale must contain only letters, numbers, '-' or '_'"@,
{
    let v = chars_of(locale);
    let mut ok = v.len() > 0;
    let mut i: usize = 0;
    while ok && i < v.len()
        invariant
            v@ == locale@,
            i <= v.len(),
            ok ==> v@.len() > 0,
            ok ==> forall|j: int| 0 <= j < i ==> #[trigger] is_locale_char(v@[j]),
            !ok ==> !is_valid_locale(locale@),
        decreases v.len() - i,
    {
        let c = v[i];
        if !(('a' <= c && c <= 'z') || ('A' <= c && c <= 'Z') || ('0' <= c && c <= '9') || c == '-'
            || c == '_') {
            assert(!is_locale_char(v@[i as int]));
            ok = false;
        }
        i = i + 1;
    }
    proof { law_locale_names_are_letters_digits_dashes_and_underscores(locale@); }
    if ok {
        Ok(())
    } else {
        Err(
            command_error(
                "invalid_locale",
                "locale must contain only letters, numbers, '-' or '_'",
            ),
        )
    }
}

/// The file name of the pack for `locale` inside the `locales` directory.
pub fn locale_pack_file_name(locale: &str) -> (r: String)
    ensures
        r@ == locale@ + ".json"@,
{
    concat(locale, ".json")
}

/// What a failure to open a pack means: a missing pack is no override at all, anything else
/// is `locale_storage_failed`.
pub fn locale_open_failure(not_found: bool, message: &str) -> (r: Result<BTreeMap<String, String>, CommandError>)
    ensures
        not_found ==> (r matches Ok(m) && m@.len() == 0),
        !not_found ==> (r matches Err(e) && e.code@ == "locale_storage_failed"@ && e.message@
            == message@),
{
    if not_found {
        let m: BTreeMap<String, String> = BTreeMap::new();
        Ok(m)
    } else {
        Err(command_error("locale_storage_failed", message))
    }
}

/// Checks what is known of an opened pack before reading it: a regular file of at most 1 MiB.
pub fn check_locale_pack_metadata(is_file: bool, len: u64) -> (r: Result<(), CommandError>)
    ensures
        r is Ok <==> is_file && len <= MAX_LOCALE_PACK_BYTES,
        !is_file ==> (r matches Err(e) && e.code@ == "locale_storage_failed"@ && e.message@
            == "locale pack must be a regular file"@),
        is_file && len > MAX_LOCALE_PACK_BYTES ==> (r matches Err(e) && e.code@
            == "locale_pack_too_large"@ && e.message@ == "locale pack exceeds 1 MiB"@),
{
    if !is_file {
        return Err(command_error("locale_storage_failed", "locale pack must be a regular file"));
    }
    if len > MAX_LOCALE_PACK_BYTES {
        return Err(command_error("locale_pack_too_large", "locale pack exceeds 1 MiB"));
    }
    Ok(())
}

/// The overrides that serde_json reads from a pack's text, or its error message.
pub uninterp spec fn locale_pack_parse(source: Seq<char>) -> Result<Map<Seq<char>, Seq<char>>, Seq<char>>;

/// Reads a flat JSON object of strings with `serde_json::from_str`. The contract claims only
/// that the map read, or the error message, is serde_json's answer for this text.
#[verifier::external_body]
fn parse_string_map(source: &str) -> (r: Result<BTreeMap<String, String>, String>)
    ensures
        match r {
            Ok(m) => locale_pack_parse(source@) == Ok::<Map<Seq<char>, Seq<char>>, Seq<char>>(
                m.deep_view(),
            ),
            Err(e) => locale_pack_parse(source@) == Err::<Map<Seq<char>, Seq<char>>, Seq<char>>(
                e@,
            ),
        },
{
    serde_json::from_str(source).map_err(|error: serde_json::Error| error.to_string())
}

/// Turns the bytes read from a pack into its overrides: at most 1 MiB of UTF-8 holding a
/// JSON object of strings.
pub fn decode_locale_pack(bytes: Vec<u8>) -> (r: Result<BTreeMap<String, String>, CommandError>)
    ensures
        bytes@.len() > MAX_LOCALE_PACK_BYTES ==> (r matches Err(e) && e.code@
            == "locale_pack_too_large"@ && e.message@ == "locale pack exceeds 1 MiB"@),
        bytes@.len() <= MAX_LOCALE_PACK_BYTES && !vstd::utf8::valid_utf8(bytes@) ==> (r matches Err(
            e,
        ) && e.code@ == "invalid_locale_pack"@ && e.message@ == crate::text::utf8_error_text(
            bytes@,
        )),
        bytes@.len() <= MAX_LOCALE_PACK_BYTES && vstd::utf8::valid_utf8(bytes@) ==> match locale_pack_parse(
            vstd::utf8::decode_utf8(bytes@),
        ) {
            Ok(m) => r matches Ok(o) && o.deep_view() == m,
            Err(msg) => r matches Err(e) && e.code@ == "invalid_locale_pack"@ && e.message@ == msg,
        },
{
    if bytes.len() as u64 > MAX_LOCALE_PACK_BYTES {
        return Err(command_error("locale_pack_too_large", "locale pack exceeds 1 MiB"));
    }
    let source = match decode_utf8(bytes) {
        Ok(s) => s,
        Err(m) => {
            return Err(command_error("invalid_locale_pack", m.as_str()));
        },
    };
    match parse_string_map(source.as_str()) {
        Ok(m) => Ok(m),
        Err(m) => Err(command_error("invalid_locale_pack", m.as_str())),
    }
}

} // verus!

verus! {

/// A valid locale name cannot leave the locale directory: it holds no path separator and no
/// dot, so `{locale}.json` is a single file name inside `locales`.
pub proof fn law_locale_names_stay_in_the_locale_directory(locale: Seq<char>)
    requires
        is_valid_locale(locale),
    ensures
        forall|i: int|
            0 <= i < locale.len() ==> #[trigger] locale[i] != '/' && locale[i] != '\\' && locale[i]
                != '.',
{
    assert forall|i: int| 0 <= i < locale.len() implies #[trigger] locale[i] != '/' && locale[i]
        != '\\' && locale[i] != '.' by {
        assert(is_locale_char(locale[i]));
    }
}

/// A locale name is accepted exactly when it is non-empty and made only of ASCII letters of
/// either case, ASCII digits, `-` and `_`, as the refusal message says; region codes such as
/// `es-419` and names such as `zh-CN` or `en_US` are accepted.
pub proof fn law_locale_names_are_letters_digits_dashes_and_underscores(locale: Seq<char>)
    ensures
        is_valid_locale(locale) <==> {
            &&& locale.len() > 0
            &&& forall|i: int|
                0 <= i < locale.len() ==> {
                    let c = #[trigger] locale[i];
                    ('a' <= c && c <= 'z') || ('A' <= c && c <= 'Z') || ('0' <= c && c <= '9')
                        || c == '-' || c == '_'
                }
        },
{
    if is_valid_locale(locale) {
        assert forall|i: int| 0 <= i < locale.len() implies {
            let c = #[trigger] locale[i];
            ('a' <= c && c <= 'z') || ('A' <= c && c <= 'Z') || ('0' <= c && c <= '9') || c == '-'
                || c == '_'
        } by {
            assert(is_locale_char(locale[i]));
        }
    }
    if locale.len() > 0 && forall|i: int|
        0 <= i < locale.len() ==> {
            let c = #[trigger] locale[i];
            ('a' <= c && c <= 'z') || ('A' <= c && c <= 'Z') || ('0' <= c && c <= '9') || c == '-'
                || c == '_'
        } {
        assert forall|i: int| 0 <= i < locale.len() implies #[trigger] is_locale_char(locale[i]) by {
            let c = locale[i];
            assert(('a' <= c && c <= 'z') || ('A' <= c && c <= 'Z') || ('0' <= c && c <= '9') || c
                == '-' || c == '_');
        }
    }
}

} // verus!
