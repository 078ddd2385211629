//! The template catalog: template ids, template file names, size limits, and the
//! assembly of the built-in and user templates into one catalog.
use vstd::prelude::*;

use crate::errors::{command_error, command_error_with, CliError, CommandError};
use crate::order::{
    lemma_seq_less_asymmetric, lemma_seq_less_irreflexive, lemma_seq_less_total, seq_less,
    sort_by_key_text, sorted_by_key, Keyed,
};
use crate::text::{chars_of, str_eq};

verus! {

/// The largest user template, in bytes, that is read, saved or planned: 1 MiB.
pub const MAX_USER_TEMPLATE_BYTES: u64 = 1048576;

/// A character that a template id may hold: a lowercase ASCII letter, a digit, `-` or `_`.
pub open spec fn is_template_id_char(c: char) -> bool {
    ('a' <= c && c <= 'z') || ('0' <= c && c <= '9') || c == '-' || c == '_'
}

/// A template id is 1 to 64 lowercase ASCII letters, digits, `-` or `_`.
pub open spec fn is_valid_template_id(s: Seq<char>) -> bool {
    &&& 1 <= s.len() <= 64
    &&& forall|i: int| 0 <= i < s.len() ==> #[trigger] is_template_id_char(s[i])
}

/// Whether `id` is a valid template id.
pub fn valid_template_id(id: &str) -> (r: bool)
    ensures
        r == is_valid_template_id(id@),
{
    let v = chars_of(id);
    if v.len() < 1 || v.len() > 64 {
        return false;
    }
    let mut i: usize = 0;
    while i < v.len()
        invariant
            v@ == id@,
            i <= v.len(),
            forall|j: int| 0 <= j < i ==> #[trigger] is_template_id_char(v@[j]),
        decreases v.len() - i,
    {
        let c = v[i];
        if !(('a' <= c && c <= 'z') || ('0' <= c && c <= '9') || c == '-' || c == '_') {
            assert(!is_template_id_char(v@[i as int]));
            return false;
        }
        i = i + 1;
    }
    true
}

/// The file name `..`, which has neither stem nor extension of its own.
pub open spec fn dot_dot() -> Seq<char> {
    seq!['.', '.']
}

/// The extension `json`.
pub open spec fn json_extension() -> Seq<char> {
    seq!['j', 's', 'o', 'n']
}

/// The extension of a file name: the text after its last `.`, when that dot is not its first character.
pub open spec fn path_extension(name: Seq<char>) -> Option<Seq<char>> {
    let d = crate::text::last_index_of(name, '.');
    if name == dot_dot() || d <= 0 {
        None
    } else {
        Some(name.subrange(d + 1, name.len() as int))
    }
}

/// The stem of a file name: the text before its extension's dot, or the whole name.
pub open spec fn path_stem(name: Seq<char>) -> Seq<char> {
    let d = crate::text::last_index_of(name, '.');
    if name == dot_dot() || d <= 0 {
        name
    } else {
        name.subrange(0, d)
    }
}

/// Splits a file name into its stem and its extension.
pub fn split_file_name(name: &str) -> (r: (String, Option<String>))
    ensures
        r.0@ == path_stem(name@),
        match r.1 {
            Some(e) => path_extension(name@) == Some(e@),
            None => path_extension(name@) is None,
        },
{
    let v = chars_of(name);
    let n = v.len();
    proof { crate::text::lemma_last_index_of(v@, '.'); }
    let is_dot_dot = n == 2 && v[0] == '.' && v[1] == '.';
    assert(is_dot_dot == (name@ == dot_dot())) by {
        if name@ == dot_dot() {
            assert(v@[0] == '.' && v@[1] == '.');
        }
        if is_dot_dot {
            assert(v@ =~= dot_dot());
        }
    }
    match crate::text::find_last(&v, '.') {
        Some(d) => {
            if is_dot_dot || d == 0 {
                (name.to_owned(), None)
            } else {
                let stem = name.substring_char(0, d).to_owned();
                let ext = name.substring_char(d + 1, n).to_owned();
                (stem, Some(ext))
            }
        },
        None => (name.to_owned(), None),
    }
}

/// Whether a directory entry is read as a user template: an entry named `*.json` that is
/// neither a directory nor a symbolic link. Other special files are read, and refused there.
pub fn is_template_file(is_directory: bool, is_symlink: bool, file_name: &str) -> (r: bool)
    ensures
        r == (!is_directory && !is_symlink && path_extension(file_name@) == Some(json_extension())),
{
    if is_directory || is_symlink {
        return false;
    }
    let (_, ext) = split_file_name(file_name);
    match ext {
        Some(e) => {
            let c = chars_of(e.as_str());
            let r = c.len() == 4 && c[0] == 'j' && c[1] == 's' && c[2] == 'o' && c[3] == 'n';
            assert(r == (c@ == json_extension())) by {
                if r {
                    assert(c@ =~= json_extension());
                }
            }
            r
        },
        None => false,
    }
}

/// A template entry of the desktop catalog.
#[derive(Debug, Clone, PartialEq, Eq)]
pub struct FileTemplateEntry {
    pub id: String,
    pub title: String,
    pub source: String,
    pub template_json: String,
}

/// The id and title that parsing a template definition yields.
#[derive(Debug, Clone, PartialEq, Eq)]
pub struct TemplateIdentity {
    pub id: String,
    pub title: String,
}

/// Turns a parsed template definition into a catalog entry from `source`, or maps
/// the parse error to `invalid_template`.
pub fn template_entry(
    template_json: String,
    parsed: Result<TemplateIdentity, String>,
    source: &str,
) -> (r: Result<FileTemplateEntry, CommandError>)
    ensures
        match parsed {
            Ok(t) => r matches Ok(e) && e.id@ == t.id@ && e.title@ == t.title@ && e.source@
                == source@ && e.template_json@ == template_json@,
            Err(m) => r matches Err(e) && e.code@ == "invalid_template"@ && e.message@ == m@,
        },
{
    match parsed {
        Ok(t) => Ok(
            FileTemplateEntry { id: t.id, title: t.title, source: source.to_owned(), template_json },
        ),
        Err(m) => Err(command_error("invalid_template", m.as_str())),
    }
}

/// Checks the size of a stored user template before and after reading it (desktop).
pub fn check_user_template_size(len: u64, path_display: &str) -> (r: Result<(), CommandError>)
    ensures
        r is Err <==> len > MAX_USER_TEMPLATE_BYTES,
        r matches Err(e) ==> e.code@ == "user_template_too_large"@ && e.message@
            == "user template exceeds 1 MiB: "@ + path_display@,
{
    if len > MAX_USER_TEMPLATE_BYTES {
        Err(command_error_with("user_template_too_large", "user template exceeds 1 MiB: ", path_display))
    } else {
        Ok(())
    }
}

/// Whether some entry of `s` has the id `id`.
pub open spec fn has_id(s: Seq<FileTemplateEntry>, id: Seq<char>) -> bool {
    exists|i: int| 0 <= i < s.len() && #[trigger] s[i].id@ == id
}

/// No two entries of `s` share an id.
pub open spec fn ids_distinct(s: Seq<FileTemplateEntry>) -> bool {
    forall|i: int, j: int| 0 <= i < j < s.len() ==> #[trigger] s[i].id@ != #[trigger] s[j].id@
}

/// Whether some entry of `v` has the id `id`.
pub fn contains_id(v: &Vec<FileTemplateEntry>, id: &str) -> (r: bool)
    ensures
        r == has_id(v@, id@),
{
    let mut i: usize = 0;
    while i < v.len()
        invariant
            i <= v.len(),
            forall|j: int| 0 <= j < i ==> #[trigger] v@[j].id@ != id@,
        decreases v.len() - i,
    {
        if str_eq(v[i].id.as_str(), id) {
            return true;
        }
        i = i + 1;
    }
    false
}

/// Adds a user template read from `file_name` to the desktop catalog: its file stem must be
/// its id, and no entry already in the catalog may hold that id.
pub fn admit_user_template(
    templates: &mut Vec<FileTemplateEntry>,
    file_name: &str,
    entry: FileTemplateEntry,
) -> (r: Result<(), CommandError>)
    ensures
        path_stem(file_name@) != entry.id@ ==> (r matches Err(e) && e.code@
            == "invalid_template_id"@ && e.message@ == "user template filename must match id: "@
            + entry.id@),
        path_stem(file_name@) == entry.id@ && has_id(old(templates)@, entry.id@) ==> (r matches Err(
            e,
        ) && e.code@ == "invalid_template_id"@ && e.message@
            == "user template id is reserved by a built-in template: "@ + entry.id@),
        r is Err ==> final(templates)@ == old(templates)@,
        r is Ok <==> path_stem(file_name@) == entry.id@ && !has_id(old(templates)@, entry.id@),
        r is Ok ==> final(templates)@ == old(templates)@.push(entry),
{
    let (stem, _) = split_file_name(file_name);
    if !str_eq(stem.as_str(), entry.id.as_str()) {
        return Err(
            command_error_with(
                "invalid_template_id",
                "user template filename must match id: ",
                entry.id.as_str(),
            ),
        );
    }
    if contains_id(templates, entry.id.as_str()) {
        return Err(
            command_error_with(
                "invalid_template_id",
                "user template id is reserved by a built-in template: ",
                entry.id.as_str(),
            ),
        );
    }
    templates.push(entry);
    Ok(())
}

/// Entries of `s` appear in order of their ids.
pub open spec fn sorted_by_id(s: Seq<FileTemplateEntry>) -> bool {
    forall|i: int, j: int| 0 <= i < j < s.len() ==> !seq_less(#[trigger] s[j].id@, #[trigger] s[i].id@)
}

impl Keyed for FileTemplateEntry {
    open spec fn key_view(&self) -> Seq<char> {
        self.id@
    }

    fn key(&self) -> (r: &str) {
        self.id.as_str()
    }
}

/// Sorts entries by id: the result holds the same entries, in order of their ids.
pub fn sort_by_id(v: Vec<FileTemplateEntry>) -> (r: Vec<FileTemplateEntry>)
    ensures
        sorted_by_id(r@),
        r@.to_multiset() == v@.to_multiset(),
        r@.len() == v@.len(),
{
    let r = sort_by_key_text(v);
    assert forall|i: int, j: int| 0 <= i < j < r@.len() implies !seq_less(
        #[trigger] r@[j].id@,
        #[trigger] r@[i].id@,
    ) by {
        assert(!seq_less(r@[j].key_view(), r@[i].key_view()));
    }
    r
}

} // verus!

verus! {

/// The file name under which the user template `id` is stored.
pub fn user_template_file_name(id: &str) -> (r: String)
    ensures
        r@ == id@ + ".json"@,
{
    crate::text::concat(id, ".json")
}

/// Checks a template sent for planning, execution or saving against the 1 MiB limit.
pub fn check_template_text_size(template_json: &str, message: &str) -> (r: Result<(), CommandError>)
    ensures
        r is Err <==> crate::text::utf8_len(template_json@) > MAX_USER_TEMPLATE_BYTES,
        r matches Err(e) ==> e.code@ == "user_template_too_large"@ && e.message@ == message@,
{
    if template_json.len() as u64 > MAX_USER_TEMPLATE_BYTES {
        Err(command_error("user_template_too_large", message))
    } else {
        Ok(())
    }
}

/// Rejects a user template whose id belongs to a built-in template.
pub fn check_not_built_in(built_ins: &Vec<FileTemplateEntry>, entry: &FileTemplateEntry) -> (r: Result<(), CommandError>)
    ensures
        r is Err <==> has_id(built_ins@, entry.id@),
        r matches Err(e) ==> e.code@ == "invalid_template_id"@ && e.message@
            == "user template id is reserved by a built-in template: "@ + entry.id@,
{
    if contains_id(built_ins, entry.id.as_str()) {
        Err(
            command_error_with(
                "invalid_template_id",
                "user template id is reserved by a built-in template: ",
                entry.id.as_str(),
            ),
        )
    } else {
        Ok(())
    }
}

/// Checks what the command line learns of a template file before reading it: it must be a
/// regular file of at most 1 MiB.
pub fn cli_check_template_metadata(is_file: bool, len: u64, json: bool) -> (r: Result<(), CliError>)
    ensures
        r is Err <==> !is_file || len > MAX_USER_TEMPLATE_BYTES,
        !is_file ==> (r matches Err(e) && e.code@ == "template_unreadable"@ && e.message@
            == "template must be a regular file"@),
        is_file && len > MAX_USER_TEMPLATE_BYTES ==> (r matches Err(e) && e.code@
            == "user_template_too_large"@ && e.message@ == "user template exceeds 1 MiB"@),
        r matches Err(e) ==> e.exit_code == 2 && e.json == json && e.details is None,
{
    if !is_file {
        return Err(CliError::input("template_unreadable", "template must be a regular file", json));
    }
    if len > MAX_USER_TEMPLATE_BYTES {
        return Err(CliError::input("user_template_too_large", "user template exceeds 1 MiB", json));
    }
    Ok(())
}

/// What a `--template` argument names: a template file, or with a leading `@` a template id.
pub fn resolve_template_reference(reference: &str, json: bool) -> (r: Result<Option<String>, CliError>)
    ensures
        reference@.len() == 0 || reference@[0] != '@' ==> (r matches Ok(None)),
        reference@.len() > 0 && reference@[0] == '@' ==> {
            let id = reference@.skip(1);
            &&& is_valid_template_id(id) ==> (r matches Ok(Some(s)) && s@ == id)
            &&& !is_valid_template_id(id) ==> (r matches Err(e) && e.code@ == "invalid_template_id"@
                && e.message@ == "template id must use 1-64 lowercase ASCII letters, digits, '-' or '_'"@
                && e.exit_code == 2 && e.json == json)
        },
{
    let n = reference.unicode_len();
    if n == 0 || reference.get_char(0) != '@' {
        return Ok(None);
    }
    let id = reference.substring_char(1, n);
    assert(id@ =~= reference@.skip(1));
    if !valid_template_id(id) {
        return Err(
            CliError::input(
                "invalid_template_id",
                "template id must use 1-64 lowercase ASCII letters, digits, '-' or '_'",
                json,
            ),
        );
    }
    Ok(Some(id.to_owned()))
}

/// Checks that a user template loaded as `@expected` declares the id `expected`.
pub fn cli_check_loaded_template_id(expected: &str, loaded_id: &str, json: bool) -> (r: Result<(), CliError>)
    ensures
        r is Ok <==> expected@ == loaded_id@,
        r matches Err(e) ==> e.code@ == "invalid_template_id"@ && e.message@
            == "user template filename must match id: "@ + loaded_id@ && e.exit_code == 2 && e.json
            == json,
{
    if str_eq(expected, loaded_id) {
        Ok(())
    } else {
        Err(
            CliError::input_with(
                "invalid_template_id",
                "user template filename must match id: ",
                loaded_id,
                json,
            ),
        )
    }
}

/// The index of the first entry of `v` with the id `id`.
pub fn find_template(v: &Vec<FileTemplateEntry>, id: &str) -> (r: Option<usize>)
    ensures
        match r {
            Some(i) => i < v@.len() && v@[i as int].id@ == id@ && forall|j: int|
                0 <= j < i ==> #[trigger] v@[j].id@ != id@,
            None => !has_id(v@, id@),
        },
{
    let mut i: usize = 0;
    while i < v.len()
        invariant
            i <= v.len(),
            forall|j: int| 0 <= j < i ==> #[trigger] v@[j].id@ != id@,
        decreases v.len() - i,
    {
        if str_eq(v[i].id.as_str(), id) {
            return Some(i);
        }
        i = i + 1;
    }
    None
}

} // verus!

verus! {

/// Admitting a user template keeps the ids of a catalog distinct.
pub proof fn law_admission_keeps_ids_distinct(templates: Seq<FileTemplateEntry>, entry: FileTemplateEntry)
    requires
        ids_distinct(templates),
        !has_id(templates, entry.id@),
    ensures
        ids_distinct(templates.push(entry)),
{
    let s = templates.push(entry);
    assert forall|i: int, j: int| 0 <= i < j < s.len() implies #[trigger] s[i].id@ != #[trigger] s[j].id@ by {
        if j == templates.len() {
            assert(s[i] == templates[i]);
            if s[i].id@ == entry.id@ {
                assert(has_id(templates, entry.id@));
            }
        } else {
            assert(s[i] == templates[i] && s[j] == templates[j]);
        }
    }
}

/// Sorting the user templates of a catalog keeps them, and so keeps their ids distinct.
pub proof fn law_sorting_keeps_ids_distinct(before: Seq<FileTemplateEntry>, after: Seq<FileTemplateEntry>)
    requires
        ids_distinct(before),
        after.to_multiset() == before.to_multiset(),
    ensures
        ids_distinct(after),
{
    broadcast use vstd::seq_lib::group_to_multiset_ensures;
    assert forall|i: int, j: int| 0 <= i < j < after.len() implies #[trigger] after[i].id@
        != #[trigger] after[j].id@ by {
        if after[i].id@ == after[j].id@ {
            assert(after.to_multiset().contains(after[i]));
            assert(after.to_multiset().contains(after[j]));
            assert(before.contains(after[i]));
            assert(before.contains(after[j]));
            let a = choose|a: int| 0 <= a < before.len() && before[a] == after[i];
            let b = choose|b: int| 0 <= b < before.len() && before[b] == after[j];
            if a == b {
                // The same entry of `before` appears twice in `after`.
                assert(after.to_multiset().count(after[i]) >= 2) by {
                    lemma_count_two(after, i, j);
                }
                assert(before.to_multiset().count(before[a]) == 1) by {
                    lemma_count_distinct_one(before, a);
                }
            }
        }
    }
}

proof fn lemma_count_two(s: Seq<FileTemplateEntry>, i: int, j: int)
    requires
        0 <= i < j < s.len(),
        s[i] == s[j],
    ensures
        s.to_multiset().count(s[i]) >= 2,
{
    broadcast use vstd::seq_lib::group_to_multiset_ensures;
    let x = s[i];
    let t = s.remove(j);
    vstd::seq_lib::to_multiset_remove(s, j);
    assert(t[i] == x);
    assert(t.contains(x));
    assert(t.to_multiset().count(x) >= 1);
}

proof fn lemma_count_distinct_one(s: Seq<FileTemplateEntry>, a: int)
    requires
        ids_distinct(s),
        0 <= a < s.len(),
    ensures
        s.to_multiset().count(s[a]) == 1,
{
    broadcast use vstd::seq_lib::group_to_multiset_ensures;
    let x = s[a];
    let t = s.remove(a);
    vstd::seq_lib::to_multiset_remove(s, a);
    assert(!t.contains(x)) by {
        if t.contains(x) {
            let k = choose|k: int| 0 <= k < t.len() && t[k] == x;
            if k < a {
                assert(s[k] == x);
                assert(s[k].id@ != s[a].id@);
            } else {
                assert(s[k + 1] == x);
                assert(s[a].id@ != s[k + 1].id@);
            }
        }
    }
    assert(t.to_multiset().count(x) == 0);
    assert(s.contains(x));
    assert(s.to_multiset().count(x) >= 1);
    broadcast use vstd::multiset::group_multiset_axioms;
    assert(s.to_multiset().remove(x).count(x) == s.to_multiset().count(x) - 1);
}

/// A valid template id names a single file inside the template directory, which the catalog
/// lists back under that id: `{id}.json` has no path separator, its extension is `json` and
/// its stem is the id.
pub proof fn law_saved_template_is_listed_under_its_id(id: Seq<char>)
    requires
        is_valid_template_id(id),
    ensures
        forall|i: int| 0 <= i < id.len() ==> #[trigger] id[i] != '/' && id[i] != '\\' && id[i] != '.',
        path_extension(id + ".json"@) == Some(json_extension()),
        path_stem(id + ".json"@) == id,
{
    reveal_strlit(".json");
    let n = id + ".json"@;
    assert forall|i: int| 0 <= i < id.len() implies #[trigger] id[i] != '/' && id[i] != '\\'
        && id[i] != '.' by {
        assert(is_template_id_char(id[i]));
    }
    crate::text::lemma_last_index_of(n, '.');
    assert(n[id.len() as int] == '.');
    assert(crate::text::last_index_of(n, '.') == id.len()) by {
        let d = crate::text::last_index_of(n, '.');
        if d > id.len() {
            assert(n[d] != '.');
        }
        if d < id.len() {
            assert(false);
        }
    }
    assert(n != dot_dot()) by {
        assert(n.len() >= 6);
    }
    assert(n.subrange(id.len() as int + 1, n.len() as int) =~= json_extension());
    assert(n.subrange(0, id.len() as int) =~= id);
}

} // verus!

verus! {

/// Turns the bytes read from a template file into its text on the command line: at most
/// 1 MiB of UTF-8.
pub fn cli_decode_template(bytes: Vec<u8>, json: bool) -> (r: Result<String, CliError>)
    ensures
        r matches Err(e) ==> e.exit_code == 2 && e.json == json && e.details is None,
        bytes@.len() > MAX_USER_TEMPLATE_BYTES ==> (r matches Err(e) && e.code@
            == "user_template_too_large"@ && e.message@ == "user template exceeds 1 MiB"@),
        bytes@.len() <= MAX_USER_TEMPLATE_BYTES && !vstd::utf8::valid_utf8(bytes@) ==> (r matches Err(
            e,
        ) && e.code@ == "invalid_template"@ && e.message@ == crate::text::utf8_error_text(
            bytes@,
        )),
        bytes@.len() <= MAX_USER_TEMPLATE_BYTES && vstd::utf8::valid_utf8(bytes@) ==> (r matches Ok(
            s,
        ) && s@ == vstd::utf8::decode_utf8(bytes@)),
{
    if bytes.len() as u64 > MAX_USER_TEMPLATE_BYTES {
        return Err(CliError::input("user_template_too_large", "user template exceeds 1 MiB", json));
    }
    match crate::text::decode_utf8(bytes) {
        Ok(s) => Ok(s),
        Err(m) => Err(CliError::input("invalid_template", m.as_str(), json)),
    }
}

/// Turns the bytes read from a stored user template into its text on the desktop: at most
/// 1 MiB of UTF-8.
pub fn decode_user_template(bytes: Vec<u8>, path_display: &str) -> (r: Result<String, CommandError>)
    ensures
        bytes@.len() > MAX_USER_TEMPLATE_BYTES ==> (r matches Err(e) && e.code@
            == "user_template_too_large"@ && e.message@ == "user template exceeds 1 MiB: "@
            + path_display@),
        bytes@.len() <= MAX_USER_TEMPLATE_BYTES && !vstd::utf8::valid_utf8(bytes@) ==> (r matches Err(
            e,
        ) && e.code@ == "invalid_template"@ && e.message@ == crate::text::utf8_error_text(
            bytes@,
        )),
        bytes@.len() <= MAX_USER_TEMPLATE_BYTES && vstd::utf8::valid_utf8(bytes@) ==> (r matches Ok(
            s,
        ) && s@ == vstd::utf8::decode_utf8(bytes@)),
{
    if bytes.len() as u64 > MAX_USER_TEMPLATE_BYTES {
        return Err(
            command_error_with(
                "user_template_too_large",
                "user template exceeds 1 MiB: ",
                path_display,
            ),
        );
    }
    match crate::text::decode_utf8(bytes) {
        Ok(s) => Ok(s),
        Err(m) => Err(command_error("invalid_template", m.as_str())),
    }
}

} // verus!

verus! {

/// Entries of `s` appear in strictly increasing order of their ids.
pub open spec fn strictly_sorted_by_id(s: Seq<FileTemplateEntry>) -> bool {
    forall|i: int, j: int| 0 <= i < j < s.len() ==> seq_less(#[trigger] s[i].id@, #[trigger] s[j].id@)
}

proof fn lemma_sorted_distinct_is_strict(s: Seq<FileTemplateEntry>)
    requires
        sorted_by_id(s),
        ids_distinct(s),
    ensures
        strictly_sorted_by_id(s),
{
    assert forall|i: int, j: int| 0 <= i < j < s.len() implies seq_less(
        #[trigger] s[i].id@,
        #[trigger] s[j].id@,
    ) by {
        lemma_seq_less_total(s[i].id@, s[j].id@);
    }
}

proof fn lemma_strictly_sorted_unique(a: Seq<FileTemplateEntry>, b: Seq<FileTemplateEntry>)
    requires
        strictly_sorted_by_id(a),
        strictly_sorted_by_id(b),
        a.to_multiset() == b.to_multiset(),
    ensures
        a == b,
    decreases a.len(),
{
    broadcast use vstd::seq_lib::group_to_multiset_ensures;
    vstd::seq_lib::to_multiset_len(a);
    vstd::seq_lib::to_multiset_len(b);
    if a.len() == 0 {
        assert(a =~= b);
    } else {
        assert(a.contains(a[0]));
        assert(b.to_multiset().count(a[0]) > 0);
        assert(b.contains(a[0]));
        let k = choose|k: int| 0 <= k < b.len() && b[k] == a[0];
        assert(b.contains(b[0]));
        assert(a.to_multiset().count(b[0]) > 0);
        assert(a.contains(b[0]));
        let m = choose|m: int| 0 <= m < a.len() && a[m] == b[0];
        if k > 0 {
            assert(seq_less(b[0].id@, b[k].id@));
            if m > 0 {
                assert(seq_less(a[0].id@, a[m].id@));
                lemma_seq_less_asymmetric(b[0].id@, a[0].id@);
            } else {
                lemma_seq_less_irreflexive(b[0].id@);
            }
        }
        assert(a[0] == b[0]);
        let a1 = a.drop_first();
        let b1 = b.drop_first();
        assert(a.remove(0) =~= a1);
        assert(b.remove(0) =~= b1);
        assert(a1.to_multiset() == b1.to_multiset());
        assert forall|i: int, j: int| 0 <= i < j < a1.len() implies seq_less(
            #[trigger] a1[i].id@,
            #[trigger] a1[j].id@,
        ) by {
            assert(a1[i] == a[i + 1] && a1[j] == a[j + 1]);
        }
        assert forall|i: int, j: int| 0 <= i < j < b1.len() implies seq_less(
            #[trigger] b1[i].id@,
            #[trigger] b1[j].id@,
        ) by {
            assert(b1[i] == b[i + 1] && b1[j] == b[j + 1]);
        }
        lemma_strictly_sorted_unique(a1, b1);
        assert(a =~= b) by {
            assert forall|i: int| 0 <= i < a.len() implies a[i] == b[i] by {
                if i > 0 {
                    assert(a[i] == a1[i - 1] && b[i] == b1[i - 1]);
                }
            }
        }
    }
}

/// The catalog does not depend on the order in which the template directory was read: when
/// two readings find the same user templates, with distinct ids, sorting either reading by id
/// gives the same list.
pub proof fn law_listing_ignores_directory_order(
    first: Seq<FileTemplateEntry>,
    second: Seq<FileTemplateEntry>,
    sorted_first: Seq<FileTemplateEntry>,
    sorted_second: Seq<FileTemplateEntry>,
)
    requires
        ids_distinct(first),
        second.to_multiset() == first.to_multiset(),
        sorted_by_id(sorted_first),
        sorted_first.to_multiset() == first.to_multiset(),
        sorted_by_id(sorted_second),
        sorted_second.to_multiset() == second.to_multiset(),
    ensures
        sorted_first == sorted_second,
{
    law_sorting_keeps_ids_distinct(first, sorted_first);
    law_sorting_keeps_ids_distinct(first, sorted_second);
    lemma_sorted_distinct_is_strict(sorted_first);
    lemma_sorted_distinct_is_strict(sorted_second);
    lemma_strictly_sorted_unique(sorted_first, sorted_second);
}

} // verus!

verus! {

/// A `*.json` entry of the template directory: its file name, and the catalog entry read from
/// it, or why it could not be read or parsed.
#[derive(Debug, PartialEq, Eq)]
pub struct TemplateFile {
    pub file_name: String,
    pub loaded: Result<FileTemplateEntry, CommandError>,
}

/// A template file left out of the catalog: its name, and the code and message of why.
#[derive(Debug, Clone, PartialEq, Eq)]
pub struct TemplateWarning {
    pub file_name: String,
    pub code: String,
    pub message: String,
}

impl Keyed for TemplateWarning {
    open spec fn key_view(&self) -> Seq<char> {
        self.file_name@
    }

    fn key(&self) -> (r: &str) {
        self.file_name.as_str()
    }
}

/// The template catalog: the built-in templates, then the user templates ordered by id, and a
/// warning for each template file that was left out, ordered by file name.
#[derive(Debug, Clone, PartialEq, Eq)]
pub struct FileTemplateCatalog {
    pub templates: Vec<FileTemplateEntry>,
    pub warnings: Vec<TemplateWarning>,
}

/// A warning as plain text: file name, code and message.
pub open spec fn warning_view(w: TemplateWarning) -> (Seq<char>, Seq<char>, Seq<char>) {
    (w.file_name@, w.code@, w.message@)
}

/// Why the template file `f` is left out of a catalog that already holds `catalog`, as code
/// and message: it could not be read or parsed, its file stem is not its id, or its id is
/// taken.
pub open spec fn file_problem(catalog: Seq<FileTemplateEntry>, f: TemplateFile) -> Option<(Seq<char>, Seq<char>)> {
    match f.loaded {
        Err(e) => Some((e.code@, e.message@)),
        Ok(entry) => if path_stem(f.file_name@) != entry.id@ {
            Some(("invalid_template_id"@, "user template filename must match id: "@ + entry.id@))
        } else if has_id(catalog, entry.id@) {
            Some(
                (
                    "invalid_template_id"@,
                    "user template id is reserved by a built-in template: "@ + entry.id@,
                ),
            )
        } else {
            None
        },
    }
}

/// The user templates admitted, in reading order, and the warnings, when the files are read
/// in the order of `files` after the built-in templates.
pub open spec fn catalog_pass(built_ins: Seq<FileTemplateEntry>, files: Seq<TemplateFile>) -> (
    Seq<FileTemplateEntry>,
    Seq<(Seq<char>, Seq<char>, Seq<char>)>,
)
    decreases files.len(),
{
    if files.len() == 0 {
        (Seq::empty(), Seq::empty())
    } else {
        let (users, warnings) = catalog_pass(built_ins, files.drop_last());
        let f = files.last();
        match file_problem(built_ins + users, f) {
            Some((code, message)) => (users, warnings.push((f.file_name@, code, message))),
            None => match f.loaded {
                Ok(entry) => (users.push(entry), warnings),
                Err(_) => (users, warnings),
            },
        }
    }
}

/// Builds the template catalog from the built-in templates and the template files found: the
/// built-in templates come first, then every readable user template whose file stem is its
/// id and whose id is not taken, ordered by id; every other file gets a warning, and the
/// warnings are ordered by file name.
pub fn build_template_catalog(built_ins: Vec<FileTemplateEntry>, files: Vec<TemplateFile>) -> (r: FileTemplateCatalog)
    ensures
        r.templates@.take(built_ins@.len() as int) == built_ins@,
        r.templates@.len() == built_ins@.len() + catalog_pass(built_ins@, files@).0.len(),
        sorted_by_id(r.templates@.skip(built_ins@.len() as int)),
        r.templates@.skip(built_ins@.len() as int).to_multiset() == catalog_pass(
            built_ins@,
            files@,
        ).0.to_multiset(),
        sorted_by_key(r.warnings@),
        r.warnings@.map_values(|w: TemplateWarning| warning_view(w)).to_multiset() == catalog_pass(
            built_ins@,
            files@,
        ).1.to_multiset(),
{
    let ghost b = built_ins@;
    let ghost input = files@;
    let nb = built_ins.len();
    let mut templates = built_ins;
    let mut warnings: Vec<TemplateWarning> = Vec::new();
    let mut rest = files;
    let mut k: usize = 0;
    let n = rest.len();
    assert(input.take(0) =~= Seq::<TemplateFile>::empty());
    assert(templates@ =~= b + catalog_pass(b, input.take(0)).0);
    assert(warnings@.map_values(|w: TemplateWarning| warning_view(w)) =~= catalog_pass(
        b,
        input.take(0),
    ).1);
    while rest.len() > 0
        invariant
            nb == b.len(),
            n == input.len(),
            k <= n,
            rest@ == input.skip(k as int),
            templates@ == b + catalog_pass(b, input.take(k as int)).0,
            warnings@.map_values(|w: TemplateWarning| warning_view(w)) == catalog_pass(
                b,
                input.take(k as int),
            ).1,
        decreases rest.len(),
    {
        let f = rest.remove(0);
        let ghost prefix = input.take(k as int + 1);
        assert(prefix.drop_last() =~= input.take(k as int));
        assert(prefix.last() == f);
        assert(rest@ =~= input.skip(k as int + 1));
        let TemplateFile { file_name, loaded } = f;
        match loaded {
            Err(e) => {
                warnings.push(TemplateWarning { file_name, code: e.code, message: e.message });
            },
            Ok(entry) => {
                match admit_user_template(&mut templates, file_name.as_str(), entry) {
                    Ok(()) => {},
                    Err(e) => {
                        warnings.push(TemplateWarning { file_name, code: e.code, message: e.message });
                    },
                }
            },
        }
        assert(templates@ =~= b + catalog_pass(b, prefix).0);
        assert(warnings@.map_values(|w: TemplateWarning| warning_view(w)) =~= catalog_pass(b, prefix).1);
        k = k + 1;
    }
    assert(input.take(n as int) =~= input);
    let ghost users = catalog_pass(b, input).0;
    let mut tail = templates.split_off(nb);
    assert(tail@ =~= users);
    assert(templates@ =~= b);
    let mut sorted = sort_by_id(tail);
    let ghost sorted_users = sorted@;
    templates.append(&mut sorted);
    assert(templates@.take(nb as int) =~= b);
    assert(templates@.skip(nb as int) =~= sorted_users);
    let ghost unsorted = warnings@;
    let warnings = sort_by_key_text(warnings);
    proof {
        crate::order::lemma_to_multiset_map(warnings@, unsorted, |w: TemplateWarning| warning_view(w));
    }
    FileTemplateCatalog { templates, warnings }
}

proof fn lemma_pass_keeps_ids_distinct(built_ins: Seq<FileTemplateEntry>, files: Seq<TemplateFile>)
    requires
        ids_distinct(built_ins),
    ensures
        ids_distinct(built_ins + catalog_pass(built_ins, files).0),
    decreases files.len(),
{
    if files.len() == 0 {
        assert(built_ins + catalog_pass(built_ins, files).0 =~= built_ins);
    } else {
        lemma_pass_keeps_ids_distinct(built_ins, files.drop_last());
        let users = catalog_pass(built_ins, files.drop_last()).0;
        let f = files.last();
        if file_problem(built_ins + users, f) is None {
            if let Ok(entry) = f.loaded {
                law_admission_keeps_ids_distinct(built_ins + users, entry);
                assert((built_ins + users).push(entry) =~= built_ins + users.push(entry));
            }
        }
    }
}

/// A catalog never lists two templates with the same id: when the built-in templates have
/// distinct ids, so does every catalog built from them, whatever template files were found.
pub proof fn law_catalog_ids_are_distinct(
    built_ins: Seq<FileTemplateEntry>,
    files: Seq<TemplateFile>,
    catalog: Seq<FileTemplateEntry>,
)
    requires
        ids_distinct(built_ins),
        catalog.take(built_ins.len() as int) == built_ins,
        catalog.len() >= built_ins.len(),
        catalog.skip(built_ins.len() as int).to_multiset() == catalog_pass(built_ins, files).0.to_multiset(),
    ensures
        ids_distinct(catalog),
{
    let users = catalog_pass(built_ins, files).0;
    let nb = built_ins.len() as int;
    lemma_pass_keeps_ids_distinct(built_ins, files);
    assert(catalog =~= catalog.take(nb) + catalog.skip(nb));
    vstd::seq_lib::lemma_multiset_commutative(catalog.take(nb), catalog.skip(nb));
    vstd::seq_lib::lemma_multiset_commutative(built_ins, users);
    assert(catalog.to_multiset() =~= (built_ins + users).to_multiset());
    law_sorting_keeps_ids_distinct(built_ins + users, catalog);
}

/// The entry read from a template file, for a file that was read and parsed.
pub open spec fn loaded_entry(f: TemplateFile) -> FileTemplateEntry {
    match f.loaded {
        Ok(e) => e,
        Err(_) => arbitrary(),
    }
}

/// A template file that holds a template whose id is its file stem and is no built-in id.
pub open spec fn is_listable(built_ins: Seq<FileTemplateEntry>, f: TemplateFile) -> bool {
    &&& f.loaded is Ok
    &&& path_stem(f.file_name@) == loaded_entry(f).id@
    &&& !has_id(built_ins, loaded_entry(f).id@)
}

/// When every template file found is listable and their ids are distinct, the catalog lists
/// every one of them, in addition to the built-in templates, and warns of nothing.
pub proof fn law_valid_templates_are_all_listed(built_ins: Seq<FileTemplateEntry>, files: Seq<TemplateFile>)
    requires
        forall|i: int| 0 <= i < files.len() ==> is_listable(built_ins, #[trigger] files[i]),
        forall|i: int, j: int|
            0 <= i < j < files.len() ==> loaded_entry(#[trigger] files[i]).id@ != loaded_entry(
                #[trigger] files[j],
            ).id@,
    ensures
        catalog_pass(built_ins, files).1.len() == 0,
        catalog_pass(built_ins, files).0 == files.map_values(|f: TemplateFile| loaded_entry(f)),
    decreases files.len(),
{
    if files.len() > 0 {
        let front = files.drop_last();
        assert forall|i: int| 0 <= i < front.len() implies is_listable(built_ins, #[trigger] front[i]) by {
            assert(front[i] == files[i]);
        }
        assert forall|i: int, j: int| 0 <= i < j < front.len() implies loaded_entry(
            #[trigger] front[i],
        ).id@ != loaded_entry(#[trigger] front[j]).id@ by {
            assert(front[i] == files[i] && front[j] == files[j]);
        }
        law_valid_templates_are_all_listed(built_ins, front);
        let users = catalog_pass(built_ins, front).0;
        let f = files.last();
        assert(is_listable(built_ins, files[files.len() - 1]));
        assert(!has_id(built_ins + users, loaded_entry(f).id@)) by {
            if has_id(built_ins + users, loaded_entry(f).id@) {
                let k = choose|k: int|
                    0 <= k < (built_ins + users).len() && #[trigger] (built_ins + users)[k].id@
                        == loaded_entry(f).id@;
                if k < built_ins.len() {
                    assert(built_ins[k] == (built_ins + users)[k]);
                    assert(has_id(built_ins, loaded_entry(f).id@));
                } else {
                    let u = k - built_ins.len();
                    assert(users[u] == loaded_entry(front[u]));
                    assert(front[u] == files[u]);
                    assert(loaded_entry(files[u]).id@ != loaded_entry(files[files.len() - 1]).id@);
                }
            }
        }
        assert(files.map_values(|g: TemplateFile| loaded_entry(g)) =~= front.map_values(
            |g: TemplateFile| loaded_entry(g),
        ).push(loaded_entry(f)));
    } else {
        assert(files.map_values(|g: TemplateFile| loaded_entry(g)) =~= Seq::<FileTemplateEntry>::empty());
    }
}

/// A file name with an extension is its stem, a dot, and the extension.
proof fn lemma_name_is_stem_dot_extension(name: Seq<char>, ext: Seq<char>)
    requires
        path_extension(name) == Some(ext),
    ensures
        name == path_stem(name) + seq!['.'] + ext,
{
    crate::text::lemma_last_index_of(name, '.');
    let d = crate::text::last_index_of(name, '.');
    assert(name =~= name.subrange(0, d) + seq!['.'] + name.subrange(d + 1, name.len() as int));
}

/// Two `*.json` files whose names differ have different stems, so the templates they hold,
/// when each one's id is its stem, have different ids.
pub proof fn law_distinct_json_names_give_distinct_ids(a: TemplateFile, b: TemplateFile)
    requires
        path_extension(a.file_name@) == Some(json_extension()),
        path_extension(b.file_name@) == Some(json_extension()),
        a.file_name@ != b.file_name@,
        a.loaded is Ok,
        b.loaded is Ok,
        path_stem(a.file_name@) == loaded_entry(a).id@,
        path_stem(b.file_name@) == loaded_entry(b).id@,
    ensures
        loaded_entry(a).id@ != loaded_entry(b).id@,
{
    lemma_name_is_stem_dot_extension(a.file_name@, json_extension());
    lemma_name_is_stem_dot_extension(b.file_name@, json_extension());
}

/// Every valid template file found is listed once: when the template files found have
/// distinct `*.json` names, and each holds a template whose id is its file stem and is no
/// built-in id, the catalog lists each of them, in addition to the built-in templates, with
/// distinct ids, and warns of nothing.
pub proof fn law_listable_files_are_all_listed(built_ins: Seq<FileTemplateEntry>, files: Seq<TemplateFile>)
    requires
        ids_distinct(built_ins),
        forall|i: int|
            0 <= i < files.len() ==> is_listable(built_ins, #[trigger] files[i])
                && path_extension(files[i].file_name@) == Some(json_extension()),
        forall|i: int, j: int|
            0 <= i < j < files.len() ==> (#[trigger] files[i]).file_name@ != (
            #[trigger] files[j]).file_name@,
    ensures
        catalog_pass(built_ins, files).1.len() == 0,
        catalog_pass(built_ins, files).0 == files.map_values(|f: TemplateFile| loaded_entry(f)),
        ids_distinct(built_ins + catalog_pass(built_ins, files).0),
{
    assert forall|i: int, j: int| 0 <= i < j < files.len() implies loaded_entry(
        #[trigger] files[i],
    ).id@ != loaded_entry(#[trigger] files[j]).id@ by {
        law_distinct_json_names_give_distinct_ids(files[i], files[j]);
    }
    law_valid_templates_are_all_listed(built_ins, files);
    lemma_pass_keeps_ids_distinct(built_ins, files);
}

/// A saved template is listed back once, as saved: when a template of a valid id that is no
/// built-in id is stored as `{id}.json` and read back as the same entry, and the other
/// template files are valid as above, the catalog's user templates hold that entry, and no
/// other entry has its id.
pub proof fn law_saved_template_is_listed_once(
    built_ins: Seq<FileTemplateEntry>,
    files: Seq<TemplateFile>,
    saved: FileTemplateEntry,
    k: int,
)
    requires
        ids_distinct(built_ins),
        is_valid_template_id(saved.id@),
        !has_id(built_ins, saved.id@),
        0 <= k < files.len(),
        files[k].file_name@ == saved.id@ + ".json"@,
        files[k].loaded == Ok::<FileTemplateEntry, CommandError>(saved),
        forall|i: int|
            0 <= i < files.len() && i != k ==> is_listable(built_ins, #[trigger] files[i])
                && path_extension(files[i].file_name@) == Some(json_extension()),
        forall|i: int, j: int|
            0 <= i < j < files.len() ==> (#[trigger] files[i]).file_name@ != (
            #[trigger] files[j]).file_name@,
    ensures
        catalog_pass(built_ins, files).0.contains(saved),
        forall|i: int|
            0 <= i < catalog_pass(built_ins, files).0.len() && #[trigger] catalog_pass(
                built_ins,
                files,
            ).0[i].id@ == saved.id@ ==> catalog_pass(built_ins, files).0[i] == saved,
{
    law_saved_template_is_listed_under_its_id(saved.id@);
    assert(loaded_entry(files[k]) == saved);
    assert forall|i: int| 0 <= i < files.len() implies is_listable(built_ins, #[trigger] files[i])
        && path_extension(files[i].file_name@) == Some(json_extension()) by {
        if i == k {
            assert(is_listable(built_ins, files[k]));
        }
    }
    law_listable_files_are_all_listed(built_ins, files);
    let users = catalog_pass(built_ins, files).0;
    assert(users[k] == saved);
    assert forall|i: int| 0 <= i < users.len() && #[trigger] users[i].id@ == saved.id@ implies users[i]
        == saved by {
        if i != k {
            let all = built_ins + users;
            assert(all[built_ins.len() + i] == users[i]);
            assert(all[built_ins.len() + k] == users[k]);
        }
    }
}

/// Decides a desktop request to save a user template, after the filesystem write consent
/// check: a refused consent, a template over 1 MiB, a template that does not parse, or one
/// that takes a built-in id is refused; otherwise the entry to store as `{id}.json` comes
/// back. Nothing comes back to be written unless consent was granted.
pub fn prepare_user_template(
    consent: Result<(), crate::capability::AuthorizationError>,
    template_json: String,
    parsed: Result<TemplateIdentity, String>,
    built_ins: &Vec<FileTemplateEntry>,
) -> (r: Result<FileTemplateEntry, CommandError>)
    ensures
        r is Ok ==> consent is Ok,
        consent matches Err(e) ==> (r matches Err(c) && c.code@ == crate::capability::authorization_code(
            e.kind,
        ) && c.message@ == e.message@),
        consent is Ok && crate::text::utf8_len(template_json@) > MAX_USER_TEMPLATE_BYTES ==> (r matches Err(
            c,
        ) && c.code@ == "user_template_too_large"@ && c.message@ == "user template exceeds 1 MiB"@),
        consent is Ok && crate::text::utf8_len(template_json@) <= MAX_USER_TEMPLATE_BYTES ==> match parsed {
            Err(m) => r matches Err(c) && c.code@ == "invalid_template"@ && c.message@ == m@,
            Ok(t) => if has_id(built_ins@, t.id@) {
                r matches Err(c) && c.code@ == "invalid_template_id"@ && c.message@
                    == "user template id is reserved by a built-in template: "@ + t.id@
            } else {
                r matches Ok(e) && e.id@ == t.id@ && e.title@ == t.title@ && e.source@ == "user"@
                    && e.template_json@ == template_json@
            },
        },
{
    if let Err(e) = consent {
        return Err(crate::capability::map_authorization_error(e));
    }
    check_template_text_size(template_json.as_str(), "user template exceeds 1 MiB")?;
    let entry = template_entry(template_json, parsed, "user")?;
    check_not_built_in(built_ins, &entry)?;
    proof { reveal_strlit("user"); }
    Ok(entry)
}

} // verus!
