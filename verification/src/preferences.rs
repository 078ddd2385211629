//! Spark Analyzer preferences: which stored values are accepted, the schema version, the size
//! limit, and the retry decisions of the preferences lock.
use vstd::prelude::*;

use crate::args::{decimal_text, format_u32};
use crate::links::{parse_url, url_parse};
use crate::text::{chars_of, concat, str_eq, utf8_len};

verus! {

/// The largest preferences file, in bytes: 64 KiB.
pub const MAX_PREFERENCES_BYTES: u64 = 65536;

/// An error of the Spark preferences store: a stable code and a message.
#[derive(Debug, Clone, PartialEq, Eq)]
pub struct SparkPreferencesError {
    pub code: String,
    pub message: String,
}

impl SparkPreferencesError {
    /// An error with the given code and message.
    pub fn new(code: &str, message: &str) -> (r: SparkPreferencesError)
        ensures
            r.code@ == code@,
            r.message@ == message@,
    {
        SparkPreferencesError { code: code.to_owned(), message: message.to_owned() }
    }
}

fn invalid(message: &str) -> (r: SparkPreferencesError)
    ensures
        r.code@ == "invalid_spark_preferences"@,
        r.message@ == message@,
{
    SparkPreferencesError::new("invalid_spark_preferences", message)
}

/// A character that a provider id may hold: a lowercase ASCII letter, a digit or `-`.
pub open spec fn is_provider_char(c: char) -> bool {
    ('a' <= c && c <= 'z') || ('0' <= c && c <= '9') || c == '-'
}

/// A provider id is 1 to 64 lowercase ASCII letters, digits and `-`.
pub open spec fn is_valid_provider(s: Seq<char>) -> bool {
    &&& 1 <= s.len() <= 64
    &&& forall|i: int| 0 <= i < s.len() ==> #[trigger] is_provider_char(s[i])
}

fn valid_provider(provider_id: &str) -> (r: bool)
    ensures
        r == is_valid_provider(provider_id@),
        r == (1 <= provider_id@.len() <= 64 && forall|i: int|
            0 <= i < provider_id@.len() ==> {
                let c = #[trigger] provider_id@[i];
                ('a' <= c && c <= 'z') || ('0' <= c && c <= '9') || c == '-'
            }),
{
    proof { law_provider_ids_are_lowercase_letters_digits_and_dashes(provider_id@, Seq::empty()); }
    let v = chars_of(provider_id);
    if v.len() < 1 || v.len() > 64 {
        return false;
    }
    let mut i: usize = 0;
    while i < v.len()
        invariant
            v@ == provider_id@,
            i <= v.len(),
            forall|j: int| 0 <= j < i ==> #[trigger] is_provider_char(v@[j]),
        decreases v.len() - i,
    {
        let c = v[i];
        if !(('a' <= c && c <= 'z') || ('0' <= c && c <= '9') || c == '-') {
            assert(!is_provider_char(v@[i as int]));
            return false;
        }
        i = i + 1;
    }
    true
}

/// Whether a scheme is `http` or `https`.
pub open spec fn is_web_scheme(s: Seq<char>) -> bool {
    s == "http"@ || s == "https"@
}

/// Why stored or submitted preferences are refused, in the order the checks are made, or
/// `None` when they are accepted. `temperature_in_range` says whether the temperature is a
/// finite number from 0 to 2.
pub open spec fn preferences_problem(
    provider_id: Seq<char>,
    model: Seq<char>,
    temperature_in_range: bool,
    base_url: Seq<char>,
) -> Option<Seq<char>> {
    if !is_valid_provider(provider_id) || utf8_len(model) > 256 {
        Some("invalid provider id or model length"@)
    } else if !temperature_in_range {
        Some("temperature must be between 0 and 2"@)
    } else if utf8_len(base_url) > 2048 {
        Some("provider URL is too long"@)
    } else if base_url.len() == 0 {
        None
    } else {
        match url_parse(base_url) {
            Err(e) => Some(e),
            Ok((_, scheme, username, has_password)) => if !is_web_scheme(scheme) {
                Some("provider URL must use HTTP or HTTPS"@)
            } else if username.len() > 0 || has_password {
                Some("provider URL must not contain credentials"@)
            } else {
                None
            },
        }
    }
}

/// Validates Spark preferences: the provider id, the model's length, the temperature, and the
/// provider URL, which when given must be an HTTP or HTTPS URL without credentials.
pub fn validate_preferences(
    provider_id: &str,
    model: &str,
    temperature_in_range: bool,
    base_url: &str,
) -> (r: Result<(), SparkPreferencesError>)
    ensures
        r is Ok && temperature_in_range ==> 1 <= provider_id@.len() <= 64 && forall|i: int|
            0 <= i < provider_id@.len() ==> {
                let c = #[trigger] provider_id@[i];
                ('a' <= c && c <= 'z') || ('0' <= c && c <= '9') || c == '-'
            },
        temperature_in_range && base_url@.len() == 0 && utf8_len(model@) <= 256 && 1
            <= provider_id@.len() <= 64 && (forall|i: int|
            0 <= i < provider_id@.len() ==> {
                let c = #[trigger] provider_id@[i];
                ('a' <= c && c <= 'z') || ('0' <= c && c <= '9') || c == '-'
            }) ==> r is Ok,
        match preferences_problem(provider_id@, model@, temperature_in_range, base_url@) {
            None => r is Ok,
            Some(m) => r matches Err(e) && e.code@ == "invalid_spark_preferences"@ && e.message@
                == m,
        },
{
    proof { law_provider_ids_are_lowercase_letters_digits_and_dashes(provider_id@, model@); }
    if !valid_provider(provider_id) || model.len() > 256 {
        return Err(invalid("invalid provider id or model length"));
    }
    if !temperature_in_range {
        return Err(invalid("temperature must be between 0 and 2"));
    }
    if base_url.len() > 2048 {
        return Err(invalid("provider URL is too long"));
    }
    if !base_url.is_empty() {
        let url = match parse_url(base_url) {
            Ok(u) => u,
            Err(e) => {
                return Err(invalid(e.as_str()));
            },
        };
        if !(str_eq(url.scheme.as_str(), "http") || str_eq(url.scheme.as_str(), "https")) {
            return Err(invalid("provider URL must use HTTP or HTTPS"));
        }
        if !url.username.as_str().is_empty() || url.has_password {
            return Err(invalid("provider URL must not contain credentials"));
        }
    }
    Ok(())
}

/// Only schema version 1 is read; any other version is refused, never reinterpreted.
pub fn check_preferences_schema(schema_version: u32) -> (r: Result<(), SparkPreferencesError>)
    ensures
        r is Ok <==> schema_version == 1,
        r matches Err(e) ==> e.code@ == "unsupported_spark_preferences_schema"@ && e.message@
            == "unsupported Spark preferences schema version: "@ + decimal_text(
            schema_version as nat,
        ),
{
    if schema_version != 1 {
        let number = format_u32(schema_version);
        let message = concat("unsupported Spark preferences schema version: ", number.as_str());
        Err(SparkPreferencesError::new("unsupported_spark_preferences_schema", message.as_str()))
    } else {
        Ok(())
    }
}

/// A storage failure of the preferences store.
pub fn storage_failed(message: &str) -> (r: SparkPreferencesError)
    ensures
        r.code@ == "spark_preferences_storage_failed"@,
        r.message@ == message@,
{
    SparkPreferencesError::new("spark_preferences_storage_failed", message)
}

/// Checks what is known of the opened preferences file before reading it: a regular file of
/// at most 64 KiB.
pub fn check_preferences_metadata(is_file: bool, len: u64) -> (r: Result<(), SparkPreferencesError>)
    ensures
        r is Ok <==> is_file && len <= MAX_PREFERENCES_BYTES,
        !is_file ==> (r matches Err(e) && e.code@ == "invalid_spark_preferences"@ && e.message@
            == "Spark preferences must be a regular file"@),
        is_file && len > MAX_PREFERENCES_BYTES ==> (r matches Err(e) && e.code@
            == "invalid_spark_preferences"@ && e.message@ == "Spark preferences exceed 64 KiB"@),
{
    if !is_file {
        return Err(invalid("Spark preferences must be a regular file"));
    }
    if len > MAX_PREFERENCES_BYTES {
        return Err(invalid("Spark preferences exceed 64 KiB"));
    }
    Ok(())
}

/// Checks the number of bytes actually read from the preferences file.
pub fn check_preferences_read(len: usize) -> (r: Result<(), SparkPreferencesError>)
    ensures
        r is Ok <==> len <= MAX_PREFERENCES_BYTES,
        r matches Err(e) ==> e.code@ == "invalid_spark_preferences"@ && e.message@
            == "Spark preferences exceed 64 KiB"@,
{
    if len as u64 > MAX_PREFERENCES_BYTES {
        Err(invalid("Spark preferences exceed 64 KiB"))
    } else {
        Ok(())
    }
}

/// What a failure to open the preferences file means: no file means no stored preferences.
pub fn preferences_open_failure<T>(not_found: bool, message: &str) -> (r: Result<Option<T>, SparkPreferencesError>)
    ensures
        not_found ==> (r matches Ok(None)),
        !not_found ==> (r matches Err(e) && e.code@ == "spark_preferences_storage_failed"@
            && e.message@ == message@),
{
    if not_found {
        Ok(None)
    } else {
        Err(storage_failed(message))
    }
}

/// The outcome of one attempt to take the preferences lock.
#[derive(Debug, Clone, PartialEq, Eq)]
pub enum LockAttempt {
    Acquired,
    WouldBlock,
    Failed(String),
}

/// What to do after an attempt to take the preferences lock.
#[derive(Debug, Clone, PartialEq, Eq)]
pub enum LockStep {
    /// The lock is held.
    Locked,
    /// Wait the retry interval and try again.
    Retry,
    /// Give up with this error.
    GiveUp(SparkPreferencesError),
}

/// Decides the next step of taking the preferences lock: retry only while the lock is held
/// elsewhere and the deadline has not passed.
pub fn lock_step(attempt: LockAttempt, before_deadline: bool) -> (r: LockStep)
    ensures
        attempt == LockAttempt::Acquired ==> r == LockStep::Locked,
        attempt == LockAttempt::WouldBlock && before_deadline ==> r == LockStep::Retry,
        attempt == LockAttempt::WouldBlock && !before_deadline ==> (r matches LockStep::GiveUp(e)
            && e.code@ == "spark_preferences_lock_timeout"@ && e.message@
            == "timed out waiting for Spark preferences lock"@),
        attempt matches LockAttempt::Failed(m) ==> (r matches LockStep::GiveUp(e) && e.code@
            == "spark_preferences_storage_failed"@ && e.message@ == m@),
{
    match attempt {
        LockAttempt::Acquired => LockStep::Locked,
        LockAttempt::WouldBlock => if before_deadline {
            LockStep::Retry
        } else {
            LockStep::GiveUp(
                SparkPreferencesError::new(
                    "spark_preferences_lock_timeout",
                    "timed out waiting for Spark preferences lock",
                ),
            )
        },
        LockAttempt::Failed(m) => LockStep::GiveUp(storage_failed(m.as_str())),
    }
}

/// Combines the outcome of a load with the outcome of releasing the lock: the load's error
/// wins, then the unlock's.
pub fn finish_load<T>(result: Result<T, SparkPreferencesError>, unlock: Result<(), String>) -> (r: Result<T, SparkPreferencesError>)
    ensures
        result is Err ==> r == result,
        result is Ok && unlock is Ok ==> r == result,
        result is Ok ==> (unlock matches Err(m) ==> (r matches Err(e) && e.code@
            == "spark_preferences_storage_failed"@ && e.message@ == m@)),
{
    match result {
        Err(e) => Err(e),
        Ok(v) => match unlock {
            Ok(()) => Ok(v),
            Err(m) => Err(storage_failed(m.as_str())),
        },
    }
}

/// A provider id is accepted exactly when it holds 1 to 64 characters, each a lowercase ASCII
/// letter, an ASCII digit or `-`: with a model of at most 256 bytes, a temperature in range and
/// no provider URL, such preferences are valid, and any other provider id is refused.
pub proof fn law_provider_ids_are_lowercase_letters_digits_and_dashes(
    provider_id: Seq<char>,
    model: Seq<char>,
)
    ensures
        is_valid_provider(provider_id) <==> {
            &&& 1 <= provider_id.len() <= 64
            &&& forall|i: int|
                0 <= i < provider_id.len() ==> {
                    let c = #[trigger] provider_id[i];
                    ('a' <= c && c <= 'z') || ('0' <= c && c <= '9') || c == '-'
                }
        },
        utf8_len(model) <= 256 ==> (preferences_problem(provider_id, model, true, Seq::empty()) is None
            <==> is_valid_provider(provider_id)),
{
    if is_valid_provider(provider_id) {
        assert forall|i: int| 0 <= i < provider_id.len() implies {
            let c = #[trigger] provider_id[i];
            ('a' <= c && c <= 'z') || ('0' <= c && c <= '9') || c == '-'
        } by {
            assert(is_provider_char(provider_id[i]));
        }
    }
    if 1 <= provider_id.len() <= 64 && forall|i: int|
        0 <= i < provider_id.len() ==> {
            let c = #[trigger] provider_id[i];
            ('a' <= c && c <= 'z') || ('0' <= c && c <= '9') || c == '-'
        } {
        assert forall|i: int| 0 <= i < provider_id.len() implies #[trigger] is_provider_char(
            provider_id[i],
        ) by {
            let c = provider_id[i];
            assert(('a' <= c && c <= 'z') || ('0' <= c && c <= '9') || c == '-');
        }
    }
}

} // verus!
