//! The command line's Spark Analyzer commands: report inputs and their decoding, report tool
//! names and arguments, and the AI credential.
use vstd::prelude::*;

use crate::errors::CliError;
use crate::templates::path_extension;
use crate::text::{
    chars_of, concat, decode_utf8, find_first, first_index_of, str_eq, trim, trim_seq, utf8_len,
};

verus! {

/// The largest report the command line reads, in bytes: 64 MiB.
pub const MAX_SPARK_REPORT_BYTES: u64 = 67108864;

/// The largest text report that bkmsa-core parses, in bytes: 16 MiB.
pub const MAX_TEXT_REPORT_BYTES: usize = 16777216;

#[verifier::external_type_specification]
#[verifier::external_body]
pub struct ExSparkReport(bkmsa_core::Report);

/// Checks what is known of an opened report before reading it: a regular file of at most 64 MiB.
pub fn check_report_metadata(is_regular: bool, len: u64, json: bool) -> (r: Result<(), CliError>)
    ensures
        r is Ok <==> is_regular && len <= MAX_SPARK_REPORT_BYTES,
        !is_regular ==> (r matches Err(e) && e.code@ == "invalid_report_source"@ && e.message@
            == "Spark report source must be a regular file"@),
        is_regular && len > MAX_SPARK_REPORT_BYTES ==> (r matches Err(e) && e.code@
            == "report_too_large"@ && e.message@ == "Spark report exceeds the 64 MiB input limit"@),
        r matches Err(e) ==> e.exit_code == 2 && e.json == json && e.details is None,
{
    if !is_regular {
        return Err(
            CliError::input("invalid_report_source", "Spark report source must be a regular file", json),
        );
    }
    if len > MAX_SPARK_REPORT_BYTES {
        return Err(
            CliError::input("report_too_large", "Spark report exceeds the 64 MiB input limit", json),
        );
    }
    Ok(())
}

/// The message of a text report that bkmsa-core refuses as too large.
pub open spec fn text_report_too_large_message() -> Seq<char> {
    "无法按 spark protobuf 解码: text report exceeds the 16 MiB limit"@
}

/// A decoded report, with the source name that it records.
#[derive(Debug)]
pub struct SparkReport {
    pub report: bkmsa_core::Report,
    pub source: String,
}

/// The report that `bkmsa_core::parse_text_report` makes of a text of at most 16 MiB and a
/// source name: a text report that holds the text, records the source name, and summarises
/// the text.
pub uninterp spec fn text_report(text: Seq<char>, source: Seq<char>) -> bkmsa_core::Report;

/// Parses a text report with `bkmsa_core::parse_text_report` and reads back the source name
/// that the report records. As its source shows, it refuses exactly the texts over 16 MiB,
/// with that message, and a report records the source name it was given. As its source also
/// shows, the report depends on the text and the source name alone, so it is named above.
#[verifier::external_body]
fn parse_text_report(text: String, source: String) -> (r: Result<(bkmsa_core::Report, String), String>)
    ensures
        r is Err <==> utf8_len(text@) > MAX_TEXT_REPORT_BYTES,
        r matches Err(m) ==> m@ == text_report_too_large_message(),
        r matches Ok((rep, s)) ==> rep == text_report(text@, source@) && s@ == source@,
{
    match bkmsa_core::parse_text_report(text, source) {
        Ok(report) => {
            let source = report.source.clone();
            Ok((report, source))
        },
        Err(error) => Err(error.to_string()),
    }
}

/// Whether `bkmsa_core::parse_report_bytes` decodes these bytes with this kind hint, and if
/// not, its error message.
pub uninterp spec fn report_bytes_problem(bytes: Seq<u8>, hint: Seq<char>) -> Option<Seq<char>>;

/// Decodes a spark report with `bkmsa_core::parse_report_bytes` and reads back the source
/// name that the report records. The contract claims that success, or the error message, is
/// bkmsa-core's answer for these bytes and this hint, and, as its source shows, that a report
/// records the source name it was given.
#[verifier::external_body]
fn parse_report_bytes(bytes: &Vec<u8>, source: String, hint: &str) -> (r: Result<(bkmsa_core::Report, String), String>)
    ensures
        match r {
            Ok((_, s)) => report_bytes_problem(bytes@, hint@) is None && s@ == source@,
            Err(m) => report_bytes_problem(bytes@, hint@) == Some(m@),
        },
{
    match bkmsa_core::parse_report_bytes(bytes, source, hint) {
        Ok(report) => {
            let source = report.source.clone();
            Ok((report, source))
        },
        Err(error) => Err(error.to_string()),
    }
}

/// The format hint of a report file: its extension, or nothing.
pub fn report_hint(file_name: &str) -> (r: String)
    ensures
        match path_extension(file_name@) {
            Some(e) => r@ == e,
            None => r@.len() == 0,
        },
{
    let (_, ext) = crate::templates::split_file_name(file_name);
    match ext {
        Some(e) => e,
        None => String::new(),
    }
}

/// Decodes the bytes read from a report: UTF-8 text when `text` is set, spark protobuf
/// otherwise, after checking them against the 64 MiB input limit.
pub fn decode_report(bytes: Vec<u8>, text: bool, source_name: String, hint: &str, json: bool) -> (r: Result<
    SparkReport,
    CliError,
>)
    ensures
        r matches Ok(rep) ==> rep.source@ == source_name@,
        bytes@.len() <= MAX_SPARK_REPORT_BYTES && text && vstd::utf8::valid_utf8(bytes@) ==> (r matches Ok(
            rep,
        ) ==> rep.report == text_report(vstd::utf8::decode_utf8(bytes@), source_name@)),
        r matches Err(e) ==> e.exit_code == 2 && e.json == json && e.details is None,
        bytes@.len() > MAX_SPARK_REPORT_BYTES ==> (r matches Err(e) && e.code@
            == "report_too_large"@ && e.message@ == "Spark report exceeds the 64 MiB input limit"@),
        bytes@.len() <= MAX_SPARK_REPORT_BYTES && text ==> {
            &&& !vstd::utf8::valid_utf8(bytes@) ==> (r matches Err(e) && e.code@
                == "invalid_text_report"@ && e.message@ == crate::text::utf8_error_text(bytes@))
            &&& vstd::utf8::valid_utf8(bytes@) ==> (r is Ok <==> utf8_len(
                vstd::utf8::decode_utf8(bytes@),
            ) <= MAX_TEXT_REPORT_BYTES)
            &&& vstd::utf8::valid_utf8(bytes@) && utf8_len(vstd::utf8::decode_utf8(bytes@))
                > MAX_TEXT_REPORT_BYTES ==> (r matches Err(e) && e.code@ == "report_decode_failed"@
                && e.message@ == text_report_too_large_message())
        },
        bytes@.len() <= MAX_SPARK_REPORT_BYTES && !text ==> match report_bytes_problem(
            bytes@,
            hint@,
        ) {
            None => r is Ok,
            Some(m) => r matches Err(e) && e.code@ == "report_decode_failed"@ && e.message@ == m,
        },
{
    if bytes.len() as u64 > MAX_SPARK_REPORT_BYTES {
        return Err(
            CliError::input("report_too_large", "Spark report exceeds the 64 MiB input limit", json),
        );
    }
    if text {
        let content = match decode_utf8(bytes) {
            Ok(s) => s,
            Err(m) => {
                return Err(CliError::input("invalid_text_report", m.as_str(), json));
            },
        };
        match parse_text_report(content, source_name) {
            Ok((report, source)) => Ok(SparkReport { report, source }),
            Err(m) => Err(CliError::input("report_decode_failed", m.as_str(), json)),
        }
    } else {
        match parse_report_bytes(&bytes, source_name, hint) {
            Ok((report, source)) => Ok(SparkReport { report, source }),
            Err(m) => Err(CliError::input("report_decode_failed", m.as_str(), json)),
        }
    }
}

/// A report tool name with every `-` written as `_`.
pub open spec fn tool_name_text(s: Seq<char>) -> Seq<char> {
    Seq::new(s.len(), |i: int| if s[i] == '-' { '_' } else { s[i] })
}

/// Normalises a report tool name: `hot-paths` names the tool `hot_paths`.
pub fn normalize_tool_name(tool: &str) -> (r: String)
    ensures
        r@ == tool_name_text(tool@),
{
    let v = chars_of(tool);
    let n = v.len();
    let mut r = String::new();
    let mut i: usize = 0;
    while i < n
        invariant
            v@ == tool@,
            n == v@.len(),
            i <= n,
            r@ == tool_name_text(tool@).take(i as int),
        decreases n - i,
    {
        let piece = if v[i] == '-' {
            proof { reveal_strlit("_"); }
            "_"
        } else {
            tool.substring_char(i, i + 1)
        };
        assert(piece@ =~= seq![tool_name_text(tool@)[i as int]]);
        let ghost before = r@;
        r.append(piece);
        assert(r@ =~= tool_name_text(tool@).take(i + 1));
        i = i + 1;
    }
    assert(r@ =~= tool_name_text(tool@));
    r
}

/// An environment value that holds a credential: present and not blank.
pub open spec fn usable_key(o: Option<String>) -> bool {
    match o {
        Some(p) => trim_seq(p@).len() > 0,
        None => false,
    }
}

/// Chooses the AI credential: the first of the two environment values that is not blank.
pub fn select_api_key(primary: Option<String>, fallback: Option<String>, json: bool) -> (r: Result<
    String,
    CliError,
>)
    ensures
        r matches Ok(k) ==> trim_seq(k@).len() > 0,
        usable_key(primary) ==> (r matches Ok(k) && k@ == primary->0@),
        !usable_key(primary) && usable_key(fallback) ==> (r matches Ok(k) && k@ == fallback->0@),
        !usable_key(primary) && !usable_key(fallback) ==> (r matches Err(e) && e.code@
            == "missing_ai_credential"@ && e.message@
            == "BKMT_SPARK_API_KEY or BKMSA_API_KEY is required for Spark AI analysis"@
            && e.exit_code == 2 && e.json == json),
{
    if let Some(p) = primary {
        if trim(p.as_str()).as_str().unicode_len() > 0 {
            return Ok(p);
        }
    }
    if let Some(f) = fallback {
        if trim(f.as_str()).as_str().unicode_len() > 0 {
            return Ok(f);
        }
    }
    Err(
        CliError::input(
            "missing_ai_credential",
            "BKMT_SPARK_API_KEY or BKMSA_API_KEY is required for Spark AI analysis",
            json,
        ),
    )
}

} // verus!

verus! {

/// One `--arg KEY=VALUE` read so far: the trimmed key and the raw value.
struct ToolArgument {
    key: String,
    value: String,
}

/// The text before the first `=` of a `KEY=VALUE` pair.
pub open spec fn pair_key(p: Seq<char>) -> Seq<char> {
    p.take(first_index_of(p, '='))
}

/// The text after the first `=` of a `KEY=VALUE` pair.
pub open spec fn pair_value(p: Seq<char>) -> Seq<char> {
    p.skip(first_index_of(p, '=') + 1)
}

/// Why the `i`-th `--arg` is refused, given the ones before it: it has no `=`, or its trimmed
/// key is empty or repeats an earlier key.
pub open spec fn pair_problem(pairs: Seq<String>, i: int) -> Option<Seq<char>> {
    let p = pairs[i]@;
    if first_index_of(p, '=') < 0 {
        Some("invalid --arg '"@ + p + "'; expected KEY=VALUE"@)
    } else if trim_seq(pair_key(p)).len() == 0 || exists|j: int|
        #![trigger pairs[j]]
        0 <= j < i && trim_seq(pair_key(pairs[j]@)) == trim_seq(pair_key(p)) {
        Some("invalid or duplicate tool argument: "@ + pair_key(p))
    } else {
        None
    }
}

/// Every `--arg` is accepted.
pub open spec fn pairs_accepted(pairs: Seq<String>) -> bool {
    forall|i: int| 0 <= i < pairs.len() ==> #[trigger] pair_problem(pairs, i) is None
}

/// The `i`-th tool argument was read from the `i`-th pair.
spec fn argument_from_pair(a: ToolArgument, p: Seq<char>) -> bool {
    &&& a.key@ == trim_seq(pair_key(p))
    &&& a.value@ == pair_value(p)
}

fn contains_key(args: &Vec<ToolArgument>, key: &str) -> (r: bool)
    ensures
        r == exists|j: int| 0 <= j < args@.len() && #[trigger] args@[j].key@ == key@,
{
    let mut i: usize = 0;
    while i < args.len()
        invariant
            i <= args.len(),
            forall|j: int| 0 <= j < i ==> #[trigger] args@[j].key@ != key@,
        decreases args.len() - i,
    {
        if str_eq(args[i].key.as_str(), key) {
            return true;
        }
        i = i + 1;
    }
    false
}

fn invalid_tool_args(message: &str, json_output: bool) -> (r: CliError)
    ensures
        r.code@ == "invalid_tool_args"@,
        r.message@ == message@,
        r.exit_code == 2,
        r.json == json_output,
        r.details is None,
{
    CliError::input("invalid_tool_args", message, json_output)
}

/// The JSON value handed to a report tool for the `--arg` value `raw`: the value that `raw`
/// reads as, when it is JSON, and otherwise the string `raw` itself.
pub open spec fn argument_value(raw: Seq<char>) -> serde_json::Value {
    match crate::json::json_parse(raw) {
        Ok((v, _)) => v,
        Err(_) => crate::json::json_string_value(raw),
    }
}

/// The member that the `--arg` pair `p` adds to the argument object.
pub open spec fn pair_member(p: Seq<char>) -> (Seq<char>, serde_json::Value) {
    (trim_seq(pair_key(p)), argument_value(pair_value(p)))
}

/// The argument object made of accepted `--arg` pairs, one member per pair.
pub open spec fn pairs_object(pairs: Seq<String>) -> serde_json::Value {
    crate::json::json_object_value(Seq::new(pairs.len(), |i: int| pair_member(pairs[i]@)))
}

/// Reads the arguments of a report tool: `--args` must be a JSON object and is handed on as
/// read; otherwise each `--arg` must be `KEY=VALUE` with a non-blank key that no earlier
/// `--arg` used, and the object holds the trimmed keys with their values read as JSON where
/// they are JSON and as strings otherwise.
pub fn tool_arguments(complete: Option<&str>, pairs: &Vec<String>, json_output: bool) -> (r: Result<
    serde_json::Value,
    CliError,
>)
    ensures
        r matches Err(e) ==> e.code@ == "invalid_tool_args"@ && e.exit_code == 2 && e.json
            == json_output,
        match complete {
            Some(t) => match crate::json::json_parse(t@) {
                Err(m) => r matches Err(e) && e.message@ == m,
                Ok((v, is_object)) => if is_object {
                    r == Ok::<serde_json::Value, CliError>(v)
                } else {
                    r matches Err(e) && e.message@ == "--args must be a JSON object"@
                },
            },
            None => {
                &&& r is Ok <==> pairs_accepted(pairs@)
                &&& r matches Ok(v) ==> v == pairs_object(pairs@)
                &&& r matches Err(e) ==> exists|i: int|
                    0 <= i < pairs@.len() && #[trigger] pair_problem(pairs@, i) == Some(e.message@)
                        && forall|j: int| 0 <= j < i ==> pair_problem(pairs@, j) is None
            },
        },
{
    if let Some(text) = complete {
        return match crate::json::parse_json(text) {
            Err(m) => Err(invalid_tool_args(m.as_str(), json_output)),
            Ok((value, is_object)) => if is_object {
                Ok(value)
            } else {
                Err(invalid_tool_args("--args must be a JSON object", json_output))
            },
        };
    }
    let mut out: Vec<ToolArgument> = Vec::new();
    let mut members: Vec<(String, serde_json::Value)> = Vec::new();
    let mut i: usize = 0;
    while i < pairs.len()
        invariant
            complete is None,
            i <= pairs@.len(),
            out@.len() == i,
            members@.len() == i,
            forall|k: int| 0 <= k < i ==> #[trigger] pair_problem(pairs@, k) is None,
            forall|k: int| 0 <= k < i ==> argument_from_pair(#[trigger] out@[k], pairs@[k]@),
            forall|k: int|
                0 <= k < i ==> (#[trigger] members@[k]).0@ == pair_member(pairs@[k]@).0
                    && members@[k].1 == pair_member(pairs@[k]@).1,
        decreases pairs@.len() - i,
    {
        let pair = pairs[i].as_str();
        let v = chars_of(pair);
        proof { crate::text::lemma_first_index_of(v@, '='); }
        let e = match find_first(&v, '=') {
            None => {
                let a = concat("invalid --arg '", pair);
                let m = concat(a.as_str(), "'; expected KEY=VALUE");
                assert(pair_problem(pairs@, i as int) == Some(m@));
                return Err(invalid_tool_args(m.as_str(), json_output));
            },
            Some(e) => e,
        };
        assert(e < v.len());
        let raw_key = pair.substring_char(0, e);
        let raw = pair.substring_char(e + 1, v.len());
        assert(raw_key@ =~= pair_key(pair@));
        assert(raw@ =~= pair_value(pair@));
        let key = trim(raw_key);
        let blank = key.as_str().unicode_len() == 0;
        let duplicate = contains_key(&out, key.as_str());
        proof {
            if duplicate {
                let j = choose|j: int| 0 <= j < out@.len() && #[trigger] out@[j].key@ == key@;
                assert(argument_from_pair(out@[j], pairs@[j]@));
                assert(0 <= j < i && trim_seq(pair_key(pairs@[j]@)) == trim_seq(pair_key(pair@)));
            } else {
                assert forall|j: int|
                    #![trigger pairs@[j]]
                    0 <= j < i implies trim_seq(pair_key(pairs@[j]@)) != trim_seq(pair_key(pair@)) by {
                    assert(argument_from_pair(out@[j], pairs@[j]@));
                    assert(out@[j].key@ != key@);
                }
            }
        }
        if blank || duplicate {
            let m = concat("invalid or duplicate tool argument: ", raw_key);
            assert(pair_problem(pairs@, i as int) == Some(m@));
            return Err(invalid_tool_args(m.as_str(), json_output));
        }
        let value = match crate::json::parse_json(raw) {
            Ok((parsed, _)) => parsed,
            Err(_) => crate::json::string_value(raw.to_owned()),
        };
        members.push((key.clone(), value));
        out.push(ToolArgument { key, value: raw.to_owned() });
        i = i + 1;
    }
    let ghost expected = Seq::new(pairs@.len(), |k: int| pair_member(pairs@[k]@));
    assert(crate::json::members_view(members@) =~= expected);
    Ok(crate::json::object_value(members))
}

} // verus!

verus! {

/// Accepted `--arg` pairs have non-blank keys that are pairwise distinct after trimming.
pub proof fn law_accepted_arguments_have_distinct_keys(pairs: Seq<String>)
    requires
        pairs_accepted(pairs),
    ensures
        forall|i: int|
            0 <= i < pairs.len() ==> #[trigger] trim_seq(pair_key(pairs[i]@)).len() > 0,
        forall|i: int, j: int|
            0 <= i < j < pairs.len() ==> trim_seq(pair_key(#[trigger] pairs[i]@)) != trim_seq(
                pair_key(#[trigger] pairs[j]@),
            ),
{
    assert forall|i: int| 0 <= i < pairs.len() implies #[trigger] trim_seq(
        pair_key(pairs[i]@),
    ).len() > 0 by {
        assert(pair_problem(pairs, i) is None);
    }
    assert forall|i: int, j: int| 0 <= i < j < pairs.len() implies trim_seq(
        pair_key(#[trigger] pairs[i]@),
    ) != trim_seq(pair_key(#[trigger] pairs[j]@)) by {
        assert(pair_problem(pairs, j) is None);
    }
}

/// A normalised tool name holds no `-`, and normalising it again changes nothing.
pub proof fn law_tool_names_normalize_once(tool: Seq<char>)
    ensures
        !tool_name_text(tool).contains('-'),
        tool_name_text(tool_name_text(tool)) == tool_name_text(tool),
{
    assert(tool_name_text(tool_name_text(tool)) =~= tool_name_text(tool));
}

} // verus!

verus! {

/// Why `bkmsa_core::execute_tool` refuses to run the tool `tool` on the argument object
/// `arguments`, as its error message; `None` when it runs the tool.
pub uninterp spec fn report_tool_refusal(tool: Seq<char>, arguments: serde_json::Value) -> Option<Seq<char>>;

/// Runs a report tool with `bkmsa_core::execute_tool`. As bkmsa-core's source shows, whether
/// it refuses, and with which message, depends on the tool name and the argument object
/// alone (an unknown tool, a key the tool does not take, a `limit` or `maxItems` that is not a
/// positive integer, a `category` that is not a string, a `raw_field` without a path); the
/// contract says that this refusal is the one named above. What a tool that runs computes is
/// not stated: tools order items of equal weight as a `HashMap` walk gives them, which
/// changes from process to process. That a tool never panics is not claimed either.
#[verifier::external_body]
fn execute_report_tool(report: &bkmsa_core::Report, tool: &str, arguments: serde_json::Value) -> (r: Result<
    serde_json::Value,
    String,
>)
    ensures
        match r {
            Ok(_) => report_tool_refusal(tool@, arguments) is None,
            Err(m) => report_tool_refusal(tool@, arguments) == Some(m@),
        },
{
    bkmsa_core::execute_tool(report, tool, arguments).map_err(|error| error.to_string())
}

/// The answer of `bkmt spark tool` once the tool ran or refused: the tool's name and result,
/// or the input error `spark_tool_failed` with the tool's message.
pub fn tool_run_result(name: String, result: Result<serde_json::Value, String>, json: bool) -> (r: Result<
    (String, serde_json::Value),
    CliError,
>)
    ensures
        match result {
            Ok(v) => r matches Ok((n, w)) && n@ == name@ && w == v,
            Err(m) => r matches Err(e) && e.code@ == "spark_tool_failed"@ && e.message@ == m@
                && e.exit_code == 2 && e.json == json && e.details is None,
        },
{
    match result {
        Ok(value) => Ok((name, value)),
        Err(m) => Err(CliError::input("spark_tool_failed", m.as_str(), json)),
    }
}

/// Runs the report tool `tool`, with every `-` of its name written as `_`, on the report with
/// the given argument object: it returns the normalised name and the tool's result, or the
/// input error `spark_tool_failed` with bkmsa-core's refusal. The result value itself is not
/// stated (see `execute_report_tool`).
pub fn run_report_tool(report: &bkmsa_core::Report, tool: &str, arguments: serde_json::Value, json: bool) -> (r: Result<
    (String, serde_json::Value),
    CliError,
>)
    ensures
        match report_tool_refusal(tool_name_text(tool@), arguments) {
            None => r matches Ok((name, _)) && name@ == tool_name_text(tool@),
            Some(m) => r matches Err(e) && e.code@ == "spark_tool_failed"@ && e.message@ == m
                && e.exit_code == 2 && e.json == json && e.details is None,
        },
{
    let name = normalize_tool_name(tool);
    let result = execute_report_tool(report, name.as_str(), arguments);
    tool_run_result(name, result, json)
}

} // verus!
