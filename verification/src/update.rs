//! The update check: whether the latest published release is newer than the running one,
//! and whether its page is the canonical release page of the Toolbox repository.
use vstd::prelude::*;

use crate::text::{concat, str_eq};
use crate::links::{parse_url, url_parse};

verus! {

/// The result of an update check.
#[derive(Debug, Clone, PartialEq, Eq)]
pub struct UpdateCheckResult {
    pub available: bool,
    pub current_version: String,
    pub latest_version: String,
    pub release_url: String,
}

/// What `semver::Version::parse` makes of a text: the version as it displays, or the
/// parse error's message.
pub uninterp spec fn semver_parse(text: Seq<char>) -> Result<Seq<char>, Seq<char>>;

/// Whether the version `a` has a higher precedence than the version `b`, by semver's `Ord`.
pub uninterp spec fn semver_newer(a: Seq<char>, b: Seq<char>) -> bool;

/// Parses `text` with `semver::Version::parse` and displays it. The contract claims only that
/// this is the semver crate's answer for this text.
#[verifier::external_body]
fn parse_version(text: &str) -> (r: Result<String, String>)
    ensures
        match r {
            Ok(v) => semver_parse(text@) == Ok::<Seq<char>, Seq<char>>(v@),
            Err(e) => semver_parse(text@) == Err::<Seq<char>, Seq<char>>(e@),
        },
{
    semver::Version::parse(text).map(|v| v.to_string()).map_err(|error| error.to_string())
}

/// Compares two version texts that parse, with `>` on `semver::Version`.
#[verifier::external_body]
fn version_newer(a: &str, b: &str) -> (r: bool)
    requires
        semver_parse(a@) is Ok,
        semver_parse(b@) is Ok,
    ensures
        r == semver_newer(a@, b@),
{
    match (semver::Version::parse(a), semver::Version::parse(b)) {
        (Ok(x), Ok(y)) => x > y,
        _ => false,
    }
}

/// The release tag without its leading `v`, if it has one.
pub open spec fn tag_version(tag: Seq<char>) -> Seq<char> {
    if tag.len() > 0 && tag[0] == 'v' {
        tag.skip(1)
    } else {
        tag
    }
}

/// The canonical page of the release `tag`.
pub open spec fn canonical_release_url(tag: Seq<char>) -> Seq<char> {
    "https://github.com/bro-know-my-org/BroKnowMyToolbox/releases/tag/"@ + tag
}

/// The message for a release page that is not the canonical one.
pub open spec fn untrusted_url_message() -> Seq<char> {
    "release URL must use HTTPS on github.com for the canonical Toolbox repository and release tag"@
}

/// What an update check answers for the running version and the latest release's tag and page.
pub open spec fn release_evaluation(current: Seq<char>, tag: Seq<char>, html_url: Seq<char>) -> Result<
    (bool, Seq<char>, Seq<char>, Seq<char>),
    Seq<char>,
> {
    match semver_parse(current) {
        Err(e) => Err("invalid current version: "@ + e),
        Ok(c) => match semver_parse(tag_version(tag)) {
            Err(e) => Err("invalid release version: "@ + e),
            Ok(l) => match url_parse(html_url) {
                Err(e) => Err("invalid release URL: "@ + e),
                Ok((s, _, _, _)) => if s != canonical_release_url(tag) {
                    Err(untrusted_url_message())
                } else {
                    Ok((semver_newer(tag_version(tag), current), c, l, s))
                },
            },
        },
    }
}

/// An update check result as plain values.
pub open spec fn update_view(u: UpdateCheckResult) -> (bool, Seq<char>, Seq<char>, Seq<char>) {
    (u.available, u.current_version@, u.latest_version@, u.release_url@)
}

/// Checks the running version before the release service is asked.
pub fn check_current_version(current_version: &str) -> (r: Result<(), String>)
    ensures
        r is Ok <==> semver_parse(current_version@) is Ok,
        r matches Err(m) ==> semver_parse(current_version@) matches Err(e) && m@
            == "invalid current version: "@ + e,
{
    match parse_version(current_version) {
        Ok(_) => Ok(()),
        Err(e) => Err(concat("invalid current version: ", e.as_str())),
    }
}

/// Decides an update check from the running version and the latest release's tag and page.
pub fn evaluate_release(current_version: &str, tag_name: &str, html_url: &str) -> (r: Result<
    UpdateCheckResult,
    String,
>)
    ensures
        match release_evaluation(current_version@, tag_name@, html_url@) {
            Ok(v) => r matches Ok(u) && update_view(u) == v,
            Err(m) => r matches Err(e) && e@ == m,
        },
{
    let current = match parse_version(current_version) {
        Ok(v) => v,
        Err(e) => {
            return Err(concat("invalid current version: ", e.as_str()));
        },
    };
    let n = tag_name.unicode_len();
    let latest_text = if n > 0 && tag_name.get_char(0) == 'v' {
        tag_name.substring_char(1, n)
    } else {
        tag_name
    };
    assert(latest_text@ =~= tag_version(tag_name@));
    let latest = match parse_version(latest_text) {
        Ok(v) => v,
        Err(e) => {
            return Err(concat("invalid release version: ", e.as_str()));
        },
    };
    let release_url = match parse_url(html_url) {
        Ok(u) => u,
        Err(e) => {
            return Err(concat("invalid release URL: ", e.as_str()));
        },
    };
    let expected = concat(
        "https://github.com/bro-know-my-org/BroKnowMyToolbox/releases/tag/",
        tag_name,
    );
    if !str_eq(release_url.serialization.as_str(), expected.as_str()) {
        return Err(
            "release URL must use HTTPS on github.com for the canonical Toolbox repository and release tag".to_owned(),
        );
    }
    let available = version_newer(latest_text, current_version);
    Ok(
        UpdateCheckResult {
            available,
            current_version: current,
            latest_version: latest,
            release_url: release_url.serialization,
        },
    )
}

} // verus!

verus! {

/// An update check that succeeds always points at the canonical release page of its tag, and
/// offers the release exactly when its version is newer than the running one.
pub proof fn law_accepted_release_is_canonical(current: Seq<char>, tag: Seq<char>, html_url: Seq<char>)
    ensures
        release_evaluation(current, tag, html_url) matches Ok((available, c, l, url)) ==> {
            &&& url == canonical_release_url(tag)
            &&& available == semver_newer(tag_version(tag), current)
            &&& semver_parse(current) == Ok::<Seq<char>, Seq<char>>(c)
            &&& semver_parse(tag_version(tag)) == Ok::<Seq<char>, Seq<char>>(l)
        },
{
}

} // verus!
