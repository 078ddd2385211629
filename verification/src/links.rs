//! URLs as the `url` crate parses them, reduced to the parts that the library checks.
use vstd::prelude::*;

verus! {

/// The parts of a parsed URL that the library reads.
#[derive(Debug, Clone, PartialEq, Eq)]
pub struct ParsedUrl {
    /// The URL's serialization, which is also what it displays as.
    pub serialization: String,
    pub scheme: String,
    pub username: String,
    pub has_password: bool,
}

/// What `url::Url::parse` makes of a text: serialization, scheme, username and whether a
/// password is present, or the parse error's message.
pub uninterp spec fn url_parse(text: Seq<char>) -> Result<(Seq<char>, Seq<char>, Seq<char>, bool), Seq<char>>;

/// The parts of a parsed URL as plain text.
pub open spec fn url_parts(u: ParsedUrl) -> (Seq<char>, Seq<char>, Seq<char>, bool) {
    (u.serialization@, u.scheme@, u.username@, u.has_password)
}

/// Parses `text` with `url::Url::parse` and reads its serialization (`as_str`), `scheme`,
/// `username` and whether `password` is present. The contract claims only that these are
/// the url crate's answers for this text.
#[verifier::external_body]
pub(crate) fn parse_url(text: &str) -> (r: Result<ParsedUrl, String>)
    ensures
        match r {
            Ok(u) => url_parse(text@) == Ok::<(Seq<char>, Seq<char>, Seq<char>, bool), Seq<char>>(url_parts(u)),
            Err(e) => url_parse(text@) == Err::<(Seq<char>, Seq<char>, Seq<char>, bool), Seq<char>>(e@),
        },
{
    match url::Url::parse(text) {
        Ok(u) => Ok(ParsedUrl {
            serialization: u.as_str().to_string(),
            scheme: u.scheme().to_string(),
            username: u.username().to_string(),
            has_password: u.password().is_some(),
        }),
        Err(error) => Err(error.to_string()),
    }
}

} // verus!
