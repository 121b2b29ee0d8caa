use vstd::prelude::*;

verus! {

/// What URL parsing returns for a given input: `Some` of the parsed URL's
/// serialization when the input is a well-formed absolute URL, `None`
/// otherwise.  Parsing is a function of the characters alone, so the result
/// has a name here rather than a definition.
pub uninterp spec fn url_parse(s: Seq<char>) -> Option<Seq<char>>;

/// Relies on `url::Url::parse` to decide whether `text` is a well-formed
/// absolute URL, and on `url::Url::as_str` for the parsed URL's normalized
/// serialization.
#[verifier::external_body]
pub(crate) fn parse_absolute_url(text: &str) -> (r: Option<String>)
    ensures
        r is Some <==> url_parse(text@) is Some,
        r matches Some(u) ==> url_parse(text@) matches Some(n) && u@ == n,
{
    match url::Url::parse(text) {
        Ok(u) => Some(String::from(u.as_str())),
        Err(_) => None,
    }
}

} // verus!
