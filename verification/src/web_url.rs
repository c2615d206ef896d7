use vstd::prelude::*;

verus! {

/// The serialisation of the absolute URL that `reqwest::Url::parse` makes of
/// `input`, or `None` where it refuses the input. URL parsing (WHATWG rules)
/// depends on the input alone.
pub uninterp spec fn parsed_url(input: Seq<char>) -> Option<Seq<char>>;

/// The serialisation of the URL that `reqwest::Url::join` makes of `reference`
/// resolved against the URL parsed from `base`, or `None` where parsing `base`
/// or resolving `reference` fails.
pub uninterp spec fn joined_url(base: Seq<char>, reference: Seq<char>) -> Option<Seq<char>>;

/// `reqwest::Url::parse`, its result handed back as the URL's serialisation.
#[verifier::external_body]
pub(crate) fn parse_url(input: &str) -> (r: Option<String>)
    ensures
        r.deep_view() == parsed_url(input@),
{
    match reqwest::Url::parse(input) {
        Ok(url) => Some(String::from(url)),
        Err(_) => None,
    }
}

/// `reqwest::Url::join` on the URL that `reqwest::Url::parse` makes of `base`,
/// the result handed back as its serialisation. Where `base` does not parse,
/// there is nothing to join to.
#[verifier::external_body]
pub(crate) fn join_url(base: &str, reference: &str) -> (r: Option<String>)
    ensures
        r.deep_view() == joined_url(base@, reference@),
        parsed_url(base@) is None ==> r is None,
{
    match reqwest::Url::parse(base) {
        Ok(url) => match url.join(reference) {
            Ok(joined) => Some(String::from(joined)),
            Err(_) => None,
        },
        Err(_) => None,
    }
}

} // verus!
