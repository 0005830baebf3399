use vstd::prelude::*;

verus! {

/// The error type of `url::Url::parse`.
#[verifier::external_type_specification]
#[verifier::external_body]
pub struct ExUrlParseError(url::ParseError);

/// What `url::Url::parse` makes of `input`: the serialization of the parsed
/// absolute URL, or `None` where the input is refused.
pub uninterp spec fn url_parse(input: Seq<char>) -> Option<Seq<char>>;

/// `url::Url::parse` on `input`, handing back the parsed URL's serialization
/// (`Url::as_str`).
/// Trusted: success and the serialization are those named by `url_parse` for
/// the input text; the parser depends on nothing but its input.
#[verifier::external_body]
pub(crate) fn parse_url(input: &str) -> (parsed: Result<String, url::ParseError>)
    ensures
        match parsed {
            Ok(text) => url_parse(input@) == Some(text@),
            Err(_) => url_parse(input@) is None,
        },
{
    match url::Url::parse(input) {
        Ok(parsed) => Ok(String::from(parsed)),
        Err(error) => Err(error),
    }
}

} // verus!
