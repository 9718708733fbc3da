//! Broker addresses: a URL, with `tcp://` assumed where the input names a bare host.
use vstd::prelude::*;

verus! {

/// Why an input is not a URL: it is a reference without a scheme, which may be read
/// as a bare host, or it is malformed in some other way.
#[derive(Clone, Copy, PartialEq, Eq, Debug, Structural)]
pub enum UrlError {
    RelativeWithoutBase,
    Invalid,
}

/// What URL parsing makes of a text: the serialization of the parsed URL, or why it
/// is not one. It depends on the text alone.
pub uninterp spec fn url_parse_of(input: Seq<char>) -> Result<Seq<char>, UrlError>;

/// Relies on `url::Url::parse`: a result that is a function of the input, kept as the
/// URL's serialization (two URLs are equal exactly when their serializations are), or
/// as whether the error was `ParseError::RelativeUrlWithoutBase`.
#[verifier::external_body]
fn parse_url(input: &str) -> (r: Result<String, UrlError>)
    ensures
        match r {
            Ok(s) => url_parse_of(input@) == Ok::<Seq<char>, UrlError>(s@),
            Err(e) => url_parse_of(input@) == Err::<Seq<char>, UrlError>(e),
        },
{
    match url::Url::parse(input) {
        Ok(url) => Ok(String::from(url)),
        Err(url::ParseError::RelativeUrlWithoutBase) => Err(UrlError::RelativeWithoutBase),
        Err(_) => Err(UrlError::Invalid),
    }
}

/// The scheme put in front of a bare host.
pub open spec fn default_scheme() -> Seq<char> {
    "tcp://"@
}

/// A broker address as the gateway reads it: an input with a scheme is parsed as it
/// stands; an input without one is parsed again with `tcp://` in front.
pub open spec fn normalized_url(input: Seq<char>) -> Result<Seq<char>, UrlError> {
    match url_parse_of(input) {
        Err(UrlError::RelativeWithoutBase) => url_parse_of(default_scheme() + input),
        other => other,
    }
}

/// A parsed broker URL, held as its serialization.
#[derive(Clone, PartialEq, Eq, Debug)]
pub struct BrokerUrl {
    serialization: String,
}

impl View for BrokerUrl {
    type V = Seq<char>;

    closed spec fn view(&self) -> Seq<char> {
        self.serialization@
    }
}

impl BrokerUrl {
    /// The URL's serialization.
    pub fn as_str(&self) -> (r: &str)
        ensures
            r@ == self@,
    {
        self.serialization.as_str()
    }
}

/// Parses a broker address, assuming `tcp://` where the input has no scheme.
pub fn parse_url_with_default(input: &str) -> (r: Result<BrokerUrl, UrlError>)
    ensures
        match r {
            Ok(u) => normalized_url(input@) == Ok::<Seq<char>, UrlError>(u@),
            Err(e) => normalized_url(input@) == Err::<Seq<char>, UrlError>(e),
        },
{
    match parse_url(input) {
        Ok(s) => Ok(BrokerUrl { serialization: s }),
        Err(UrlError::RelativeWithoutBase) => {
            let mut with_scheme = String::from_str("tcp://");
            with_scheme.append(input);
            match parse_url(with_scheme.as_str()) {
                Ok(s) => Ok(BrokerUrl { serialization: s }),
                Err(e) => Err(e),
            }
        },
        Err(e) => Err(e),
    }
}

/// An address without a scheme is read as the URL `tcp://` followed by it; an address
/// that parses as a URL on its own is kept exactly as parsed.
pub proof fn lemma_default_scheme(input: Seq<char>)
    ensures
        url_parse_of(input) == Err::<Seq<char>, UrlError>(UrlError::RelativeWithoutBase)
            ==> normalized_url(input) == url_parse_of("tcp://"@ + input),
        url_parse_of(input) is Ok ==> normalized_url(input) == url_parse_of(input),
{
}

} // verus!
