//! What the HTTP headers and the request path say about the broker and the topic.
use vstd::prelude::*;

use crate::broker_url::{normalized_url, parse_url_with_default, BrokerUrl};
use crate::error::Error;

verus! {

/// A user name and password, always given together.
#[derive(Clone, PartialEq, Eq, Debug)]
pub struct Credentials {
    pub username: String,
    pub password: String,
}

/// The broker to reach, and how to log in to it.
#[derive(Clone, PartialEq, Eq, Debug)]
pub struct ConnectInfo {
    pub broker: BrokerUrl,
    pub credentials: Option<Credentials>,
}

/// A topic name taken from the request path.
#[derive(Clone, PartialEq, Eq, Debug)]
pub struct Topic(pub String);

/// Credentials exist only where both halves were given; one half alone means none.
pub open spec fn credentials_spec(username: Option<Seq<char>>, password: Option<Seq<char>>) -> Option<(Seq<char>, Seq<char>)> {
    match (username, password) {
        (Some(u), Some(p)) => Some((u, p)),
        _ => None,
    }
}

/// The credentials as a pair of texts.
pub open spec fn credentials_view(c: Option<Credentials>) -> Option<(Seq<char>, Seq<char>)> {
    match c {
        Some(c) => Some((c.username@, c.password@)),
        None => None,
    }
}

pub open spec fn opt_str_view(s: Option<&str>) -> Option<Seq<char>> {
    match s {
        Some(s) => Some(s@),
        None => None,
    }
}

/// Pairs a user name with a password; either one missing gives no credentials.
pub fn credentials_from(username: Option<&str>, password: Option<&str>) -> (r: Option<Credentials>)
    ensures
        credentials_view(r) == credentials_spec(opt_str_view(username), opt_str_view(password)),
{
    match (username, password) {
        (Some(u), Some(p)) => Some(Credentials { username: u.to_owned(), password: p.to_owned() }),
        _ => None,
    }
}

/// The path with every leading `/` taken off.
pub open spec fn strip_leading_slashes(s: Seq<char>) -> Seq<char>
    decreases s.len(),
{
    if s.len() > 0 && s[0] == '/' {
        strip_leading_slashes(s.drop_first())
    } else {
        s
    }
}

impl ConnectInfo {
    /// Reads the broker address from the value of `X-Broker` and the credentials from
    /// `X-Username` and `X-Password`. A missing address is a header error; one that is
    /// not a URL, even with `tcp://` in front, is a broker URL error.
    pub fn from_headers(broker: Option<&str>, username: Option<&str>, password: Option<&str>) -> (r: Result<ConnectInfo, Error>)
        ensures
            broker is None ==> r == Err::<ConnectInfo, Error>(Error::Header),
            broker is Some ==> match normalized_url(broker->0@) {
                Err(_) => r == Err::<ConnectInfo, Error>(Error::BrokerUrl),
                Ok(u) => r is Ok && r->Ok_0.broker@ == u
                    && credentials_view(r->Ok_0.credentials) == credentials_spec(opt_str_view(username), opt_str_view(password)),
            },
    {
        let broker = match broker {
            Some(b) => b,
            None => return Err(Error::Header),
        };
        match parse_url_with_default(broker) {
            Ok(url) => Ok(ConnectInfo { broker: url, credentials: credentials_from(username, password) }),
            Err(_) => Err(Error::BrokerUrl),
        }
    }
}

impl Topic {
    /// The topic named by a request path: the path without its leading slashes. A path
    /// that names no topic is refused.
    pub fn from_path(path: &str) -> (r: Result<Topic, Error>)
        ensures
            match r {
                Ok(t) => t.0@ == strip_leading_slashes(path@) && t.0@.len() > 0,
                Err(e) => e == Error::Topic && strip_leading_slashes(path@).len() == 0,
            },
    {
        let n = path.unicode_len();
        let mut i: usize = 0;
        assert(path@.skip(0) =~= path@);
        while i < n && path.get_char(i) == '/'
            invariant
                n == path@.len(),
                i <= n,
                strip_leading_slashes(path@.skip(i as int)) == strip_leading_slashes(path@),
            decreases n - i,
        {
            assert(path@.skip(i as int).drop_first() =~= path@.skip(i as int + 1));
            i = i + 1;
        }
        let rest = path.substring_char(i, n);
        assert(rest@ =~= path@.skip(i as int));
        if i == n {
            Err(Error::Topic)
        } else {
            Ok(Topic(rest.to_owned()))
        }
    }
}

} // verus!
