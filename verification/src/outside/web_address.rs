//! Addresses of the crate `url`.

use crate::text::{opt_text, pair_texts};
use vstd::prelude::*;

verus! {

/// The parts of an address that the client reads.
pub struct UrlParts {
    /// The path, percent-encoded.
    pub path: String,
    /// The query, percent-encoded, without its question mark.
    pub query: Option<String>,
    /// The decoded names and values of the query, in order.
    pub pairs: Vec<(String, String)>,
}

impl UrlParts {
    /// The parts as plain values.
    pub open spec fn plain(&self) -> (Seq<char>, Option<Seq<char>>, Seq<(Seq<char>, Seq<char>)>) {
        (self.path@, opt_text(self.query), pair_texts(self.pairs@))
    }
}

/// What `Url::parse` finds in a text: the path, the query and the query's pairs, or the message
/// of its error.
pub uninterp spec fn url_of(s: Seq<char>) -> Result<
    (Seq<char>, Option<Seq<char>>, Seq<(Seq<char>, Seq<char>)>),
    Seq<char>,
>;

/// `Url::parse`, with `Url::path`, `Url::query` and `Url::query_pairs` of what it returns.
#[verifier::external_body]
pub(crate) fn parse_url(s: &str) -> (r: Result<UrlParts, String>)
    ensures
        match r {
            Ok(parts) => url_of(s@) == Ok::<_, Seq<char>>(parts.plain()),
            Err(message) => url_of(s@) == Err::<
                (Seq<char>, Option<Seq<char>>, Seq<(Seq<char>, Seq<char>)>),
                _,
            >(message@),
        },
{
    match url::Url::parse(s) {
        Ok(u) => Ok(UrlParts {
            path: u.path().to_string(),
            query: u.query().map(|q| q.to_string()),
            pairs: u.query_pairs().map(|(k, v)| (k.to_string(), v.to_string())).collect(),
        }),
        Err(e) => Err(e.to_string()),
    }
}

} // verus!
