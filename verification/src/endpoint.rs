//! The report endpoint: URL validation and heartbeat URL construction.
//!
//! The url crate does the parsing and the form-urlencoded serialization;
//! this module states what those calls return and builds the exact query
//! every heartbeat carries.

use vstd::prelude::*;

verus! {

/// What url::Url::parse extracts from an endpoint text: the normalized URL
/// text, its scheme, and its host text, when the URL has one. None when
/// the text is no absolute URL.
pub uninterp spec fn url_parts_of(s: Seq<char>) -> Option<
    (Seq<char>, Seq<char>, Option<Seq<char>>),
>;

/// Relies on url::Url::parse, projected onto plain text by Url::as_str,
/// Url::scheme and Url::host: the normalized URL, its scheme, and the text
/// form of its host, when it has one.
#[verifier::external_body]
pub(crate) fn parse_url_parts(s: &str) -> (r: Option<(String, String, Option<String>)>)
    ensures
        (r is Some) == (url_parts_of(s@) is Some),
        r matches Some(p) ==> ({
            &&& url_parts_of(s@) matches Some(q)
            &&& p.0@ == q.0
            &&& p.1@ == q.1
            &&& (p.2 is Some) == (q.2 is Some)
            &&& (p.2 matches Some(h) ==> q.2 matches Some(hq) && h@ == hq)
        }),
{
    match url::Url::parse(s) {
        Ok(u) => {
            let host = u.host().map(|h| h.to_string());
            Some((u.as_str().to_string(), u.scheme().to_string(), host))
        },
        Err(_) => None,
    }
}

/// A scheme the watchdog accepts for its report endpoint.
pub open spec fn scheme_allowed(scheme: Seq<char>) -> bool {
    scheme == "http"@ || scheme == "https"@
}

/// Key/value pairs as plain text.
pub open spec fn pairs_view(pairs: Seq<(String, String)>) -> Seq<(Seq<char>, Seq<char>)> {
    pairs.map_values(|p: (String, String)| (p.0@, p.1@))
}

/// The text of a URL whose query was replaced by the given pairs, written
/// as the form-urlencoded serializer of the url crate writes it; a
/// function of the URL text and the pairs alone.
pub uninterp spec fn url_with_query_of(
    base: Seq<char>,
    pairs: Seq<(Seq<char>, Seq<char>)>,
) -> Seq<char>;

/// Relies on url::Url::parse and Url::query_pairs_mut: clearing drops
/// every existing query parameter and each append_pair serializes one
/// key/value pair in order.
#[verifier::external_body]
fn url_with_query(base: &str, pairs: &Vec<(String, String)>) -> (r: Option<String>)
    ensures
        (r is Some) == (url_parts_of(base@) is Some),
        r matches Some(t) ==> t@ == url_with_query_of(base@, pairs_view(pairs@)),
{
    match url::Url::parse(base) {
        Ok(mut u) => {
            let mut serializer = u.query_pairs_mut();
            serializer.clear();
            for p in pairs.iter() {
                serializer.append_pair(&p.0, &p.1);
            }
            drop(serializer);
            Some(u.as_str().to_string())
        },
        Err(_) => None,
    }
}

/// The three query parameters of every heartbeat: a fixed status and the
/// two measurement texts.
pub open spec fn heartbeat_pairs(uptime: Seq<char>, ping: Seq<char>) -> Seq<
    (Seq<char>, Seq<char>),
> {
    seq![("status"@, "up"@), ("msg"@, uptime), ("ping"@, ping)]
}

/// The URL of one heartbeat report: the endpoint with its query fully
/// replaced by exactly `status=up`, `msg=<uptime>` and `ping=<ping>`.
/// None only when the base text is no URL, which a validated watchdog
/// configuration rules out.
pub fn heartbeat_url(base: &str, uptime: &str, ping: &str) -> (r: Option<String>)
    ensures
        (r is Some) == (url_parts_of(base@) is Some),
        r matches Some(t) ==> t@ == url_with_query_of(base@, heartbeat_pairs(uptime@, ping@)),
{
    let mut pairs: Vec<(String, String)> = Vec::new();
    pairs.push((String::from_str("status"), String::from_str("up")));
    pairs.push((String::from_str("msg"), uptime.to_owned()));
    pairs.push((String::from_str("ping"), ping.to_owned()));
    proof {
        assert(pairs_view(pairs@) =~= heartbeat_pairs(uptime@, ping@));
    }
    url_with_query(base, &pairs)
}

} // verus!
