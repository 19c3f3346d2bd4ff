use vstd::prelude::*;
use vstd::string::StringExecFns;
use crate::selector::NodeRecord;

verus! {

#[verifier::external_type_specification]
#[verifier::external_body]
pub struct ExUrl(url::Url);

/// Whether the url crate accepts the text as a URL.
pub uninterp spec fn url_parses(s: Seq<char>) -> bool;

/// Relies on url::Url::parse: it succeeds exactly on the texts it accepts.
#[verifier::external_body]
fn parse_url(s: &str) -> (r: Option<url::Url>)
    ensures
        r is Some == url_parses(s@),
{
    url::Url::parse(s).ok()
}

pub open spec fn digit_char(d: nat) -> char {
    ((d % 10) + 48) as char
}

/// The decimal digits of `n`, most significant first, without leading zeros.
pub open spec fn decimal(n: nat) -> Seq<char>
    decreases n,
{
    if n < 10 {
        seq![digit_char(n)]
    } else {
        decimal(n / 10).push(digit_char(n % 10))
    }
}

/// Relies on the decimal `Display` of `u32`, through `ToString::to_string`.
#[verifier::external_body]
fn decimal_text(n: u32) -> (r: String)
    ensures
        r@ == decimal(n as nat),
{
    n.to_string()
}

/// The text of a peer's URL: its IPv6 address in brackets, then its port.
pub open spec fn url_text(ip: Seq<char>, port: u32) -> Seq<char> {
    seq!['h', 't', 't', 'p', ':', '/', '/', '['] + ip + seq![']', ':'] + decimal(port as nat)
}

/// The URL at which a peer is queried; nothing where its endpoint is missing
/// or does not make a valid URL.
pub fn peer_url(node_record: &NodeRecord) -> (r: Option<url::Url>)
    ensures
        r is Some <==> (node_record@ matches Some((ip, port)) && url_parses(url_text(ip, port))),
{
    match &node_record.http {
        None => None,
        Some(http) => {
            let mut text = String::from_str("http://[");
            text.append(http.ip_addr.as_str());
            text.append("]:");
            let port = decimal_text(http.port);
            text.append(port.as_str());
            proof {
                reveal_strlit("http://[");
                reveal_strlit("]:");
                assert(text@ =~= url_text(http.ip_addr@, http.port));
            }
            parse_url(text.as_str())
        },
    }
}

} // verus!
