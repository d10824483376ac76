use vstd::prelude::*;
use crate::text::opt_text;

verus! {

/// Network facts of an event: the client address and the raw user agent.
pub struct ParsedNetwork {
    pub ip: Option<String>,
    pub ua_raw: Option<String>,
}

/// A text, or nothing where it is empty.
pub open spec fn non_empty_text(s: Seq<char>) -> Option<Seq<char>> {
    if s.len() == 0 {
        None
    } else {
        Some(s)
    }
}

fn non_empty_string(s: &str) -> (r: Option<String>)
    ensures
        opt_text(r) == non_empty_text(s@),
{
    if s.is_empty() {
        None
    } else {
        Some(s.to_owned())
    }
}

/// The address is left out exactly when it is empty, and kept as given
/// otherwise; likewise the user agent.
pub proof fn lemma_network_fields(r: ParsedNetwork, ip: Seq<char>, user_agent: Seq<char>)
    requires
        opt_text(r.ip) == non_empty_text(ip),
        opt_text(r.ua_raw) == non_empty_text(user_agent),
    ensures
        r.ip is None <==> ip.len() == 0,
        r.ip matches Some(s) ==> s@ == ip,
        r.ua_raw is None <==> user_agent.len() == 0,
        r.ua_raw matches Some(s) ==> s@ == user_agent,
{
}

/// The address and user agent of an event, each left out where empty.
pub fn extract_network_info(ip: &str, user_agent: &str) -> (r: ParsedNetwork)
    ensures
        opt_text(r.ip) == non_empty_text(ip@),
        opt_text(r.ua_raw) == non_empty_text(user_agent@),
{
    ParsedNetwork { ip: non_empty_string(ip), ua_raw: non_empty_string(user_agent) }
}

} // verus!
