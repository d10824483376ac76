use vstd::prelude::*;
use crate::framekit::fingerprint::device::text_of;
use crate::json::{json_get, Json};
use crate::text::{append_i64_decimal, decimal_reads_as, int_decimal, lemma_int_decimal_reads_back, opt_text};
use crate::time::{chrono_rfc3339, UtcTimestamp};

verus! {

/// The session an event belongs to and when it was seen.
pub struct ParsedSession {
    pub id: String,
    pub started_at_iso: String,
}

/// The id made up for a session that neither the payload nor the headers
/// name: `sess:<device id>:<seconds since the epoch>`.
pub open spec fn generated_session_id(device_id: Seq<char>, secs: i64) -> Seq<char> {
    "sess:"@ + device_id + ":"@ + int_decimal(secs as int)
}

/// The session id of an event: the payload's, else the `sessionId` header
/// where that is a string, else a generated one.
pub open spec fn session_id_of(
    header: Json,
    payload_session_id: Option<Seq<char>>,
    device_id: Seq<char>,
    secs: i64,
) -> Seq<char> {
    match payload_session_id {
        Some(s) => s,
        None => match text_of(json_get(header, "sessionId"@)) {
            Some(s) => s,
            None => generated_session_id(device_id, secs),
        },
    }
}

/// What working out the session gives: its id, and the RFC 3339 text of
/// the event's time.
pub open spec fn session_info_is(
    r: ParsedSession,
    header: Json,
    payload_session_id: Option<Seq<char>>,
    device_id: Seq<char>,
    timestamp: UtcTimestamp,
) -> bool {
    &&& r.id@ == session_id_of(header, payload_session_id, device_id, timestamp.secs())
    &&& r.started_at_iso@ == chrono_rfc3339(timestamp.secs(), timestamp.nanos())
}

/// The payload's session id wins; without one, a `sessionId` header that
/// is a string is taken.
pub proof fn lemma_session_id_precedence(
    r: ParsedSession,
    header: Json,
    payload_session_id: Option<Seq<char>>,
    device_id: Seq<char>,
    timestamp: UtcTimestamp,
)
    requires
        session_info_is(r, header, payload_session_id, device_id, timestamp),
    ensures
        payload_session_id matches Some(p) ==> r.id@ == p,
        payload_session_id is None ==> (json_get(header, "sessionId"@) matches Some(Json::Str(h)) ==> r.id@
            == h.text@),
{
}

/// A session named neither by the payload nor by a `sessionId` string header
/// gets `sess:<device id>:` followed by a decimal numeral that reads back as
/// the event's exact seconds since the epoch.
pub proof fn lemma_generated_session_id(
    r: ParsedSession,
    header: Json,
    device_id: Seq<char>,
    timestamp: UtcTimestamp,
)
    requires
        session_info_is(r, header, None, device_id, timestamp),
        text_of(json_get(header, "sessionId"@)) is None,
    ensures
        ({
            let prefix = seq!['s', 'e', 's', 's', ':'] + device_id + seq![':'];
            &&& prefix.len() <= r.id@.len()
            &&& r.id@.subrange(0, prefix.len() as int) == prefix
            &&& decimal_reads_as(r.id@.subrange(prefix.len() as int, r.id@.len() as int), timestamp.secs() as int)
        }),
{
    reveal_strlit("sess:");
    reveal_strlit(":");
    let prefix = seq!['s', 'e', 's', 's', ':'] + device_id + seq![':'];
    let d = int_decimal(timestamp.secs() as int);
    lemma_int_decimal_reads_back(timestamp.secs() as int);
    assert(r.id@ =~= prefix + d);
    assert(r.id@.subrange(0, prefix.len() as int) =~= prefix);
    assert(r.id@.subrange(prefix.len() as int, r.id@.len() as int) =~= d);
}

/// Works out the session of an event and the RFC 3339 text of its time.
pub fn extract_session_info(
    header: &Json,
    payload_sesssion_id: &Option<String>,
    device_id: &str,
    timestamp: UtcTimestamp,
) -> (r: ParsedSession)
    ensures
        session_info_is(r, *header, opt_text(*payload_sesssion_id), device_id@, timestamp),
{
    let id = match payload_sesssion_id {
        Some(s) => s.clone(),
        None => {
            let from_header = match header.get("sessionId") {
                Some(v) => match v.as_str() {
                    Some(s) => Some(s.to_owned()),
                    None => None,
                },
                None => None,
            };
            match from_header {
                Some(s) => s,
                None => {
                    let mut g = "sess:".to_owned();
                    g.append(device_id);
                    g.append(":");
                    append_i64_decimal(&mut g, timestamp.timestamp());
                    g
                },
            }
        },
    };
    ParsedSession { id, started_at_iso: timestamp.to_rfc3339() }
}

} // verus!
