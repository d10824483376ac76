use vstd::prelude::*;
use crate::text::{append_i64_decimal, decimal_reads_as, int_decimal, lemma_int_decimal_reads_back, opt_text};
use crate::time::UtcTimestamp;

verus! {

/// An event: its id, its type, and its time in milliseconds since the
/// epoch.  (`event_type` is what the wire format calls `type`.)
pub struct ParsedEvent {
    pub id: String,
    pub event_type: String,
    pub ts_ms: i64,
}

/// The id made up for an event that carries none:
/// `evt:<identity id>:<session id>:<seconds since the epoch>`.
pub open spec fn generated_event_id(identity_id: Seq<char>, session_id: Seq<char>, secs: i64) -> Seq<char> {
    "evt:"@ + identity_id + ":"@ + session_id + ":"@ + int_decimal(secs as int)
}

/// The type given to an event that carries none: `<method> <path>`.
pub open spec fn request_event_type(method: Seq<char>, path: Seq<char>) -> Seq<char> {
    method + " "@ + path
}

/// What working out an event gives: the carried id or a generated one, the
/// carried type or `<method> <path>`, and the time in milliseconds.
pub open spec fn event_info_is(
    r: ParsedEvent,
    event_id: Option<Seq<char>>,
    event_type: Option<Seq<char>>,
    method: Seq<char>,
    path: Seq<char>,
    identity_id: Seq<char>,
    session_id: Seq<char>,
    timestamp: UtcTimestamp,
) -> bool {
    &&& r.id@ == match event_id {
        Some(id) => id,
        None => generated_event_id(identity_id, session_id, timestamp.secs()),
    }
    &&& r.event_type@ == match event_type {
        Some(t) => t,
        None => request_event_type(method, path),
    }
    &&& r.ts_ms == timestamp.secs() * 1000 + timestamp.nanos() / 1_000_000
}

/// An event's own id and type are kept as they are, and its time in
/// milliseconds is its seconds times a thousand plus its whole milliseconds.
pub proof fn lemma_carried_event_fields(
    r: ParsedEvent,
    event_id: Option<Seq<char>>,
    event_type: Option<Seq<char>>,
    method: Seq<char>,
    path: Seq<char>,
    identity_id: Seq<char>,
    session_id: Seq<char>,
    timestamp: UtcTimestamp,
)
    requires
        event_info_is(r, event_id, event_type, method, path, identity_id, session_id, timestamp),
    ensures
        event_id matches Some(id) ==> r.id@ == id,
        event_type matches Some(t) ==> r.event_type@ == t,
        r.ts_ms == timestamp.secs() * 1000 + timestamp.nanos() / 1_000_000,
{
}

/// An event that carries no id gets `evt:<identity id>:<session id>:`
/// followed by a decimal numeral that reads back as the event's exact
/// seconds since the epoch; one that carries no type gets the method, a
/// space and the path.
pub proof fn lemma_generated_event_fields(
    r: ParsedEvent,
    method: Seq<char>,
    path: Seq<char>,
    identity_id: Seq<char>,
    session_id: Seq<char>,
    timestamp: UtcTimestamp,
)
    requires
        event_info_is(r, None, None, method, path, identity_id, session_id, timestamp),
    ensures
        ({
            let prefix = seq!['e', 'v', 't', ':'] + identity_id + seq![':'] + session_id + seq![':'];
            &&& prefix.len() <= r.id@.len()
            &&& r.id@.subrange(0, prefix.len() as int) == prefix
            &&& decimal_reads_as(r.id@.subrange(prefix.len() as int, r.id@.len() as int), timestamp.secs() as int)
        }),
        r.event_type@ == method + seq![' '] + path,
{
    reveal_strlit("evt:");
    reveal_strlit(":");
    reveal_strlit(" ");
    let prefix = seq!['e', 'v', 't', ':'] + identity_id + seq![':'] + session_id + seq![':'];
    let d = int_decimal(timestamp.secs() as int);
    lemma_int_decimal_reads_back(timestamp.secs() as int);
    assert(r.id@ =~= prefix + d);
    assert(r.id@.subrange(0, prefix.len() as int) =~= prefix);
    assert(r.id@.subrange(prefix.len() as int, r.id@.len() as int) =~= d);
}

/// Works out the id, type and time of an event, making up the id and the
/// type from the request where the event does not carry them.
pub fn extract_event_info(
    event_id: &Option<String>,
    event_type: &Option<String>,
    method: &str,
    path: &str,
    identity_id: &str,
    session_id: &str,
    timestamp: UtcTimestamp,
) -> (r: ParsedEvent)
    ensures
        event_info_is(
            r,
            opt_text(*event_id),
            opt_text(*event_type),
            method@,
            path@,
            identity_id@,
            session_id@,
            timestamp,
        ),
{
    let id = match event_id {
        Some(s) => s.clone(),
        None => {
            let mut g = "evt:".to_owned();
            g.append(identity_id);
            g.append(":");
            g.append(session_id);
            g.append(":");
            append_i64_decimal(&mut g, timestamp.timestamp());
            g
        },
    };
    let etype = match event_type {
        Some(s) => s.clone(),
        None => {
            let mut t = method.to_owned();
            t.append(" ");
            t.append(path);
            t
        },
    };
    ParsedEvent { id, event_type: etype, ts_ms: timestamp.timestamp_millis() }
}

} // verus!
