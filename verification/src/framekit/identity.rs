use vstd::prelude::*;

verus! {

/// The identity an event belongs to.
pub struct ParsedIdentity {
    pub id: String,
    pub user_id: Option<String>,
}

/// The identity named by the event's identity id; no user is known yet.
pub fn extract_identity_info(shaayud_id: &str) -> (r: ParsedIdentity)
    ensures
        r.id@ == shaayud_id@,
        r.user_id is None,
{
    ParsedIdentity { id: shaayud_id.to_owned(), user_id: None }
}

} // verus!
