use vstd::prelude::*;
use crate::json::{json_as_str, json_get, Json};
use crate::text::{opt_text, seq_contains, str_contains};

verus! {

/// What a browser fingerprint says of the device.
pub struct ParsedDevice {
    pub id: String,
    pub os: Option<String>,
    pub browser: Option<String>,
    pub device_type: Option<String>,
}

/// The text of a looked-up value that is a string.
pub open spec fn text_of(v: Option<Json>) -> Option<Seq<char>> {
    match v {
        Some(j) => json_as_str(j),
        None => None,
    }
}

/// The visitor id of a fingerprint, `"unknown"` where it has none.
pub open spec fn fingerprint_id(fingerprint: Json) -> Seq<char> {
    match text_of(json_get(fingerprint, "visitorId"@)) {
        Some(s) => s,
        None => "unknown"@,
    }
}

/// The `value` text of the named component of a fingerprint.
pub open spec fn component_text(fingerprint: Json, name: Seq<char>) -> Option<Seq<char>> {
    match json_get(fingerprint, "components"@) {
        Some(components) => match json_get(components, name) {
            Some(c) => text_of(json_get(c, "value"@)),
            None => None,
        },
        None => None,
    }
}

/// The kind of device a user agent tells of: a mobile mark wins over a
/// tablet mark, and anything else is a desktop.
pub open spec fn device_kind(user_agent: Seq<char>) -> Seq<char> {
    if seq_contains(user_agent, "Mobile"@) {
        "mobile"@
    } else if seq_contains(user_agent, "Tablet"@) {
        "tablet"@
    } else {
        "desktop"@
    }
}

/// What reading a fingerprint gives: the visitor id, the platform and user
/// agent components, and the device kind that the user agent tells of.
pub open spec fn device_info_is(r: ParsedDevice, fingerprint: Json) -> bool {
    &&& r.id@ == fingerprint_id(fingerprint)
    &&& opt_text(r.os) == component_text(fingerprint, "platform"@)
    &&& opt_text(r.browser) == component_text(fingerprint, "userAgent"@)
    &&& opt_text(r.device_type) == match component_text(fingerprint, "userAgent"@) {
        Some(ua) => Some(device_kind(ua)),
        None => None,
    }
}

/// The device id is the fingerprint's `visitorId` where that is a string,
/// and `unknown` otherwise.
pub proof fn lemma_device_id(r: ParsedDevice, fingerprint: Json)
    requires
        device_info_is(r, fingerprint),
    ensures
        json_get(fingerprint, "visitorId"@) matches Some(Json::Str(s)) ==> r.id@ == s.text@,
        !(json_get(fingerprint, "visitorId"@) matches Some(Json::Str(_))) ==> r.id@ == seq![
            'u',
            'n',
            'k',
            'n',
            'o',
            'w',
            'n',
        ],
        r.browser is None <==> r.device_type is None,
{
    reveal_strlit("unknown");
}

/// The device kind read out of a fingerprint whose user agent is `ua`:
/// `mobile` where `ua` holds `Mobile`; else `tablet` where it holds
/// `Tablet`; else `desktop`, whatever else `ua` holds.
pub proof fn lemma_device_kind_marks(r: ParsedDevice, fingerprint: Json, ua: Seq<char>)
    requires
        device_info_is(r, fingerprint),
        component_text(fingerprint, "userAgent"@) == Some(ua),
    ensures
        opt_text(r.browser) == Some(ua),
        (exists|i: int| 0 <= i && i + 6 <= ua.len() && #[trigger] ua.subrange(i, i + 6) == "Mobile"@)
            ==> opt_text(r.device_type) == Some("mobile"@),
        !(exists|i: int| 0 <= i && i + 6 <= ua.len() && #[trigger] ua.subrange(i, i + 6) == "Mobile"@)
            && (exists|i: int| 0 <= i && i + 6 <= ua.len() && #[trigger] ua.subrange(i, i + 6) == "Tablet"@)
            ==> opt_text(r.device_type) == Some("tablet"@),
        !(exists|i: int| 0 <= i && i + 6 <= ua.len() && #[trigger] ua.subrange(i, i + 6) == "Mobile"@)
            && !(exists|i: int| 0 <= i && i + 6 <= ua.len() && #[trigger] ua.subrange(i, i + 6) == "Tablet"@)
            ==> opt_text(r.device_type) == Some("desktop"@),
{
    reveal_strlit("Mobile");
    reveal_strlit("Tablet");
    assert("Mobile"@.len() == 6);
    assert("Tablet"@.len() == 6);
}

fn lookup_text(v: &Json, key: &str) -> (r: Option<String>)
    ensures
        opt_text(r) == text_of(json_get(*v, key@)),
{
    match v.get(key) {
        Some(x) => match x.as_str() {
            Some(s) => Some(s.to_owned()),
            None => None,
        },
        None => None,
    }
}

fn component_value(fingerprint: &Json, name: &str) -> (r: Option<String>)
    ensures
        opt_text(r) == component_text(*fingerprint, name@),
{
    match fingerprint.get("components") {
        Some(components) => match components.get(name) {
            Some(c) => lookup_text(c, "value"),
            None => None,
        },
        None => None,
    }
}

fn classify_user_agent(ua: &str) -> (r: &'static str)
    ensures
        r@ == device_kind(ua@),
{
    if str_contains(ua, "Mobile") {
        "mobile"
    } else if str_contains(ua, "Tablet") {
        "tablet"
    } else {
        "desktop"
    }
}

/// Reads the device out of a browser fingerprint: the visitor id, the
/// platform and user agent components, and the device kind that the user
/// agent tells of.
pub fn extract_device_info(fingerprint: &Json) -> (r: ParsedDevice)
    ensures
        device_info_is(r, *fingerprint),
{
    let id = match lookup_text(fingerprint, "visitorId") {
        Some(s) => s,
        None => "unknown".to_owned(),
    };
    let os = component_value(fingerprint, "platform");
    let browser = component_value(fingerprint, "userAgent");
    let device_type = match &browser {
        Some(ua) => Some(classify_user_agent(ua.as_str()).to_owned()),
        None => None,
    };
    ParsedDevice { id, os, browser, device_type }
}

} // verus!
