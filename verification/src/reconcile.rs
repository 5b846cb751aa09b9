//! The profile reconciler's decisions: on each confirmation event, what
//! profile record to materialize (none when one already exists) and which
//! entitlement group to add the subject to (none when already a member).
//! The store and identity-provider calls themselves happen outside; these
//! functions take their results and say exactly what follows from them.

use vstd::prelude::*;

use crate::attr::{assoc_get, AttrMap, StrMap, str_eq};
use crate::codec::{encode, encodes};
use crate::json::{json_bool_entry, json_of, json_str_entry, json_parse, JsonValue};
use crate::types::{
    Mfa, MfaModel, ProfileModel, Settings, SettingsModel, UserProfile, Verification,
    VerificationModel,
};

verus! {

/// The subject identifier an event names, or "unknown" when the header
/// carries none.
pub open spec fn spec_subject(user_name: Option<Seq<char>>) -> Seq<char> {
    match user_name {
        Some(u) => u,
        None => "unknown"@,
    }
}

/// The subject identifier of an event header.
pub fn subject_of(user_name: Option<&String>) -> (r: String)
    ensures
        r@ == spec_subject(match user_name {
            Some(u) => Some(u@),
            None => None,
        }),
{
    match user_name {
        Some(u) => u.clone(),
        None => "unknown".to_owned(),
    }
}

/// A case-insensitive match of the word "true": four characters, each the
/// matching letter in either case.
pub open spec fn is_true_token(s: Seq<char>) -> bool {
    &&& s.len() == 4
    &&& (s[0] == 't' || s[0] == 'T')
    &&& (s[1] == 'r' || s[1] == 'R')
    &&& (s[2] == 'u' || s[2] == 'U')
    &&& (s[3] == 'e' || s[3] == 'E')
}

/// How a boolean attribute token reads: true exactly on a case-insensitive
/// match of the word "true"; anything else, absence included, reads false.
pub open spec fn spec_parse_bool(v: Option<Seq<char>>) -> bool {
    match v {
        Some(s) => is_true_token(s),
        None => false,
    }
}

/// A boolean attribute token parsed case-insensitively.
pub fn parse_bool(value: Option<&str>) -> (r: bool)
    ensures
        r == spec_parse_bool(match value {
            Some(s) => Some(s@),
            None => None,
        }),
{
    match value {
        Some(s) => {
            if s.unicode_len() != 4 {
                return false;
            }
            let c0 = s.get_char(0);
            let c1 = s.get_char(1);
            let c2 = s.get_char(2);
            let c3 = s.get_char(3);
            (c0 == 't' || c0 == 'T') && (c1 == 'r' || c1 == 'R') && (c2 == 'u' || c2 == 'U') && (
            c3 == 'e' || c3 == 'E')
        },
        None => false,
    }
}

/// `parse_bool` answers true exactly on a case-insensitive match of the word
/// "true"; every other token, and absence, gives false.
pub proof fn lemma_parse_bool_case_insensitive(s: Seq<char>)
    ensures
        spec_parse_bool(Some(s)) <==> (s.len() == 4 && (s[0] == 't' || s[0] == 'T') && (s[1] == 'r'
            || s[1] == 'R') && (s[2] == 'u' || s[2] == 'U') && (s[3] == 'e' || s[3] == 'E')),
        !spec_parse_bool(None::<Seq<char>>),
{
}

/// The string attribute under key `k`, viewed.
pub open spec fn sget(s: Seq<(String, String)>, k: Seq<char>) -> Option<Seq<char>> {
    match assoc_get(s, k) {
        Some(v) => Some(v@),
        None => None,
    }
}

/// The MFA record a well-shaped MFA document describes: an object carrying a
/// boolean `enabled` and a string `method`.
pub open spec fn spec_mfa_of_json_strict(v: JsonValue) -> Option<MfaModel> {
    match (json_bool_entry(v, "enabled"@), json_str_entry(v, "method"@)) {
        (Some(b), Some(m)) => Some(MfaModel { enabled: b, method: m }),
        _ => None,
    }
}

/// The default MFA record: disabled, method "none".
pub open spec fn spec_mfa_default() -> MfaModel {
    MfaModel { enabled: false, method: "none"@ }
}

/// The MFA record an optional `custom:mfa` attribute yields: absence, text
/// serde_json rejects, or a malformed document all fall back to the default.
pub open spec fn spec_mfa_of(attr: Option<Seq<char>>) -> MfaModel {
    match attr {
        Some(s) => match json_of(s) {
            Some(v) => match spec_mfa_of_json_strict(v) {
                Some(m) => m,
                None => spec_mfa_default(),
            },
            None => spec_mfa_default(),
        },
        None => spec_mfa_default(),
    }
}

/// The MFA record read from a parsed document, falling back to the default
/// on any malformed shape.
pub fn mfa_from_json(v: &JsonValue) -> (r: Mfa)
    ensures
        r@ == match spec_mfa_of_json_strict(*v) {
            Some(m) => m,
            None => spec_mfa_default(),
        },
{
    match (v.bool_entry("enabled"), v.str_entry("method")) {
        (Some(b), Some(m)) => Mfa { enabled: b, method: m.clone() },
        _ => Mfa { enabled: false, method: "none".to_owned() },
    }
}

/// The MFA record of an optional JSON-encoded attribute.
pub fn parse_mfa_attr(attr: Option<&String>) -> (r: Mfa)
    ensures
        r@ == spec_mfa_of(match attr {
            Some(s) => Some(s@),
            None => None,
        }),
{
    match attr {
        Some(s) => match json_parse(s.as_str()) {
            Some(v) => mfa_from_json(&v),
            None => Mfa { enabled: false, method: "none".to_owned() },
        },
        None => Mfa { enabled: false, method: "none".to_owned() },
    }
}

/// The profile a confirmation event materializes: identity attributes with
/// their documented defaults, the client-supplied theme, a fixed "FREE"
/// subscription, and the creation timestamp.
pub open spec fn spec_built_profile(
    subject: Seq<char>,
    attrs: Seq<(String, String)>,
    md: Seq<(String, String)>,
    now: Seq<char>,
) -> ProfileModel {
    let email = match sget(attrs, "email"@) {
        Some(e) => e,
        None => Seq::empty(),
    };
    ProfileModel {
        id: subject,
        email: email,
        phone: sget(attrs, "phone_number"@),
        username: match sget(attrs, "preferred_username"@) {
            Some(u) => u,
            None => email,
        },
        settings: SettingsModel {
            mfa: spec_mfa_of(sget(attrs, "custom:mfa"@)),
            theme: match sget(md, "theme"@) {
                Some(t) => t,
                None => "light"@,
            },
            subscription: "FREE"@,
        },
        verification: VerificationModel {
            email: spec_parse_bool(sget(attrs, "email_verified"@)),
            phone: spec_parse_bool(sget(attrs, "phone_number_verified"@)),
            terms: spec_parse_bool(sget(attrs, "custom:terms"@)),
            status: match sget(attrs, "cognito:user_status"@) {
                Some(s) => s,
                None => "CONFIRMED"@,
            },
        },
        updated: now,
    }
}

/// A new profile built from the event's attribute bag, stamped `now`.
pub fn build_profile(subject: &str, attrs: &StrMap, metadata: &StrMap, now: &str) -> (p:
    UserProfile)
    ensures
        p@ == spec_built_profile(subject@, attrs@, metadata@, now@),
{
    let email = match attrs.get("email") {
        Some(e) => e.clone(),
        None => String::new(),
    };
    let phone = match attrs.get("phone_number") {
        Some(ph) => Some(ph.clone()),
        None => None,
    };
    let username = match attrs.get("preferred_username") {
        Some(u) => u.clone(),
        None => email.clone(),
    };
    let mfa = parse_mfa_attr(attrs.get("custom:mfa"));
    let theme = match metadata.get("theme") {
        Some(t) => t.clone(),
        None => "light".to_owned(),
    };
    let email_verified = parse_bool(
        match attrs.get("email_verified") {
            Some(s) => Some(s.as_str()),
            None => None,
        },
    );
    let phone_verified = parse_bool(
        match attrs.get("phone_number_verified") {
            Some(s) => Some(s.as_str()),
            None => None,
        },
    );
    let terms = parse_bool(
        match attrs.get("custom:terms") {
            Some(s) => Some(s.as_str()),
            None => None,
        },
    );
    let status = match attrs.get("cognito:user_status") {
        Some(s) => s.clone(),
        None => "CONFIRMED".to_owned(),
    };
    UserProfile {
        id: subject.to_owned(),
        email,
        phone,
        username,
        settings: Settings {
            mfa,
            theme,
            subscription: "FREE".to_owned(),
        },
        verification: Verification {
            email: email_verified,
            phone: phone_verified,
            terms,
            status,
        },
        updated: now.to_owned(),
    }
}

/// Relies on chrono::Utc::now and chrono::DateTime::to_rfc3339 for the
/// current wall clock as an ISO-8601 timestamp; nothing is assumed of the
/// value.
#[verifier::external_body]
fn now_rfc3339() -> String {
    chrono::Utc::now().to_rfc3339()
}

/// The creation step's decision and payload: no write when a record already
/// exists for the subject, otherwise the encoded profile built from the
/// event, stamped `now`.
pub fn creation_item(
    existing: bool,
    subject: &str,
    attrs: &StrMap,
    metadata: &StrMap,
    now: &str,
) -> (r: Option<AttrMap>)
    ensures
        r is Some <==> !existing,
        r matches Some(m) ==> encodes(m, spec_built_profile(subject@, attrs@, metadata@, now@)),
{
    if existing {
        None
    } else {
        Some(encode(&build_profile(subject, attrs, metadata, now)))
    }
}

/// The creation step stamped with the current wall clock.
pub fn creation_item_now(existing: bool, subject: &str, attrs: &StrMap, metadata: &StrMap) -> (r:
    Option<AttrMap>)
    ensures
        r is Some <==> !existing,
        r matches Some(m) ==> exists|now: Seq<char>|
            encodes(m, spec_built_profile(subject@, attrs@, metadata@, now)),
{
    let now = now_rfc3339();
    let r = creation_item(existing, subject, attrs, metadata, now.as_str());
    proof {
        if !existing {
            assert(encodes(r->0, spec_built_profile(subject@, attrs@, metadata@, now@)));
        }
    }
    r
}

/// One creation step against the keyed store: the record written only when
/// none is present, and whether a write happened.
pub open spec fn store_after_creation(
    store: Map<Seq<char>, AttrMap>,
    id: Seq<char>,
    item: AttrMap,
) -> (Map<Seq<char>, AttrMap>, bool) {
    if store.contains_key(id) {
        (store, false)
    } else {
        (store.insert(id, item), true)
    }
}

/// Idempotent creation: two creation steps for one subject leave exactly the
/// record of the first; the second sees the record and writes nothing.
pub proof fn lemma_creation_idempotent(
    store: Map<Seq<char>, AttrMap>,
    id: Seq<char>,
    item1: AttrMap,
    item2: AttrMap,
)
    ensures
        ({
            let (s1, wrote1) = store_after_creation(store, id, item1);
            let (s2, wrote2) = store_after_creation(s1, id, item2);
            &&& s1.contains_key(id)
            &&& !wrote2
            &&& s2 == s1
            &&& (!store.contains_key(id) ==> wrote1 && s1 == store.insert(id, item1) && s1[id]
                == item1)
        }),
{
}

/// Whether the subject's memberships already include the group named.
pub open spec fn spec_group_names_contain(groups: Seq<Option<String>>, name: Seq<char>) -> bool {
    exists|i: int|
        0 <= i < groups.len() && match #[trigger] groups[i] {
            Some(g) => g@ == name,
            None => false,
        }
}

/// The group-assignment decision: the group to add the subject to, if any.
/// Yields the default entitlement group exactly when the listed memberships
/// do not already include it.
pub fn group_action(group_names: &Vec<Option<String>>) -> (r: Option<String>)
    ensures
        r is Some <==> !spec_group_names_contain(group_names@, "free"@),
        r matches Some(g) ==> g@ == "free"@,
{
    let mut i: usize = 0;
    while i < group_names.len()
        invariant
            i <= group_names.len(),
            forall|j: int|
                0 <= j < i ==> match #[trigger] group_names@[j] {
                    Some(g) => g@ != "free"@,
                    None => true,
                },
        decreases group_names.len() - i,
    {
        match &group_names[i] {
            Some(g) => {
                if str_eq(g.as_str(), "free") {
                    return None;
                }
            },
            None => (),
        }
        i = i + 1;
    }
    Some("free".to_owned())
}

} // verus!
