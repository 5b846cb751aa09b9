//! The profile API's rules: which operation a request's method and path
//! select, what each operation answers for each store outcome, how an update
//! payload is validated before any store work, and where a deprovisioning
//! deletion goes.

use vstd::prelude::*;

use crate::attr::{str_eq, AttrMap, AttrVal};
use crate::codec::{
    decodable, settings_encodes, settings_to_attribute_value, spec_decode_err, spec_decoded, decode,
};
use crate::json::{json_obj_get, json_of, json_str_entry, json_parse, JsonValue};
use crate::reconcile::spec_mfa_of_json_strict;
use crate::types::{
    opt_view, ApiError, Mfa, Settings, SettingsModel, UserProfile, spec_decode_error_message,
};

verus! {

/// `n` occurs in `h` starting at position `i`.
pub open spec fn seq_contains_at(h: Seq<char>, n: Seq<char>, i: int) -> bool {
    0 <= i && i + n.len() <= h.len() && h.subrange(i, i + n.len()) == n
}

/// `n` occurs somewhere in `h`.
pub open spec fn spec_contains(h: Seq<char>, n: Seq<char>) -> bool {
    exists|i: int| seq_contains_at(h, n, i)
}

/// Substring search by characters.
pub fn str_contains(h: &str, n: &str) -> (r: bool)
    ensures
        r == spec_contains(h@, n@),
{
    let hl = h.unicode_len();
    let nl = n.unicode_len();
    if nl == 0 {
        proof {
            assert(h@.subrange(0, 0) =~= n@);
            assert(seq_contains_at(h@, n@, 0));
        }
        return true;
    }
    if nl > hl {
        proof {
            assert forall|i: int| !seq_contains_at(h@, n@, i) by {}
        }
        return false;
    }
    let mut i: usize = 0;
    while i <= hl - nl
        invariant
            nl == n@.len(),
            hl == h@.len(),
            1 <= nl <= hl,
            i <= hl - nl + 1,
            forall|k: int| 0 <= k < i ==> !seq_contains_at(h@, n@, k),
        decreases hl - nl + 1 - i,
    {
        let mut j: usize = 0;
        let mut ok = true;
        while ok && j < nl
            invariant
                nl == n@.len(),
                hl == h@.len(),
                i + nl <= hl,
                j <= nl,
                ok ==> forall|t: int| 0 <= t < j ==> h@[i + t] == n@[t],
                !ok ==> !seq_contains_at(h@, n@, i as int),
            decreases nl - j + (if ok { 1int } else { 0int }),
        {
            let hc = h.get_char(i + j);
            let nc = n.get_char(j);
            if hc != nc {
                proof {
                    let sub = h@.subrange(i as int, i + nl);
                    assert(sub[j as int] == h@[i + j]);
                }
                ok = false;
            } else {
                j = j + 1;
            }
        }
        if ok {
            proof {
                assert(h@.subrange(i as int, i + nl) =~= n@);
                assert(seq_contains_at(h@, n@, i as int));
            }
            return true;
        }
        i = i + 1;
    }
    proof {
        assert forall|k: int| !seq_contains_at(h@, n@, k) by {
            if 0 <= k && k + n@.len() <= h@.len() {
                assert(k < i);
            }
        }
    }
    false
}

/// The operations the API exposes.
#[derive(Debug, Clone, Copy, PartialEq, Eq, Structural)]
pub enum Operation {
    Get,
    Update,
    DeleteAndDeprovision,
    Invalid,
}

/// The routing table: GET without "/unsubscribe" reads, PUT without it
/// updates, DELETE with it deprovisions, anything else is invalid.
pub open spec fn spec_route(method: Seq<char>, path: Seq<char>) -> Operation {
    let unsub = spec_contains(path, "/unsubscribe"@);
    if method == "GET"@ && !unsub {
        Operation::Get
    } else if method == "PUT"@ && !unsub {
        Operation::Update
    } else if method == "DELETE"@ && unsub {
        Operation::DeleteAndDeprovision
    } else {
        Operation::Invalid
    }
}

/// The operation a request's method and path select.
pub fn route(method: &str, path: &str) -> (op: Operation)
    ensures
        op == spec_route(method@, path@),
{
    let unsub = str_contains(path, "/unsubscribe");
    if str_eq(method, "GET") && !unsub {
        Operation::Get
    } else if str_eq(method, "PUT") && !unsub {
        Operation::Update
    } else if str_eq(method, "DELETE") && unsub {
        Operation::DeleteAndDeprovision
    } else {
        Operation::Invalid
    }
}

/// What an operation answers: a profile, a failure message, or the deletion
/// acknowledgement.
#[derive(Debug, Clone, PartialEq, Eq)]
pub enum ResponseBody {
    Profile(UserProfile),
    Failure(String),
    Success,
}

/// A response: an HTTP status and a structured body.
#[derive(Debug, Clone, PartialEq, Eq)]
pub struct ApiResponse {
    pub status: u16,
    pub body: ResponseBody,
}

/// The answer to a request no routing row matches.
pub fn invalid_route_response() -> (r: ApiResponse)
    ensures
        r.status == 400,
        r.body matches ResponseBody::Failure(m) && m@ == "Invalid request method or path"@,
{
    ApiResponse { status: 400, body: ResponseBody::Failure("Invalid request method or path".to_owned()) }
}

/// The read operation's answer, given the record the store returned: the
/// decoded profile, 404 when absent, or the decode failure surfaced as an
/// input error.
pub fn get_user_response(item: Option<&AttrMap>) -> (r: Result<ApiResponse, ApiError>)
    ensures
        match item {
            None => r matches Ok(resp) && (resp.status == 404 && (resp.body
                matches ResponseBody::Failure(m) && m@ == "User not found"@)),
            Some(m) => if decodable(*m) {
                r matches Ok(resp) && (resp.status == 200 && (resp.body
                    matches ResponseBody::Profile(p) && p@ == spec_decoded(*m)))
            } else {
                r matches Err(e) && (e matches ApiError::InvalidInput(msg) && msg@
                    == spec_decode_error_message(spec_decode_err(*m)))
            },
        },
{
    match item {
        None => Ok(
            ApiResponse { status: 404, body: ResponseBody::Failure("User not found".to_owned()) },
        ),
        Some(m) => match decode(m) {
            Ok(p) => Ok(ApiResponse { status: 200, body: ResponseBody::Profile(p) }),
            Err(e) => Err(ApiError::InvalidInput(e.message())),
        },
    }
}

/// A partial update as the API accepts it: exactly a phone, a username and
/// full settings.
#[derive(Debug, Clone, PartialEq, Eq)]
pub struct UpdateUserRequest {
    pub phone: String,
    pub username: String,
    pub settings: Settings,
}

/// Ghost model of `UpdateUserRequest`.
#[verifier::ext_equal]
pub struct UpdateModel {
    pub phone: Seq<char>,
    pub username: Seq<char>,
    pub settings: SettingsModel,
}

impl View for UpdateUserRequest {
    type V = UpdateModel;

    open spec fn view(&self) -> UpdateModel {
        UpdateModel { phone: self.phone@, username: self.username@, settings: self.settings@ }
    }
}

/// The settings a well-shaped settings document describes: an object with a
/// full MFA object, a string theme and a string subscription.
pub open spec fn spec_settings_of_json(v: JsonValue) -> Option<SettingsModel> {
    match (json_obj_get(v, "mfa"@), json_str_entry(v, "theme"@), json_str_entry(
        v,
        "subscription"@,
    )) {
        (Some(mv), Some(t), Some(su)) => match spec_mfa_of_json_strict(mv) {
            Some(mm) => Some(SettingsModel { mfa: mm, theme: t, subscription: su }),
            None => None,
        },
        _ => None,
    }
}

/// The update a well-shaped payload document describes.
pub open spec fn spec_update_of_json(v: JsonValue) -> Option<UpdateModel> {
    match (json_str_entry(v, "phone"@), json_str_entry(v, "username"@), json_obj_get(
        v,
        "settings"@,
    )) {
        (Some(ph), Some(un), Some(sv)) => match spec_settings_of_json(sv) {
            Some(st) => Some(UpdateModel { phone: ph, username: un, settings: st }),
            None => None,
        },
        _ => None,
    }
}

/// The update a payload text describes, if it parses to a well-shaped
/// document.
pub open spec fn spec_update_request(body: Seq<char>) -> Option<UpdateModel> {
    match json_of(body) {
        Some(v) => spec_update_of_json(v),
        None => None,
    }
}

/// The settings read from a parsed document, when well shaped.
fn settings_of_json(v: &JsonValue) -> (r: Option<Settings>)
    ensures
        r is Some <==> spec_settings_of_json(*v) is Some,
        r matches Some(s) ==> Some(s@) == spec_settings_of_json(*v),
{
    let mv = match v.obj_get("mfa") {
        Some(mv) => mv,
        None => {
            return None;
        },
    };
    let theme = match v.str_entry("theme") {
        Some(t) => t,
        None => {
            return None;
        },
    };
    let subscription = match v.str_entry("subscription") {
        Some(su) => su,
        None => {
            return None;
        },
    };
    let enabled = match mv.bool_entry("enabled") {
        Some(b) => b,
        None => {
            return None;
        },
    };
    let method = match mv.str_entry("method") {
        Some(m) => m,
        None => {
            return None;
        },
    };
    Some(
        Settings {
            mfa: Mfa { enabled, method: method.clone() },
            theme: theme.clone(),
            subscription: subscription.clone(),
        },
    )
}

/// The update payload parsed and validated before any store work: a
/// malformed body is rejected as invalid input, so no update reaches the
/// store for it.
pub fn parse_update_request(body: &str) -> (r: Result<UpdateUserRequest, ApiError>)
    ensures
        r is Ok <==> spec_update_request(body@) is Some,
        r matches Ok(u) ==> Some(u@) == spec_update_request(body@),
        r matches Err(e) ==> e matches ApiError::InvalidInput(msg) && msg@ == "Invalid JSON"@,
{
    let v = match json_parse(body) {
        Some(v) => v,
        None => {
            return Err(ApiError::InvalidInput("Invalid JSON".to_owned()));
        },
    };
    let phone = match v.str_entry("phone") {
        Some(p) => p.clone(),
        None => {
            return Err(ApiError::InvalidInput("Invalid JSON".to_owned()));
        },
    };
    let username = match v.str_entry("username") {
        Some(u) => u.clone(),
        None => {
            return Err(ApiError::InvalidInput("Invalid JSON".to_owned()));
        },
    };
    let sv = match v.obj_get("settings") {
        Some(sv) => sv,
        None => {
            return Err(ApiError::InvalidInput("Invalid JSON".to_owned()));
        },
    };
    let settings = match settings_of_json(sv) {
        Some(s) => s,
        None => {
            return Err(ApiError::InvalidInput("Invalid JSON".to_owned()));
        },
    };
    Ok(UpdateUserRequest { phone, username, settings })
}

/// The four field assignments an update writes; nothing else of the record
/// is touched.
#[derive(Debug)]
pub struct UpdateFields {
    pub phone: AttrVal,
    pub username: AttrVal,
    pub settings: AttrVal,
    pub updated: AttrVal,
}

/// The field assignments of an update: exactly the phone, the username, the
/// encoded settings and the `updated` stamp; identifier, email and
/// verification are never among them.
pub fn prepare_update(req: &UpdateUserRequest, now: &str) -> (r: UpdateFields)
    ensures
        r.phone matches AttrVal::S(p) && p@ == req.phone@,
        r.username matches AttrVal::S(u) && u@ == req.username@,
        r.settings matches AttrVal::M(sm) && settings_encodes(sm, req.settings@),
        r.updated matches AttrVal::S(t) && t@ == now@,
{
    UpdateFields {
        phone: AttrVal::S(req.phone.clone()),
        username: AttrVal::S(req.username.clone()),
        settings: settings_to_attribute_value(&req.settings),
        updated: AttrVal::S(now.to_owned()),
    }
}

/// The update operation's answer, given the post-update record the store
/// returned: the decoded profile, or "Failed to update user" when the store
/// matched no record.
pub fn update_user_response(attrs: Option<&AttrMap>) -> (r: Result<ApiResponse, ApiError>)
    ensures
        match attrs {
            None => r matches Ok(resp) && (resp.status == 400 && (resp.body
                matches ResponseBody::Failure(m) && m@ == "Failed to update user"@)),
            Some(m) => if decodable(*m) {
                r matches Ok(resp) && (resp.status == 200 && (resp.body
                    matches ResponseBody::Profile(p) && p@ == spec_decoded(*m)))
            } else {
                r matches Err(e) && (e matches ApiError::InvalidInput(msg) && msg@
                    == spec_decode_error_message(spec_decode_err(*m)))
            },
        },
{
    match attrs {
        None => Ok(
            ApiResponse {
                status: 400,
                body: ResponseBody::Failure("Failed to update user".to_owned()),
            },
        ),
        Some(m) => match decode(m) {
            Ok(p) => Ok(ApiResponse { status: 200, body: ResponseBody::Profile(p) }),
            Err(e) => Err(ApiError::InvalidInput(e.message())),
        },
    }
}

/// An identity-provider pool as listed: an id and a name, either possibly
/// absent.
#[derive(Debug, Clone, PartialEq, Eq)]
pub struct PoolSummary {
    pub id: Option<String>,
    pub name: Option<String>,
}

/// Whether a listed pool carries exactly the configured name.
pub open spec fn spec_pool_match(p: PoolSummary, name: Seq<char>) -> bool {
    match p.name {
        Some(n) => n@ == name,
        None => false,
    }
}

/// The first listed pool carrying the configured name.
pub open spec fn spec_find_pool(pools: Seq<PoolSummary>, name: Seq<char>) -> Option<PoolSummary>
    decreases pools.len(),
{
    if pools.len() == 0 {
        None
    } else if spec_pool_match(pools.first(), name) {
        Some(pools.first())
    } else {
        spec_find_pool(pools.drop_first(), name)
    }
}

/// Where the account deletion goes: the id of the first pool with the
/// configured name, when that pool has an id; otherwise nowhere, and only
/// the stored record is removed.
pub open spec fn spec_delete_target(pools: Seq<PoolSummary>, name: Seq<char>) -> Option<
    Seq<char>,
> {
    match spec_find_pool(pools, name) {
        Some(p) => match p.id {
            Some(i) => Some(i@),
            None => None,
        },
        None => None,
    }
}

/// The pool id the deprovisioning deletion is issued against, if any.
pub fn find_pool_id(pools: &Vec<PoolSummary>, name: &str) -> (r: Option<String>)
    ensures
        opt_view(r) == spec_delete_target(pools@, name@),
{
    let mut i: usize = 0;
    assert(pools@.skip(0) =~= pools@);
    while i < pools.len()
        invariant
            i <= pools.len(),
            spec_find_pool(pools@, name@) == spec_find_pool(pools@.skip(i as int), name@),
        decreases pools.len() - i,
    {
        proof {
            assert(pools@.skip(i as int).first() == pools@[i as int]);
            assert(pools@.skip(i as int).drop_first() =~= pools@.skip(i as int + 1));
        }
        let matched = match &pools[i].name {
            Some(n) => str_eq(n.as_str(), name),
            None => false,
        };
        if matched {
            return match &pools[i].id {
                Some(pid) => Some(pid.clone()),
                None => None,
            };
        }
        i = i + 1;
    }
    proof {
        assert(pools@.skip(i as int) =~= Seq::<PoolSummary>::empty());
    }
    None
}

/// The deprovisioning operation's acknowledgement once both deletions went
/// through.
pub fn delete_success_response() -> (r: ApiResponse)
    ensures
        r.status == 200,
        r.body is Success,
{
    ApiResponse { status: 200, body: ResponseBody::Success }
}

} // verus!
