//! The record codec: a `UserProfile` encoded into the nested attribute-map
//! shape used by the store, and decoded back, substituting documented
//! defaults for missing leaf fields while insisting on the load-bearing ones.

use vstd::prelude::*;

use crate::attr::{assoc_get, bool_field, map_field, str_field, AttrMap, AttrVal};
use crate::types::{
    DecodeError, Mfa, MfaModel, ProfileField, ProfileModel, Settings, SettingsModel, UserProfile,
    Verification, VerificationModel,
};

verus! {

broadcast use crate::attr::lemma_assoc_get_push;

/// `sm` carries exactly the encoded form of settings `s`.
pub open spec fn settings_encodes(sm: AttrMap, s: SettingsModel) -> bool {
    &&& sm@.len() == 3
    &&& match map_field(sm, "mfa"@) {
        Some(mm) => {
            &&& mm@.len() == 2
            &&& bool_field(mm, "enabled"@) == Some(s.mfa.enabled)
            &&& str_field(mm, "method"@) == Some(s.mfa.method)
        },
        None => false,
    }
    &&& str_field(sm, "theme"@) == Some(s.theme)
    &&& str_field(sm, "subscription"@) == Some(s.subscription)
}

/// `vm` carries exactly the encoded form of verification marks `v`.
pub open spec fn verification_encodes(vm: AttrMap, v: VerificationModel) -> bool {
    &&& vm@.len() == 4
    &&& bool_field(vm, "email"@) == Some(v.email)
    &&& bool_field(vm, "phone"@) == Some(v.phone)
    &&& bool_field(vm, "terms"@) == Some(v.terms)
    &&& str_field(vm, "status"@) == Some(v.status)
}

/// `m` carries exactly the encoded form of profile `p`: every field under its
/// documented key, and `phone` omitted entirely when absent.
pub open spec fn encodes(m: AttrMap, p: ProfileModel) -> bool {
    &&& m@.len() == (if p.phone is Some {
        7int
    } else {
        6int
    })
    &&& str_field(m, "id"@) == Some(p.id)
    &&& str_field(m, "email"@) == Some(p.email)
    &&& str_field(m, "username"@) == Some(p.username)
    &&& str_field(m, "phone"@) == p.phone
    &&& (p.phone is None ==> assoc_get(m@, "phone"@) is None)
    &&& match map_field(m, "settings"@) {
        Some(sm) => settings_encodes(sm, p.settings),
        None => false,
    }
    &&& match map_field(m, "verification"@) {
        Some(vm) => verification_encodes(vm, p.verification),
        None => false,
    }
    &&& str_field(m, "updated"@) == Some(p.updated)
}

/// The settings sub-map decodes as long as its `mfa` entry is a map; every
/// leaf below substitutes a default when missing.
pub open spec fn settings_decodable(sm: AttrMap) -> bool {
    map_field(sm, "mfa"@) is Some
}

/// A stored record decodes exactly when every load-bearing field is present
/// with its expected shape.
pub open spec fn decodable(m: AttrMap) -> bool {
    &&& str_field(m, "id"@) is Some
    &&& str_field(m, "email"@) is Some
    &&& str_field(m, "username"@) is Some
    &&& map_field(m, "settings"@) is Some
    &&& settings_decodable(map_field(m, "settings"@)->0)
    &&& map_field(m, "verification"@) is Some
    &&& str_field(m, "updated"@) is Some
}

/// The MFA record read from its sub-map, defaulting a missing or mistyped
/// leaf to disabled / "none".
pub open spec fn spec_decoded_mfa(mm: AttrMap) -> MfaModel {
    MfaModel {
        enabled: match bool_field(mm, "enabled"@) {
            Some(b) => b,
            None => false,
        },
        method: match str_field(mm, "method"@) {
            Some(s) => s,
            None => "none"@,
        },
    }
}

/// The settings read from their sub-map, with documented defaults.
pub open spec fn spec_decoded_settings(sm: AttrMap) -> SettingsModel {
    SettingsModel {
        mfa: spec_decoded_mfa(map_field(sm, "mfa"@)->0),
        theme: match str_field(sm, "theme"@) {
            Some(s) => s,
            None => "light"@,
        },
        subscription: match str_field(sm, "subscription"@) {
            Some(s) => s,
            None => "FREE"@,
        },
    }
}

/// The verification marks read from their sub-map, with documented defaults.
pub open spec fn spec_decoded_verification(vm: AttrMap) -> VerificationModel {
    VerificationModel {
        email: match bool_field(vm, "email"@) {
            Some(b) => b,
            None => false,
        },
        phone: match bool_field(vm, "phone"@) {
            Some(b) => b,
            None => false,
        },
        terms: match bool_field(vm, "terms"@) {
            Some(b) => b,
            None => false,
        },
        status: match str_field(vm, "status"@) {
            Some(s) => s,
            None => "UNKNOWN"@,
        },
    }
}

/// The profile a decodable record decodes to.
pub open spec fn spec_decoded(m: AttrMap) -> ProfileModel {
    ProfileModel {
        id: str_field(m, "id"@)->0,
        email: str_field(m, "email"@)->0,
        phone: str_field(m, "phone"@),
        username: str_field(m, "username"@)->0,
        settings: spec_decoded_settings(map_field(m, "settings"@)->0),
        verification: spec_decoded_verification(map_field(m, "verification"@)->0),
        updated: str_field(m, "updated"@)->0,
    }
}

/// The first load-bearing field found missing, in the order decoding checks
/// them. Meaningful only when the record is not decodable.
pub open spec fn spec_decode_err(m: AttrMap) -> DecodeError {
    if str_field(m, "id"@) is None {
        DecodeError::MissingField(ProfileField::Id)
    } else if str_field(m, "email"@) is None {
        DecodeError::MissingField(ProfileField::Email)
    } else if str_field(m, "username"@) is None {
        DecodeError::MissingField(ProfileField::Username)
    } else if map_field(m, "settings"@) is None {
        DecodeError::MissingField(ProfileField::Settings)
    } else if !settings_decodable(map_field(m, "settings"@)->0) {
        DecodeError::MissingField(ProfileField::Mfa)
    } else if map_field(m, "verification"@) is None {
        DecodeError::MissingField(ProfileField::Verification)
    } else {
        DecodeError::MissingField(ProfileField::Updated)
    }
}

/// The record keys are pairwise distinct within each map that uses them.
pub proof fn lemma_keys_distinct()
    ensures
        "id"@ != "email"@,
        "id"@ != "username"@,
        "id"@ != "phone"@,
        "id"@ != "settings"@,
        "id"@ != "verification"@,
        "id"@ != "updated"@,
        "email"@ != "username"@,
        "email"@ != "phone"@,
        "email"@ != "settings"@,
        "email"@ != "verification"@,
        "email"@ != "updated"@,
        "username"@ != "phone"@,
        "username"@ != "settings"@,
        "username"@ != "verification"@,
        "username"@ != "updated"@,
        "phone"@ != "settings"@,
        "phone"@ != "verification"@,
        "phone"@ != "updated"@,
        "settings"@ != "verification"@,
        "settings"@ != "updated"@,
        "verification"@ != "updated"@,
        "mfa"@ != "theme"@,
        "mfa"@ != "subscription"@,
        "theme"@ != "subscription"@,
        "enabled"@ != "method"@,
        "email"@ != "terms"@,
        "email"@ != "status"@,
        "phone"@ != "terms"@,
        "phone"@ != "status"@,
        "terms"@ != "status"@,
{
    reveal_strlit("id");
    reveal_strlit("email");
    reveal_strlit("phone");
    reveal_strlit("username");
    reveal_strlit("settings");
    reveal_strlit("verification");
    reveal_strlit("updated");
    reveal_strlit("mfa");
    reveal_strlit("theme");
    reveal_strlit("subscription");
    reveal_strlit("enabled");
    reveal_strlit("method");
    reveal_strlit("terms");
    reveal_strlit("status");
    assert("id"@[0] == 'i' && "email"@[0] == 'e' && "phone"@[0] == 'p');
    assert("username"@[0] == 'u' && "settings"@[0] == 's' && "verification"@[0] == 'v');
    assert("updated"@[0] == 'u' && "username"@[1] == 's' && "updated"@[1] == 'p');
    assert("mfa"@[0] == 'm' && "theme"@[0] == 't' && "subscription"@[0] == 's');
    assert("enabled"@[0] == 'e' && "method"@[0] == 'm');
    assert("terms"@[0] == 't' && "status"@[0] == 's');
}

/// The settings of a profile as one stored attribute value: a nested map.
pub fn settings_to_attribute_value(settings: &Settings) -> (r: AttrVal)
    ensures
        r matches AttrVal::M(sm) && settings_encodes(sm, settings@),
{
    let mut mfa_map = AttrMap::new();
    mfa_map.push("enabled".to_owned(), AttrVal::B(settings.mfa.enabled));
    mfa_map.push("method".to_owned(), AttrVal::S(settings.mfa.method.clone()));
    let mut sm = AttrMap::new();
    sm.push("mfa".to_owned(), AttrVal::M(mfa_map));
    sm.push("theme".to_owned(), AttrVal::S(settings.theme.clone()));
    sm.push("subscription".to_owned(), AttrVal::S(settings.subscription.clone()));
    proof {
        lemma_keys_distinct();
    }
    AttrVal::M(sm)
}

/// A profile encoded into its stored attribute-map shape.
pub fn encode(p: &UserProfile) -> (m: AttrMap)
    ensures
        encodes(m, p@),
{
    let mut m = AttrMap::new();
    m.push("id".to_owned(), AttrVal::S(p.id.clone()));
    m.push("email".to_owned(), AttrVal::S(p.email.clone()));
    m.push("username".to_owned(), AttrVal::S(p.username.clone()));
    match &p.phone {
        Some(ph) => m.push("phone".to_owned(), AttrVal::S(ph.clone())),
        None => (),
    }
    m.push("settings".to_owned(), settings_to_attribute_value(&p.settings));
    let mut vm = AttrMap::new();
    vm.push("email".to_owned(), AttrVal::B(p.verification.email));
    vm.push("phone".to_owned(), AttrVal::B(p.verification.phone));
    vm.push("terms".to_owned(), AttrVal::B(p.verification.terms));
    vm.push("status".to_owned(), AttrVal::S(p.verification.status.clone()));
    m.push("verification".to_owned(), AttrVal::M(vm));
    m.push("updated".to_owned(), AttrVal::S(p.updated.clone()));
    proof {
        lemma_keys_distinct();
    }
    m
}

/// The settings sub-record read from its sub-map; only a missing or mistyped
/// `mfa` map fails, every leaf substitutes its default.
pub fn parse_settings(m: &AttrMap) -> (r: Result<Settings, DecodeError>)
    ensures
        r is Ok <==> settings_decodable(*m),
        r matches Ok(s) ==> s@ == spec_decoded_settings(*m),
        r matches Err(e) ==> e == DecodeError::MissingField(ProfileField::Mfa),
{
    let mfa_map = match m.get_m("mfa") {
        Some(mm) => mm,
        None => {
            return Err(DecodeError::MissingField(ProfileField::Mfa));
        },
    };
    let enabled = match mfa_map.get_b("enabled") {
        Some(b) => b,
        None => false,
    };
    let method = match mfa_map.get_s("method") {
        Some(s) => s.clone(),
        None => "none".to_owned(),
    };
    let theme = match m.get_s("theme") {
        Some(s) => s.clone(),
        None => "light".to_owned(),
    };
    let subscription = match m.get_s("subscription") {
        Some(s) => s.clone(),
        None => "FREE".to_owned(),
    };
    Ok(Settings { mfa: Mfa { enabled, method }, theme, subscription })
}

/// The verification sub-record read from its sub-map; every leaf substitutes
/// its default, so this never fails.
pub fn parse_verification(m: &AttrMap) -> (v: Verification)
    ensures
        v@ == spec_decoded_verification(*m),
{
    let email = match m.get_b("email") {
        Some(b) => b,
        None => false,
    };
    let phone = match m.get_b("phone") {
        Some(b) => b,
        None => false,
    };
    let terms = match m.get_b("terms") {
        Some(b) => b,
        None => false,
    };
    let status = match m.get_s("status") {
        Some(s) => s.clone(),
        None => "UNKNOWN".to_owned(),
    };
    Verification { email, phone, terms, status }
}

/// A stored record decoded back into a profile. Fails with the first missing
/// load-bearing field, in the documented check order; tolerates any
/// extraneous keys.
pub fn decode(m: &AttrMap) -> (r: Result<UserProfile, DecodeError>)
    ensures
        r is Ok <==> decodable(*m),
        r matches Ok(p) ==> p@ == spec_decoded(*m),
        r matches Err(e) ==> e == spec_decode_err(*m),
{
    let id = match m.get_s("id") {
        Some(s) => s.clone(),
        None => {
            return Err(DecodeError::MissingField(ProfileField::Id));
        },
    };
    let email = match m.get_s("email") {
        Some(s) => s.clone(),
        None => {
            return Err(DecodeError::MissingField(ProfileField::Email));
        },
    };
    let phone = match m.get_s("phone") {
        Some(s) => Some(s.clone()),
        None => None,
    };
    let username = match m.get_s("username") {
        Some(s) => s.clone(),
        None => {
            return Err(DecodeError::MissingField(ProfileField::Username));
        },
    };
    let settings_map = match m.get_m("settings") {
        Some(mm) => mm,
        None => {
            return Err(DecodeError::MissingField(ProfileField::Settings));
        },
    };
    let settings = match parse_settings(settings_map) {
        Ok(s) => s,
        Err(e) => {
            return Err(e);
        },
    };
    let verification_map = match m.get_m("verification") {
        Some(mm) => mm,
        None => {
            return Err(DecodeError::MissingField(ProfileField::Verification));
        },
    };
    let verification = parse_verification(verification_map);
    let updated = match m.get_s("updated") {
        Some(s) => s.clone(),
        None => {
            return Err(DecodeError::MissingField(ProfileField::Updated));
        },
    };
    Ok(UserProfile { id, email, phone, username, settings, verification, updated })
}

/// Round trip: a record encoded from a profile always decodes, and decodes
/// back to that profile, whether or not a phone is present.
pub proof fn lemma_encode_decode_roundtrip(m: AttrMap, p: ProfileModel)
    requires
        encodes(m, p),
    ensures
        decodable(m),
        spec_decoded(m) == p,
{
    assert(spec_decoded(m).settings =~= p.settings);
    assert(spec_decoded(m).verification =~= p.verification);
    assert(spec_decoded(m) =~= p);
}

/// Defaulting: a decodable record missing `settings.theme` decodes to theme
/// "light", missing `settings.subscription` to "FREE", and missing
/// `verification.status` to "UNKNOWN".
pub proof fn lemma_decode_defaults(m: AttrMap)
    requires
        decodable(m),
    ensures
        str_field(map_field(m, "settings"@)->0, "theme"@) is None ==> spec_decoded(
            m,
        ).settings.theme == "light"@,
        str_field(map_field(m, "settings"@)->0, "subscription"@) is None ==> spec_decoded(
            m,
        ).settings.subscription == "FREE"@,
        str_field(map_field(m, "verification"@)->0, "status"@) is None ==> spec_decoded(
            m,
        ).verification.status == "UNKNOWN"@,
{
}

/// A record missing any load-bearing top-level field does not decode.
pub proof fn lemma_decode_missing_required_fails(m: AttrMap)
    requires
        str_field(m, "id"@) is None || str_field(m, "email"@) is None || str_field(m, "username"@)
            is None || map_field(m, "settings"@) is None || map_field(m, "verification"@) is None,
    ensures
        !decodable(m),
{
}

/// A record carrying every load-bearing field — strings under `id`, `email`,
/// `username` and `updated`, a `settings` map with its `mfa` map, and a
/// `verification` map — decodes even with no `phone` entry, and the decoded
/// phone is then absent.
pub proof fn lemma_decode_only_phone_missing(m: AttrMap)
    requires
        str_field(m, "id"@) is Some,
        str_field(m, "email"@) is Some,
        str_field(m, "username"@) is Some,
        match map_field(m, "settings"@) {
            Some(sm) => map_field(sm, "mfa"@) is Some,
            None => false,
        },
        map_field(m, "verification"@) is Some,
        str_field(m, "updated"@) is Some,
        assoc_get(m@, "phone"@) is None,
    ensures
        decodable(m),
        spec_decoded(m).phone is None,
{
}

} // verus!
