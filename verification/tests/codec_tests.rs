use profile_core::attr::{AttrMap, AttrVal};
use profile_core::codec::{decode, encode, parse_settings, parse_verification, settings_to_attribute_value};
use profile_core::types::{DecodeError, Mfa, ProfileField, Settings, UserProfile, Verification};

fn sample_settings() -> Settings {
    Settings {
        mfa: Mfa { enabled: true, method: "totp".to_string() },
        theme: "dark".to_string(),
        subscription: "PRO".to_string(),
    }
}

fn sample_profile(phone: Option<&str>) -> UserProfile {
    UserProfile {
        id: "user-1".to_string(),
        email: "a@b.c".to_string(),
        phone: phone.map(|p| p.to_string()),
        username: "ada".to_string(),
        settings: sample_settings(),
        verification: Verification {
            email: true,
            phone: false,
            terms: true,
            status: "CONFIRMED".to_string(),
        },
        updated: "2024-01-01T00:00:00+00:00".to_string(),
    }
}

#[test]
fn test_settings_to_attribute_value() {
    let settings = Settings {
        mfa: Mfa {
            enabled: true,
            method: "totp".to_string(),
        },
        theme: "dark".to_string(),
        subscription: "PRO".to_string(),
    };

    let av = settings_to_attribute_value(&settings);
    assert!(av.as_m().is_some());
}

#[test]
fn test_roundtrip_with_phone() {
    let p = sample_profile(Some("+15551234"));
    let m = encode(&p);
    assert_eq!(decode(&m), Ok(p));
}

#[test]
fn test_roundtrip_without_phone() {
    let p = sample_profile(None);
    let m = encode(&p);
    let back = decode(&m).expect("an encoded profile must decode");
    assert_eq!(back.phone, None);
    assert_eq!(back, p);
}

#[test]
fn test_encode_writes_documented_keys() {
    let p = sample_profile(None);
    let m = encode(&p);
    assert_eq!(m.get_s("id"), Some(&"user-1".to_string()));
    assert_eq!(m.get_s("email"), Some(&"a@b.c".to_string()));
    assert_eq!(m.get_s("username"), Some(&"ada".to_string()));
    assert!(m.get("phone").is_none());
    assert!(m.get_m("settings").is_some());
    assert!(m.get_m("verification").is_some());
    assert_eq!(m.get_s("updated"), Some(&"2024-01-01T00:00:00+00:00".to_string()));
    let sm = m.get_m("settings").unwrap();
    assert_eq!(sm.get_s("theme"), Some(&"dark".to_string()));
    assert_eq!(sm.get_s("subscription"), Some(&"PRO".to_string()));
    let mfa = sm.get_m("mfa").unwrap();
    assert_eq!(mfa.get_b("enabled"), Some(true));
    assert_eq!(mfa.get_s("method"), Some(&"totp".to_string()));
}

fn full_map() -> AttrMap {
    encode(&sample_profile(Some("+15551234")))
}

fn map_without(key: &str) -> AttrMap {
    let full = full_map();
    let mut m = AttrMap::new();
    for (k, v) in full.entries {
        if k != key {
            m.push(k, v);
        }
    }
    m
}

#[test]
fn test_decode_missing_required_fields_fail() {
    assert_eq!(
        decode(&map_without("id")),
        Err(DecodeError::MissingField(ProfileField::Id))
    );
    assert_eq!(
        decode(&map_without("email")),
        Err(DecodeError::MissingField(ProfileField::Email))
    );
    assert_eq!(
        decode(&map_without("username")),
        Err(DecodeError::MissingField(ProfileField::Username))
    );
    assert_eq!(
        decode(&map_without("settings")),
        Err(DecodeError::MissingField(ProfileField::Settings))
    );
    assert_eq!(
        decode(&map_without("verification")),
        Err(DecodeError::MissingField(ProfileField::Verification))
    );
    assert_eq!(
        decode(&map_without("updated")),
        Err(DecodeError::MissingField(ProfileField::Updated))
    );
}

#[test]
fn test_decode_missing_phone_succeeds() {
    let decoded = decode(&map_without("phone")).expect("phone is optional");
    assert_eq!(decoded.phone, None);
}

#[test]
fn test_decode_defaults_missing_leaves() {
    // settings carries only its mfa map; verification is empty
    let mut settings = AttrMap::new();
    settings.push("mfa".to_string(), AttrVal::M(AttrMap::new()));
    let mut m = AttrMap::new();
    m.push("id".to_string(), AttrVal::S("u".to_string()));
    m.push("email".to_string(), AttrVal::S("e@x".to_string()));
    m.push("username".to_string(), AttrVal::S("u".to_string()));
    m.push("settings".to_string(), AttrVal::M(settings));
    m.push("verification".to_string(), AttrVal::M(AttrMap::new()));
    m.push("updated".to_string(), AttrVal::S("t".to_string()));
    let p = decode(&m).expect("all load-bearing fields are present");
    assert_eq!(p.settings.theme, "light");
    assert_eq!(p.settings.subscription, "FREE");
    assert_eq!(p.settings.mfa.enabled, false);
    assert_eq!(p.settings.mfa.method, "none");
    assert_eq!(p.verification.status, "UNKNOWN");
    assert_eq!(p.verification.email, false);
    assert_eq!(p.verification.phone, false);
    assert_eq!(p.verification.terms, false);
}

#[test]
fn test_decode_missing_mfa_fails() {
    // settings present but without its mfa map
    let mut settings = AttrMap::new();
    settings.push("theme".to_string(), AttrVal::S("dark".to_string()));
    let mut m = AttrMap::new();
    m.push("id".to_string(), AttrVal::S("u".to_string()));
    m.push("email".to_string(), AttrVal::S("e@x".to_string()));
    m.push("username".to_string(), AttrVal::S("u".to_string()));
    m.push("settings".to_string(), AttrVal::M(settings));
    m.push("verification".to_string(), AttrVal::M(AttrMap::new()));
    m.push("updated".to_string(), AttrVal::S("t".to_string()));
    assert_eq!(decode(&m), Err(DecodeError::MissingField(ProfileField::Mfa)));
}

#[test]
fn test_decode_tolerates_extraneous_keys() {
    let mut m = full_map();
    m.push("extra".to_string(), AttrVal::S("ignored".to_string()));
    m.push("more".to_string(), AttrVal::B(true));
    let p = decode(&m).expect("extraneous keys must not fail a decode");
    assert_eq!(p, sample_profile(Some("+15551234")));
}

#[test]
fn test_decode_wrong_type_counts_as_missing() {
    let full = full_map();
    let mut m = AttrMap::new();
    for (k, v) in full.entries {
        if k == "id" {
            m.push(k, AttrVal::B(true));
        } else {
            m.push(k, v);
        }
    }
    assert_eq!(decode(&m), Err(DecodeError::MissingField(ProfileField::Id)));
}

#[test]
fn test_parse_settings_and_verification_defaults() {
    let mut sm = AttrMap::new();
    sm.push("mfa".to_string(), AttrVal::M(AttrMap::new()));
    let s = parse_settings(&sm).expect("mfa map is present");
    assert_eq!(s.theme, "light");
    assert_eq!(s.subscription, "FREE");

    let no_mfa = AttrMap::new();
    assert_eq!(
        parse_settings(&no_mfa),
        Err(DecodeError::MissingField(ProfileField::Mfa))
    );

    let v = parse_verification(&AttrMap::new());
    assert_eq!(v.status, "UNKNOWN");
    assert!(!v.email && !v.phone && !v.terms);
}

#[test]
fn test_decode_error_messages() {
    assert_eq!(
        DecodeError::MissingField(ProfileField::Id).message(),
        "Missing id"
    );
    assert_eq!(
        DecodeError::MissingField(ProfileField::Mfa).message(),
        "Missing mfa in settings"
    );
}
