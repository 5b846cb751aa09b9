//! The profile entity, its sub-records, and the error kinds the library
//! reports. Each executable type has a ghost model over character sequences,
//! reached through `View`, that the contracts speak of.

use vstd::prelude::*;

verus! {

/// Multi-factor authentication settings of a profile.
#[derive(Debug, Clone, PartialEq, Eq)]
pub struct Mfa {
    pub enabled: bool,
    pub method: String,
}

/// User-adjustable settings of a profile.
#[derive(Debug, Clone, PartialEq, Eq)]
pub struct Settings {
    pub mfa: Mfa,
    pub theme: String,
    pub subscription: String,
}

/// Verification marks of a profile.
#[derive(Debug, Clone, PartialEq, Eq)]
pub struct Verification {
    pub email: bool,
    pub phone: bool,
    pub terms: bool,
    pub status: String,
}

/// The canonical user profile entity.
#[derive(Debug, Clone, PartialEq, Eq)]
pub struct UserProfile {
    pub id: String,
    pub email: String,
    pub phone: Option<String>,
    pub username: String,
    pub settings: Settings,
    pub verification: Verification,
    pub updated: String,
}

/// Ghost model of `Mfa`.
#[verifier::ext_equal]
pub struct MfaModel {
    pub enabled: bool,
    pub method: Seq<char>,
}

/// Ghost model of `Settings`.
#[verifier::ext_equal]
pub struct SettingsModel {
    pub mfa: MfaModel,
    pub theme: Seq<char>,
    pub subscription: Seq<char>,
}

/// Ghost model of `Verification`.
#[verifier::ext_equal]
pub struct VerificationModel {
    pub email: bool,
    pub phone: bool,
    pub terms: bool,
    pub status: Seq<char>,
}

/// Ghost model of `UserProfile`.
#[verifier::ext_equal]
pub struct ProfileModel {
    pub id: Seq<char>,
    pub email: Seq<char>,
    pub phone: Option<Seq<char>>,
    pub username: Seq<char>,
    pub settings: SettingsModel,
    pub verification: VerificationModel,
    pub updated: Seq<char>,
}

impl View for Mfa {
    type V = MfaModel;

    open spec fn view(&self) -> MfaModel {
        MfaModel { enabled: self.enabled, method: self.method@ }
    }
}

impl View for Settings {
    type V = SettingsModel;

    open spec fn view(&self) -> SettingsModel {
        SettingsModel { mfa: self.mfa@, theme: self.theme@, subscription: self.subscription@ }
    }
}

impl View for Verification {
    type V = VerificationModel;

    open spec fn view(&self) -> VerificationModel {
        VerificationModel {
            email: self.email,
            phone: self.phone,
            terms: self.terms,
            status: self.status@,
        }
    }
}

/// View of an optional string as an optional character sequence.
pub open spec fn opt_view(o: Option<String>) -> Option<Seq<char>> {
    match o {
        Some(s) => Some(s@),
        None => None,
    }
}

impl View for UserProfile {
    type V = ProfileModel;

    open spec fn view(&self) -> ProfileModel {
        ProfileModel {
            id: self.id@,
            email: self.email@,
            phone: opt_view(self.phone),
            username: self.username@,
            settings: self.settings@,
            verification: self.verification@,
            updated: self.updated@,
        }
    }
}

/// The load-bearing parts of a stored record; decoding fails when one is
/// absent or has the wrong shape.
#[derive(Debug, Clone, Copy, PartialEq, Eq, Structural)]
pub enum ProfileField {
    Id,
    Email,
    Username,
    Settings,
    Mfa,
    Verification,
    Updated,
}

/// Why a stored record could not be decoded.
#[derive(Debug, Clone, Copy, PartialEq, Eq, Structural)]
pub enum DecodeError {
    MissingField(ProfileField),
}

/// The message a decode failure surfaces, matching the store-facing wording.
pub open spec fn spec_decode_error_message(e: DecodeError) -> Seq<char> {
    match e {
        DecodeError::MissingField(f) => match f {
            ProfileField::Id => "Missing id"@,
            ProfileField::Email => "Missing email"@,
            ProfileField::Username => "Missing username"@,
            ProfileField::Settings => "Missing settings"@,
            ProfileField::Mfa => "Missing mfa in settings"@,
            ProfileField::Verification => "Missing verification"@,
            ProfileField::Updated => "Missing updated"@,
        },
    }
}

impl DecodeError {
    /// The human-readable description of this failure.
    pub fn message(&self) -> (r: String)
        ensures
            r@ == spec_decode_error_message(*self),
    {
        match self {
            DecodeError::MissingField(f) => match f {
                ProfileField::Id => "Missing id".to_owned(),
                ProfileField::Email => "Missing email".to_owned(),
                ProfileField::Username => "Missing username".to_owned(),
                ProfileField::Settings => "Missing settings".to_owned(),
                ProfileField::Mfa => "Missing mfa in settings".to_owned(),
                ProfileField::Verification => "Missing verification".to_owned(),
                ProfileField::Updated => "Missing updated".to_owned(),
            },
        }
    }
}

/// The error kinds an operation can surface.
#[derive(Debug, Clone, PartialEq, Eq)]
pub enum ApiError {
    /// A required setting is absent; fatal to the invocation.
    Configuration(String),
    /// A malformed request body, a missing path parameter, or a stored record
    /// missing a load-bearing field.
    InvalidInput(String),
    /// An identity-provider or store call failed.
    ExternalService(String),
}

} // verus!
