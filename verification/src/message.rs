//! The message customizer: a lifecycle trigger kind and a display name decide
//! the outbound SMS text, mail subject and mail body. No state and no side
//! effects; an unknown trigger leaves the event untouched.

use vstd::prelude::*;
use vstd::string::StringExecFns;

use crate::attr::str_eq;

verus! {

/// The lifecycle triggers that customize an outbound message.
#[derive(Debug, Clone, Copy, PartialEq, Eq, Structural)]
pub enum TriggerSource {
    CustomMessageSignUp,
    CustomMessageResendCode,
    CustomMessageForgotPassword,
    CustomMessageUpdateUserAttribute,
    CustomMessageVerifyUserAttribute,
    Unknown,
}

/// Which trigger a source token names.
pub open spec fn spec_trigger_source(s: Seq<char>) -> TriggerSource {
    if s == "CustomMessage_SignUp"@ {
        TriggerSource::CustomMessageSignUp
    } else if s == "CustomMessage_ResendCode"@ {
        TriggerSource::CustomMessageResendCode
    } else if s == "CustomMessage_ForgotPassword"@ {
        TriggerSource::CustomMessageForgotPassword
    } else if s == "CustomMessage_UpdateUserAttribute"@ {
        TriggerSource::CustomMessageUpdateUserAttribute
    } else if s == "CustomMessage_VerifyUserAttribute"@ {
        TriggerSource::CustomMessageVerifyUserAttribute
    } else {
        TriggerSource::Unknown
    }
}

impl From<&str> for TriggerSource {
    fn from(s: &str) -> (r: TriggerSource) {
        if str_eq(s, "CustomMessage_SignUp") {
            TriggerSource::CustomMessageSignUp
        } else if str_eq(s, "CustomMessage_ResendCode") {
            TriggerSource::CustomMessageResendCode
        } else if str_eq(s, "CustomMessage_ForgotPassword") {
            TriggerSource::CustomMessageForgotPassword
        } else if str_eq(s, "CustomMessage_UpdateUserAttribute") {
            TriggerSource::CustomMessageUpdateUserAttribute
        } else if str_eq(s, "CustomMessage_VerifyUserAttribute") {
            TriggerSource::CustomMessageVerifyUserAttribute
        } else {
            TriggerSource::Unknown
        }
    }
}

impl vstd::std_specs::convert::FromSpecImpl<&str> for TriggerSource {
    open spec fn obeys_from_spec() -> bool {
        true
    }

    open spec fn from_spec(s: &str) -> TriggerSource {
        spec_trigger_source(s@)
    }
}

/// The name a message greets: the attribute handed in, or "User".
pub fn display_name(name_attr: Option<&str>) -> (r: String)
    ensures
        r@ == match name_attr {
            Some(n) => n@,
            None => "User"@,
        },
{
    match name_attr {
        Some(n) => n.to_owned(),
        None => "User".to_owned(),
    }
}

/// The common opening of every customized mail body, up to the greeted name.
pub const EMAIL_PREFIX: &'static str = "<body style=\"user-select: none; background-color: #f9f9f9; max-width: 64rem; margin-left: auto; margin-right: auto; font-family: 'Source Sans Pro',monospace;\">\n<h1 style=\"color: #ffcce0;\">webapp</h1>\n<div>\n    <p>Hey ";

/// The SMS text of a trigger. The provider substitutes the code for the
/// "{####}" placeholder.
pub open spec fn spec_sms_message(t: TriggerSource) -> Seq<char> {
    match t {
        TriggerSource::CustomMessageSignUp => "Please use verification code '{####}' to validate your phone number."@,
        TriggerSource::CustomMessageResendCode => "Your new verification code is '{####}'."@,
        TriggerSource::CustomMessageForgotPassword => "Your password reset code is '{####}'."@,
        TriggerSource::CustomMessageUpdateUserAttribute => "Your attribute update verification code is '{####}'."@,
        TriggerSource::CustomMessageVerifyUserAttribute => "Your attribute verification code is '{####}'."@,
        TriggerSource::Unknown => Seq::empty(),
    }
}

/// The mail subject of a trigger.
pub open spec fn spec_email_subject(t: TriggerSource) -> Seq<char> {
    match t {
        TriggerSource::CustomMessageSignUp => "webapp verification"@,
        TriggerSource::CustomMessageResendCode => "webapp - Resend Code"@,
        TriggerSource::CustomMessageForgotPassword => "webapp - Password Reset"@,
        TriggerSource::CustomMessageUpdateUserAttribute => "webapp - Update Attribute"@,
        TriggerSource::CustomMessageVerifyUserAttribute => "webapp - Verify Attribute"@,
        TriggerSource::Unknown => Seq::empty(),
    }
}

/// The rest of the mail body after the greeted name, per trigger.
pub open spec fn spec_email_tail(t: TriggerSource) -> Seq<char> {
    match t {
        TriggerSource::CustomMessageSignUp => ",</p><br><br>\n</div>\n<div>\n    <p>Welcome to webapp!</p>\n</div>\n<div>\n    <p>\n        Please use this confirmation code to finish your onboarding, <code style=\"user-select: text; font-weight: 800; font-size: 1.5rem; line-height: 2rem;\">{####}</code>.\n    </p>\n</div>\nThanks,<br>\n:)<br>\n</body>"@,
        TriggerSource::CustomMessageResendCode => ",</p><br><br>\n</div>\n<div>\n    <p>Your new verification code is: <code style=\"user-select: text; font-weight: 800; font-size: 1.5rem; line-height: 2rem;\">{####}</code>.</p>\n</div>\nThanks,<br>\n:)<br>\n</body>"@,
        TriggerSource::CustomMessageForgotPassword => ",</p><br><br>\n</div>\n<div>\n    <p>Your password reset code is: <code style=\"user-select: text; font-weight: 800; font-size: 1.5rem; line-height: 2rem;\">{####}</code>.</p>\n</div>\nThanks,<br>\n:)<br>\n</body>"@,
        TriggerSource::CustomMessageUpdateUserAttribute => ",</p><br><br>\n</div>\n<div>\n    <p>Your attribute update verification code is: <code style=\"user-select: text; font-weight: 800; font-size: 1.5rem; line-height: 2rem;\">{####}</code>.</p>\n</div>\nThanks,<br>\n:)<br>\n</body>"@,
        TriggerSource::CustomMessageVerifyUserAttribute => ",</p><br><br>\n</div>\n<div>\n    <p>Your attribute verification code is: <code style=\"user-select: text; font-weight: 800; font-size: 1.5rem; line-height: 2rem;\">{####}</code>.</p>\n</div>\nThanks,<br>\n:)<br>\n</body>"@,
        TriggerSource::Unknown => Seq::empty(),
    }
}

/// The mail body of a trigger: the common opening, the greeted name, and the
/// trigger's tail.
pub open spec fn spec_email_message(t: TriggerSource, username: Seq<char>) -> Seq<char> {
    EMAIL_PREFIX@ + username + spec_email_tail(t)
}

/// One customized outbound message.
#[derive(Debug, Clone, PartialEq, Eq)]
pub struct CustomMessage {
    pub sms: String,
    pub subject: String,
    pub email: String,
}

fn email_body(username: &str, tail: &str) -> (r: String)
    ensures
        r@ == EMAIL_PREFIX@ + username@ + tail@,
{
    let mut e = EMAIL_PREFIX.to_owned();
    e.append(username);
    e.append(tail);
    e
}

/// The customized message of a trigger, greeting `username`; an unknown
/// trigger customizes nothing.
pub fn customize(trigger: TriggerSource, username: &str) -> (r: Option<CustomMessage>)
    ensures
        r is Some <==> trigger != TriggerSource::Unknown,
        r matches Some(cm) ==> (cm.sms@ == spec_sms_message(trigger) && (cm.subject@
            == spec_email_subject(trigger) && cm.email@ == spec_email_message(
            trigger,
            username@,
        ))),
{
    match trigger {
        TriggerSource::CustomMessageSignUp => Some(
            CustomMessage {
                sms: "Please use verification code '{####}' to validate your phone number.".to_owned(),
                subject: "webapp verification".to_owned(),
                email: email_body(
                    username,
                    ",</p><br><br>\n</div>\n<div>\n    <p>Welcome to webapp!</p>\n</div>\n<div>\n    <p>\n        Please use this confirmation code to finish your onboarding, <code style=\"user-select: text; font-weight: 800; font-size: 1.5rem; line-height: 2rem;\">{####}</code>.\n    </p>\n</div>\nThanks,<br>\n:)<br>\n</body>",
                ),
            },
        ),
        TriggerSource::CustomMessageResendCode => Some(
            CustomMessage {
                sms: "Your new verification code is '{####}'.".to_owned(),
                subject: "webapp - Resend Code".to_owned(),
                email: email_body(
                    username,
                    ",</p><br><br>\n</div>\n<div>\n    <p>Your new verification code is: <code style=\"user-select: text; font-weight: 800; font-size: 1.5rem; line-height: 2rem;\">{####}</code>.</p>\n</div>\nThanks,<br>\n:)<br>\n</body>",
                ),
            },
        ),
        TriggerSource::CustomMessageForgotPassword => Some(
            CustomMessage {
                sms: "Your password reset code is '{####}'.".to_owned(),
                subject: "webapp - Password Reset".to_owned(),
                email: email_body(
                    username,
                    ",</p><br><br>\n</div>\n<div>\n    <p>Your password reset code is: <code style=\"user-select: text; font-weight: 800; font-size: 1.5rem; line-height: 2rem;\">{####}</code>.</p>\n</div>\nThanks,<br>\n:)<br>\n</body>",
                ),
            },
        ),
        TriggerSource::CustomMessageUpdateUserAttribute => Some(
            CustomMessage {
                sms: "Your attribute update verification code is '{####}'.".to_owned(),
                subject: "webapp - Update Attribute".to_owned(),
                email: email_body(
                    username,
                    ",</p><br><br>\n</div>\n<div>\n    <p>Your attribute update verification code is: <code style=\"user-select: text; font-weight: 800; font-size: 1.5rem; line-height: 2rem;\">{####}</code>.</p>\n</div>\nThanks,<br>\n:)<br>\n</body>",
                ),
            },
        ),
        TriggerSource::CustomMessageVerifyUserAttribute => Some(
            CustomMessage {
                sms: "Your attribute verification code is '{####}'.".to_owned(),
                subject: "webapp - Verify Attribute".to_owned(),
                email: email_body(
                    username,
                    ",</p><br><br>\n</div>\n<div>\n    <p>Your attribute verification code is: <code style=\"user-select: text; font-weight: 800; font-size: 1.5rem; line-height: 2rem;\">{####}</code>.</p>\n</div>\nThanks,<br>\n:)<br>\n</body>",
                ),
            },
        ),
        TriggerSource::Unknown => None,
    }
}

} // verus!
