use profile_core::message::{customize, display_name, CustomMessage, TriggerSource, EMAIL_PREFIX};

#[test]
fn test_trigger_source_from_string() {
    assert_eq!(
        TriggerSource::from("CustomMessage_SignUp"),
        TriggerSource::CustomMessageSignUp
    );
    assert_eq!(
        TriggerSource::from("CustomMessage_ResendCode"),
        TriggerSource::CustomMessageResendCode
    );
    assert_eq!(TriggerSource::from("Unknown"), TriggerSource::Unknown);
}

#[test]
fn test_trigger_source_remaining_tokens() {
    assert_eq!(
        TriggerSource::from("CustomMessage_ForgotPassword"),
        TriggerSource::CustomMessageForgotPassword
    );
    assert_eq!(
        TriggerSource::from("CustomMessage_UpdateUserAttribute"),
        TriggerSource::CustomMessageUpdateUserAttribute
    );
    assert_eq!(
        TriggerSource::from("CustomMessage_VerifyUserAttribute"),
        TriggerSource::CustomMessageVerifyUserAttribute
    );
    assert_eq!(TriggerSource::from(""), TriggerSource::Unknown);
}

#[test]
fn test_display_name() {
    assert_eq!(display_name(Some("ada")), "ada");
    assert_eq!(display_name(None), "User");
}

#[test]
fn test_customize_signup() {
    let cm: CustomMessage =
        customize(TriggerSource::CustomMessageSignUp, "ada").expect("a known trigger customizes");
    assert_eq!(
        cm.sms,
        "Please use verification code '{####}' to validate your phone number."
    );
    assert_eq!(cm.subject, "webapp verification");
    assert!(cm.email.starts_with(EMAIL_PREFIX));
    assert!(cm.email.contains("Hey ada,"));
    assert!(cm.email.contains("Welcome to webapp!"));
    assert!(cm.email.contains("{####}"));
    assert!(cm.email.ends_with("</body>"));
}

#[test]
fn test_customize_resend_and_reset() {
    let cm = customize(TriggerSource::CustomMessageResendCode, "ada").unwrap();
    assert_eq!(cm.sms, "Your new verification code is '{####}'.");
    assert_eq!(cm.subject, "webapp - Resend Code");

    let cm = customize(TriggerSource::CustomMessageForgotPassword, "ada").unwrap();
    assert_eq!(cm.sms, "Your password reset code is '{####}'.");
    assert_eq!(cm.subject, "webapp - Password Reset");

    let cm = customize(TriggerSource::CustomMessageUpdateUserAttribute, "ada").unwrap();
    assert_eq!(cm.subject, "webapp - Update Attribute");

    let cm = customize(TriggerSource::CustomMessageVerifyUserAttribute, "ada").unwrap();
    assert_eq!(cm.subject, "webapp - Verify Attribute");
}

#[test]
fn test_customize_unknown_changes_nothing() {
    assert!(customize(TriggerSource::Unknown, "ada").is_none());
}
