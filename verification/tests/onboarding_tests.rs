use tcc_launcher::onboarding::{
    can_continue, create_account_label, microsoft_sign_in_label, offline_form_submit,
    offline_username, OfflineFormOutcome,
};
use tcc_launcher::version::trim;

#[test]
fn trim_strips_unicode_whitespace() {
    assert_eq!(trim("  Steve \t\n"), "Steve");
    assert_eq!(trim("\u{a0}Alex\u{2003}"), "Alex");
    assert_eq!(trim(" a b "), "a b");
    assert_eq!(trim("   "), "");
}

#[test]
fn offline_name_is_trimmed() {
    assert_eq!(offline_username("  Notch  "), "Notch");
}

#[test]
fn offline_submit_outcomes() {
    match offline_form_submit("Notch".to_string(), Ok(())) {
        OfflineFormOutcome::Submit(k) => assert_eq!(k.username, "Notch"),
        other => panic!("unexpected {:?}", other),
    }
    match offline_form_submit("x".to_string(), Err("too short".to_string())) {
        OfflineFormOutcome::ShowError(m) => assert_eq!(m, "too short"),
        other => panic!("unexpected {:?}", other),
    }
}

#[test]
fn labels_and_continue() {
    assert_eq!(create_account_label(true), "Creating account...");
    assert_eq!(create_account_label(false), "Create Offline Account");
    assert_eq!(microsoft_sign_in_label(true), "Signing in...");
    assert_eq!(microsoft_sign_in_label(false), "Sign in with Microsoft");
    assert!(can_continue(&Some(1)));
    assert!(!can_continue::<u8>(&None));
}
