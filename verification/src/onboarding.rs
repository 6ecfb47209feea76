//! Decisions of the onboarding account step.
use vstd::prelude::*;
use crate::queries::AddOfflineAccountKeys;
use crate::version::{trim, trimmed};
use crate::text::{chars_of, string_from_chars};

verus! {

/// The user name typed into the offline form, as it is validated and
/// submitted: without surrounding whitespace.
pub fn offline_username(input: &str) -> (name: String)
    ensures
        name@ == trimmed(input@),
{
    trim(input)
}

/// What submitting the offline form does.
#[derive(Debug)]
pub enum OfflineFormOutcome {
    /// Show this validation error and stay on the form.
    ShowError(String),
    /// Clear the error, add an offline account with these keys and leave
    /// the form.
    Submit(AddOfflineAccountKeys),
}

/// Decides what submitting the offline form does, given the (trimmed) user
/// name and the outcome of validating it (the validator's message when it
/// refused the name).
pub fn offline_form_submit(name: String, validation: Result<(), String>) -> (o: OfflineFormOutcome)
    ensures
        match validation {
            Err(message) => o == OfflineFormOutcome::ShowError(message),
            Ok(()) => o == OfflineFormOutcome::Submit(AddOfflineAccountKeys { username: name }),
        },
{
    match validation {
        Err(message) => OfflineFormOutcome::ShowError(message),
        Ok(()) => OfflineFormOutcome::Submit(AddOfflineAccountKeys { username: name }),
    }
}

/// The label of the button that creates an offline account.
pub fn create_account_label(pending: bool) -> (l: String)
    ensures
        l@ == if pending {
            "Creating account..."@
        } else {
            "Create Offline Account"@
        },
{
    if pending {
        string_from_chars(chars_of("Creating account...").as_slice())
    } else {
        string_from_chars(chars_of("Create Offline Account").as_slice())
    }
}

/// The label of the Microsoft sign-in button.
pub fn microsoft_sign_in_label(pending: bool) -> (l: String)
    ensures
        l@ == if pending {
            "Signing in..."@
        } else {
            "Sign in with Microsoft"@
        },
{
    if pending {
        string_from_chars(chars_of("Signing in...").as_slice())
    } else {
        string_from_chars(chars_of("Sign in with Microsoft").as_slice())
    }
}

/// Whether the onboarding may continue past the account step: only once
/// there is an account.
pub fn can_continue<A>(account: &Option<A>) -> (b: bool)
    ensures
        b == account is Some,
{
    account.is_some()
}

} // verus!
