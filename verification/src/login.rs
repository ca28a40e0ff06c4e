//! Launching at login: whether it counts as on, and what a toggle asks of
//! the system's login-item service.

use vstd::prelude::*;

verus! {

/// The status that the system's login-item service reports for this app.
#[derive(Clone, Copy, Debug, PartialEq, Eq, Structural)]
pub enum LoginStatus {
    /// Not registered as a login item.
    NotRegistered,
    /// Registered and ready to launch at login.
    Enabled,
    /// Registered, but waiting for the user's approval in System Settings.
    RequiresApproval,
    /// The service could not find the app.
    NotFound,
}

/// What a toggle asks the login-item service to do.
#[derive(Clone, Copy, Debug, PartialEq, Eq, Structural)]
pub enum LoginAction {
    Register,
    Unregister,
}

/// Launching at login is on when the user has turned it on, whether or not
/// the system has approved it yet.
pub open spec fn login_on(status: LoginStatus) -> bool {
    status == LoginStatus::Enabled || status == LoginStatus::RequiresApproval
}

/// Whether launching at login counts as on (and the menu item is checked).
pub fn is_enabled(status: LoginStatus) -> (on: bool)
    ensures
        on == login_on(status),
{
    match status {
        LoginStatus::Enabled => true,
        LoginStatus::RequiresApproval => true,
        _ => false,
    }
}

/// The toggle: unregister when on, register otherwise.
pub fn toggle(status: LoginStatus) -> (action: LoginAction)
    ensures
        action == (if login_on(status) { LoginAction::Unregister } else { LoginAction::Register }),
{
    if is_enabled(status) {
        LoginAction::Unregister
    } else {
        LoginAction::Register
    }
}

} // verus!
