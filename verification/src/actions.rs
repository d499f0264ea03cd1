//! The settings-app actions the language-bar menu offers.
use vstd::prelude::*;

verus! {

/// What the menu asks the settings app to do.
#[derive(Clone, Copy, Debug, PartialEq, Eq, Structural)]
pub enum AppAction {
    OpenApp,
    Redeploy,
}

impl AppAction {
    /// The URI the settings app is launched with.
    pub fn uri(self) -> (uri: &'static str)
        ensures
            uri@ == match self {
                AppAction::OpenApp => "keytao://ime/open"@,
                AppAction::Redeploy => "keytao://ime/redeploy"@,
            },
    {
        match self {
            AppAction::OpenApp => "keytao://ime/open",
            AppAction::Redeploy => "keytao://ime/redeploy",
        }
    }
}

} // verus!
