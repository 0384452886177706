//! The identity that a request is served under once it has authenticated.

use vstd::prelude::*;

verus! {

/// The role that opens the administrative routes.
pub const ADMIN_ROLE: &'static str = "admin";

/// Who a request acts for. Made afresh for every request and never stored.
#[derive(Clone, Debug, PartialEq, Eq)]
pub struct AuthenticatedPrincipal {
    pub id: String,
    pub role: Option<String>,
}

/// A principal as contracts speak of it.
pub struct PrincipalView {
    pub id: Seq<char>,
    pub role: Option<Seq<char>>,
}

impl View for AuthenticatedPrincipal {
    type V = PrincipalView;

    open spec fn view(&self) -> PrincipalView {
        PrincipalView {
            id: self.id@,
            role: match self.role {
                Some(role) => Some(role@),
                None => None,
            },
        }
    }
}

impl PrincipalView {
    /// The principal holds the administrator's role, spelled exactly.
    pub open spec fn is_admin(self) -> bool {
        self.role == Some(ADMIN_ROLE@)
    }
}

} // verus!
