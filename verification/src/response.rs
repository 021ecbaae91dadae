//! The per-address verification result that is cached and returned.

use vstd::prelude::*;
use crate::verdict::{MiscSignals, MyReachable, ProbeError, SmtpSignals};

verus! {

/// Mathematical model of a [`EmailCheckResponse`].
pub ghost struct ResponseModel {
    pub is_reachable: MyReachable,
    pub email: Seq<char>,
    pub is_disposable: Option<bool>,
    pub is_role_account: Option<bool>,
    pub can_connect_smtp: Option<bool>,
    pub has_full_inbox: Option<bool>,
    pub is_catch_all: Option<bool>,
    pub is_deliverable: Option<bool>,
    pub is_disabled: Option<bool>,
    pub is_banned: Option<bool>,
}

/// The verdict for one address, with the signals that produced it where
/// they were gathered; a signal field is `None` when the pipeline never
/// reached the step that computes it.
#[derive(Debug)]
pub struct EmailCheckResponse {
    pub is_reachable: MyReachable,
    pub email: String,
    pub is_disposable: Option<bool>,
    pub is_role_account: Option<bool>,
    pub can_connect_smtp: Option<bool>,
    pub has_full_inbox: Option<bool>,
    pub is_catch_all: Option<bool>,
    pub is_deliverable: Option<bool>,
    pub is_disabled: Option<bool>,
    pub is_banned: Option<bool>,
}

impl View for EmailCheckResponse {
    type V = ResponseModel;

    open spec fn view(&self) -> ResponseModel {
        ResponseModel {
            is_reachable: self.is_reachable,
            email: self.email@,
            is_disposable: self.is_disposable,
            is_role_account: self.is_role_account,
            can_connect_smtp: self.can_connect_smtp,
            has_full_inbox: self.has_full_inbox,
            is_catch_all: self.is_catch_all,
            is_deliverable: self.is_deliverable,
            is_disabled: self.is_disabled,
            is_banned: self.is_banned,
        }
    }
}

impl DeepView for EmailCheckResponse {
    type V = ResponseModel;

    open spec fn deep_view(&self) -> ResponseModel {
        self.view()
    }
}

/// The model of a response that carries a verdict and nothing else: the
/// shape of every pre-probe short circuit.
pub open spec fn bare_response(verdict: MyReachable, email: Seq<char>) -> ResponseModel {
    ResponseModel {
        is_reachable: verdict,
        email: email,
        is_disposable: None,
        is_role_account: None,
        can_connect_smtp: None,
        has_full_inbox: None,
        is_catch_all: None,
        is_deliverable: None,
        is_disabled: None,
        is_banned: None,
    }
}

/// The model of a fully assembled response: heuristic signals always
/// present, probe signals present exactly when the probe succeeded.
pub open spec fn full_response(
    email: Seq<char>,
    misc: MiscSignals,
    smtp: Result<SmtpSignals, ProbeError>,
    verdict: MyReachable,
) -> ResponseModel {
    ResponseModel {
        is_reachable: verdict,
        email: email,
        is_disposable: Some(misc.is_disposable),
        is_role_account: Some(misc.is_role_account),
        can_connect_smtp: match smtp {
            Ok(s) => Some(s.can_connect_smtp),
            Err(_) => None,
        },
        has_full_inbox: match smtp {
            Ok(s) => Some(s.has_full_inbox),
            Err(_) => None,
        },
        is_catch_all: match smtp {
            Ok(s) => Some(s.is_catch_all),
            Err(_) => None,
        },
        is_deliverable: match smtp {
            Ok(s) => Some(s.is_deliverable),
            Err(_) => None,
        },
        is_disabled: match smtp {
            Ok(s) => Some(s.is_disabled),
            Err(_) => None,
        },
        is_banned: match smtp {
            Ok(s) => Some(s.is_banned),
            Err(_) => None,
        },
    }
}

impl Default for EmailCheckResponse {
    fn default() -> (r: EmailCheckResponse)
        ensures
            r@ == bare_response(MyReachable::Unknown, "Unknown"@),
    {
        EmailCheckResponse {
            is_reachable: MyReachable::Unknown,
            email: "Unknown".to_owned(),
            is_disposable: None,
            is_role_account: None,
            can_connect_smtp: None,
            has_full_inbox: None,
            is_catch_all: None,
            is_deliverable: None,
            is_disabled: None,
            is_banned: None,
        }
    }
}

impl EmailCheckResponse {
    /// A response that carries only a verdict for the given address.
    pub fn bare(verdict: MyReachable, email: String) -> (r: EmailCheckResponse)
        ensures
            r@ == bare_response(verdict, email@),
    {
        EmailCheckResponse {
            is_reachable: verdict,
            email: email,
            is_disposable: None,
            is_role_account: None,
            can_connect_smtp: None,
            has_full_inbox: None,
            is_catch_all: None,
            is_deliverable: None,
            is_disabled: None,
            is_banned: None,
        }
    }

    /// An exact copy of the response.
    pub fn duplicate(&self) -> (r: EmailCheckResponse)
        ensures
            r@ == self@,
    {
        EmailCheckResponse {
            is_reachable: self.is_reachable,
            email: self.email.clone(),
            is_disposable: self.is_disposable,
            is_role_account: self.is_role_account,
            can_connect_smtp: self.can_connect_smtp,
            has_full_inbox: self.has_full_inbox,
            is_catch_all: self.is_catch_all,
            is_deliverable: self.is_deliverable,
            is_disabled: self.is_disabled,
            is_banned: self.is_banned,
        }
    }

    /// Do two responses hold exactly the same verdict, address and
    /// signals?
    pub fn same_as(&self, other: &EmailCheckResponse) -> (r: bool)
        ensures
            r == (self@ == other@),
    {
        self.is_reachable == other.is_reachable && self.email == other.email && opt_bool_eq(
            self.is_disposable,
            other.is_disposable,
        ) && opt_bool_eq(self.is_role_account, other.is_role_account) && opt_bool_eq(
            self.can_connect_smtp,
            other.can_connect_smtp,
        ) && opt_bool_eq(self.has_full_inbox, other.has_full_inbox) && opt_bool_eq(
            self.is_catch_all,
            other.is_catch_all,
        ) && opt_bool_eq(self.is_deliverable, other.is_deliverable) && opt_bool_eq(
            self.is_disabled,
            other.is_disabled,
        ) && opt_bool_eq(self.is_banned, other.is_banned)
    }
}

/// Equality of two optional booleans.
pub fn opt_bool_eq(a: Option<bool>, b: Option<bool>) -> (r: bool)
    ensures
        r == (a == b),
{
    match (a, b) {
        (None, None) => true,
        (Some(x), Some(y)) => x == y,
        _ => false,
    }
}

} // verus!
