//! The reachability verdict and the classification rules that produce it.

use vstd::prelude::*;

verus! {

/// Five-way deliverability verdict for one address.
#[derive(Clone, Copy, Debug, PartialEq, Eq, Structural)]
pub enum MyReachable {
    Safe,
    Risky,
    Invalid,
    Unknown,
    Banned,
}

impl MyReachable {
    /// The lowercase name of the verdict, as it appears on the wire.
    pub open spec fn spec_label(self) -> Seq<char> {
        match self {
            MyReachable::Safe => "safe"@,
            MyReachable::Risky => "risky"@,
            MyReachable::Invalid => "invalid"@,
            MyReachable::Unknown => "unknown"@,
            MyReachable::Banned => "banned"@,
        }
    }

    /// Lowercase text of the verdict.
    pub fn label(&self) -> (r: &'static str)
        ensures
            r@ == self.spec_label(),
    {
        match self {
            MyReachable::Safe => "safe",
            MyReachable::Risky => "risky",
            MyReachable::Invalid => "invalid",
            MyReachable::Unknown => "unknown",
            MyReachable::Banned => "banned",
        }
    }
}

/// Heuristic signals about the address itself, independent of any probe.
#[derive(Clone, Copy, Debug, PartialEq, Eq, Structural)]
pub struct MiscSignals {
    pub is_disposable: bool,
    pub is_role_account: bool,
}

/// Signals reported by a completed mailbox probe.
#[derive(Clone, Copy, Debug, PartialEq, Eq, Structural)]
pub struct SmtpSignals {
    pub can_connect_smtp: bool,
    pub has_full_inbox: bool,
    pub is_catch_all: bool,
    pub is_deliverable: bool,
    pub is_disabled: bool,
    pub is_banned: bool,
}

/// Why a mailbox probe produced no signals.
#[derive(Clone, Copy, Debug, PartialEq, Eq, Structural)]
pub enum ProbeError {
    Failed,
    Timeout,
}

/// The signals of a probe outcome, or `None` when the probe failed.
pub open spec fn probe_signals(smtp: Result<SmtpSignals, ProbeError>) -> Option<SmtpSignals> {
    match smtp {
        Ok(s) => Some(s),
        Err(_) => None,
    }
}

/// The decision table for one address, first match wins: no probe result
/// means Unknown; disposable, role-account, catch-all or full inbox mean
/// Risky; a ban means Banned; unreachable, undeliverable or disabled
/// mailboxes mean Invalid; everything else is Safe.
pub open spec fn spec_reachable(misc: MiscSignals, smtp: Option<SmtpSignals>) -> MyReachable {
    match smtp {
        None => MyReachable::Unknown,
        Some(s) => if misc.is_disposable || misc.is_role_account || s.is_catch_all
            || s.has_full_inbox {
            MyReachable::Risky
        } else if s.is_banned {
            MyReachable::Banned
        } else if !s.is_deliverable || !s.can_connect_smtp || s.is_disabled {
            MyReachable::Invalid
        } else {
            MyReachable::Safe
        },
    }
}

/// Classify one address from its heuristic signals and its probe outcome.
pub fn calculate_reachable(misc: &MiscSignals, smtp: &Result<SmtpSignals, ProbeError>) -> (r:
    MyReachable)
    ensures
        r == spec_reachable(*misc, probe_signals(*smtp)),
{
    if let Ok(s) = smtp {
        if misc.is_disposable || misc.is_role_account || s.is_catch_all || s.has_full_inbox {
            return MyReachable::Risky;
        }
        if s.is_banned {
            return MyReachable::Banned;
        }
        if !s.is_deliverable || !s.can_connect_smtp || s.is_disabled {
            return MyReachable::Invalid;
        }
        MyReachable::Safe
    } else {
        MyReachable::Unknown
    }
}

/// The verdict drawn for a synthetic probe from a random draw in `0..=5`.
pub open spec fn spec_sample_verdict(n: u64) -> MyReachable {
    if n == 0 {
        MyReachable::Invalid
    } else if n == 1 {
        MyReachable::Risky
    } else if n == 2 {
        MyReachable::Safe
    } else if n == 3 {
        MyReachable::Unknown
    } else if n == 4 {
        MyReachable::Banned
    } else {
        MyReachable::Safe
    }
}

/// Map a random draw to a verdict for the synthetic probe strategy; the
/// caller supplies the drawn number.
pub fn sample_verdict(n: u64) -> (r: MyReachable)
    ensures
        r == spec_sample_verdict(n),
{
    match n {
        0 => MyReachable::Invalid,
        1 => MyReachable::Risky,
        2 => MyReachable::Safe,
        3 => MyReachable::Unknown,
        4 => MyReachable::Banned,
        _ => MyReachable::Safe,
    }
}

} // verus!
