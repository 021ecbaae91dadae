//! The trusted boundary to the external syntax validator and heuristic
//! classifier.  Both are pure: their results depend on the address alone.

use vstd::prelude::*;
use crate::verdict::MiscSignals;

verus! {

/// What the external syntax validator determines of an address: whether
/// it is well-formed, and its domain part (the text after `@`) when it
/// is.
pub ghost struct SyntaxFacts {
    pub valid: bool,
    pub domain: Seq<char>,
}

/// The result of `check_if_email_exists::syntax::check_syntax` on an
/// address.  The grammar it implements is out of this crate's scope, so
/// the result is named rather than stated.
pub uninterp spec fn syntax_of(email: Seq<char>) -> SyntaxFacts;

/// The result of `check_if_email_exists::misc::check_misc` on a
/// well-formed address: the disposable-domain and role-account flags.
/// Both come from fixed built-in lists, so they are a function of the
/// address alone; the lists themselves are out of this crate's scope.
pub uninterp spec fn misc_of(email: Seq<char>) -> MiscSignals;

/// Syntax validation outcome as plain values: the validity flag, the
/// domain part, and the normalized address (empty strings when the
/// address is ill-formed).
#[derive(Debug, Clone)]
pub struct SyntaxResult {
    pub is_valid: bool,
    pub domain: String,
    pub address: String,
}

/// Relies on `check_if_email_exists::syntax::check_syntax`: the result
/// depends on the address alone; on a well-formed address it returns the
/// address verbatim with its domain part, and on an ill-formed one a
/// cleared record.
#[verifier::external_body]
pub(crate) fn parse_syntax(email: &str) -> (r: SyntaxResult)
    ensures
        r.is_valid == syntax_of(email@).valid,
        r.is_valid ==> r.domain@ == syntax_of(email@).domain,
        r.is_valid ==> r.address@ == email@,
        !r.is_valid ==> r.domain@ == Seq::<char>::empty(),
        !r.is_valid ==> r.address@ == Seq::<char>::empty(),
{
    let d = check_if_email_exists::syntax::check_syntax(email);
    SyntaxResult {
        is_valid: d.is_valid_syntax,
        domain: d.domain,
        address: match d.address {
            Some(a) => a.to_string(),
            None => String::new(),
        },
    }
}

/// Relies on `check_if_email_exists::syntax::check_syntax` and
/// `check_if_email_exists::misc::check_misc`: the heuristic signals of a
/// well-formed address.  `check_misc` reads the record that
/// `check_syntax` builds and panics on an ill-formed address, so the
/// address must be well-formed here.
#[verifier::external_body]
pub(crate) fn misc_signals(email: &str) -> (r: MiscSignals)
    requires
        syntax_of(email@).valid,
    ensures
        r == misc_of(email@),
{
    let syntax = check_if_email_exists::syntax::check_syntax(email);
    let d = check_if_email_exists::misc::check_misc(&syntax);
    MiscSignals { is_disposable: d.is_disposable, is_role_account: d.is_role_account }
}

} // verus!
