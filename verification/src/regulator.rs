//! Transfer regulator: audit decisions for inter-account transfers.
//!
//! The host measures a transfer attempt against the regulator configuration
//! (balance comparisons, the puppet factor derived from velocity and
//! activity, play-time thresholds) and hands the outcomes to this module as
//! an audit.  The module decides, in a fixed priority order with the first
//! match winning, whether the transfer is blocked and under which code, or
//! merely flagged as high risk.  The behavioral tax is charged by the host
//! only on transfers this module lets through.

use vstd::prelude::*;

verus! {

/// Transfer passed every check.
pub const CODE_NORMAL: i32 = 0;

/// Transfer allowed but flagged as high risk.
pub const CODE_WARNING_HIGH_RISK: i32 = 1;

/// Blocked: a fresh account sent more than the newbie limit to a veteran.
pub const CODE_BLOCK_REVERSE_FLOW: i32 = 2;

/// Blocked: a veteran pushed a newbie's balance over its receive limit.
pub const CODE_BLOCK_INJECTION: i32 = 3;

/// Blocked: the amount exceeds the sender's balance.
pub const CODE_BLOCK_INSUFFICIENT_FUNDS: i32 = 4;

/// Blocked: the puppet factor exceeds the velocity threshold.
pub const CODE_BLOCK_VELOCITY_LIMIT: i32 = 5;

/// Boundary code when the transfer context is missing.
pub const CODE_ERR_NULL_CONTEXT: i32 = 671;

/// Boundary code when the regulator configuration is missing.
pub const CODE_ERR_NULL_CONFIG: i32 = 672;

/// Boundary fallback code when the audit itself crashed.
pub const CODE_ERR_INTERNAL: i32 = -999;

/// Outcomes of the individual audit checks, each measured by the host
/// against the regulator configuration before this module decides.
#[derive(Clone, Copy, PartialEq, Eq, Structural, Debug)]
pub struct TransferAudit {
    /// The amount exceeds the sender's (non-negative) balance.
    pub insufficient_funds: bool,
    /// The puppet factor exceeds the velocity threshold.
    pub velocity_exceeded: bool,
    /// Newbie sender, veteran receiver, amount over the newbie limit.
    pub reverse_flow: bool,
    /// Veteran sender, newbie receiver, receiver balance plus amount over
    /// the newbie receive limit.
    pub injection: bool,
    /// The amount is a larger share of the sender's balance than the
    /// warning ratio.
    pub high_risk_ratio: bool,
    /// The puppet factor exceeds seven tenths of the velocity threshold.
    pub elevated_puppet: bool,
}

/// The regulator decision: whether the transfer is blocked (1) or not (0),
/// and the warning or block code.
#[derive(Clone, Copy, PartialEq, Eq, Structural, Debug)]
pub struct TransferDecision {
    pub is_blocked: i32,
    pub warning_code: i32,
}

impl TransferDecision {
    /// A blocking decision carrying a boundary error code, used by the host
    /// when a transfer cannot even be audited.
    pub fn error(code: i32) -> (d: TransferDecision)
        ensures
            d.is_blocked == 1,
            d.warning_code == code,
    {
        TransferDecision { is_blocked: 1, warning_code: code }
    }
}

/// The decision for an audit: the checks are tried in priority order —
/// funds, velocity, reverse flow, injection — and the first failing check
/// blocks the transfer with its code.  If none blocks, risk signals demote
/// the transfer to a warning; otherwise it is normal.
pub open spec fn decision_of(audit: TransferAudit) -> TransferDecision {
    if audit.insufficient_funds {
        TransferDecision { is_blocked: 1, warning_code: CODE_BLOCK_INSUFFICIENT_FUNDS as i32 }
    } else if audit.velocity_exceeded {
        TransferDecision { is_blocked: 1, warning_code: CODE_BLOCK_VELOCITY_LIMIT as i32 }
    } else if audit.reverse_flow {
        TransferDecision { is_blocked: 1, warning_code: CODE_BLOCK_REVERSE_FLOW as i32 }
    } else if audit.injection {
        TransferDecision { is_blocked: 1, warning_code: CODE_BLOCK_INJECTION as i32 }
    } else if audit.high_risk_ratio || audit.elevated_puppet {
        TransferDecision { is_blocked: 0, warning_code: CODE_WARNING_HIGH_RISK as i32 }
    } else {
        TransferDecision { is_blocked: 0, warning_code: CODE_NORMAL as i32 }
    }
}

/// Whether a transfer is blocked for an audit: exactly when one of the four
/// blocking checks failed.
pub open spec fn blocks(audit: TransferAudit) -> bool {
    audit.insufficient_funds || audit.velocity_exceeded || audit.reverse_flow || audit.injection
}

/// Decide a transfer attempt from its audit.
pub fn decide_transfer(audit: &TransferAudit) -> (d: TransferDecision)
    ensures
        d == decision_of(*audit),
        d.is_blocked == 1 <==> blocks(*audit),
        d.is_blocked == 0 || d.is_blocked == 1,
{
    if audit.insufficient_funds {
        TransferDecision { is_blocked: 1, warning_code: CODE_BLOCK_INSUFFICIENT_FUNDS }
    } else if audit.velocity_exceeded {
        TransferDecision { is_blocked: 1, warning_code: CODE_BLOCK_VELOCITY_LIMIT }
    } else if audit.reverse_flow {
        TransferDecision { is_blocked: 1, warning_code: CODE_BLOCK_REVERSE_FLOW }
    } else if audit.injection {
        TransferDecision { is_blocked: 1, warning_code: CODE_BLOCK_INJECTION }
    } else if audit.high_risk_ratio || audit.elevated_puppet {
        TransferDecision { is_blocked: 0, warning_code: CODE_WARNING_HIGH_RISK }
    } else {
        TransferDecision { is_blocked: 0, warning_code: CODE_NORMAL }
    }
}

/// A decision counts as high risk when the transfer was blocked outright or
/// carries the high-risk warning code.
pub open spec fn high_risk(result: TransferDecision) -> bool {
    result.is_blocked == 1 || result.warning_code == CODE_WARNING_HIGH_RISK
}

/// Whether a decision marks the transfer as high risk.
pub fn is_high_risk_transfer(result: &TransferDecision) -> (r: bool)
    ensures
        r == high_risk(*result),
{
    result.is_blocked == 1 || result.warning_code == CODE_WARNING_HIGH_RISK
}

/// Law: every blocked transfer is a high-risk transfer, and a blocked
/// decision always carries one of the four block codes.
pub proof fn lemma_blocked_decisions(audit: TransferAudit)
    requires
        blocks(audit),
    ensures
        decision_of(audit).is_blocked == 1,
        high_risk(decision_of(audit)),
        CODE_BLOCK_REVERSE_FLOW <= decision_of(audit).warning_code <= CODE_BLOCK_VELOCITY_LIMIT,
{
}

/// Law: a transfer that fails no check at all is let through untouched —
/// not blocked, no warning, and not high risk.
pub proof fn lemma_clean_transfer(audit: TransferAudit)
    requires
        !audit.insufficient_funds,
        !audit.velocity_exceeded,
        !audit.reverse_flow,
        !audit.injection,
        !audit.high_risk_ratio,
        !audit.elevated_puppet,
    ensures
        decision_of(audit) == (TransferDecision { is_blocked: 0, warning_code: CODE_NORMAL as i32 }),
        !high_risk(decision_of(audit)),
{
}

/// Law: insufficient funds dominate every other check — whatever else the
/// audit found, the decision is the insufficient-funds block.
pub proof fn lemma_funds_check_first(audit: TransferAudit)
    requires
        audit.insufficient_funds,
    ensures
        decision_of(audit).warning_code == CODE_BLOCK_INSUFFICIENT_FUNDS,
{
}

} // verus!
