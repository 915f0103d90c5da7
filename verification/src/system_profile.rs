//! System-brain treatment profile.
//!
//! Describes how the surrounding platform treats this program as a
//! high-impact health and environment workload: which audit, sanitization
//! and no-harm guards its instructions and data flows must pass.

use vstd::prelude::*;

verus! {

/// Guard requirements the platform applies to this program's workload.
#[derive(Debug, Clone)]
pub struct CignessBrainProfile {
    /// Stable identifier under the platform's system namespace.
    pub system_id: String,
    /// Whether instructions must be logged through the instruction audit.
    pub require_blockchain_audit: bool,
    /// Whether data flows must pass data-lake sanitization.
    pub require_datalake_sanitization: bool,
    /// Whether immersive or neuro-stimulation interfaces must be guarded
    /// by the no-harm policy.
    pub require_dreamcatcher_no_harm: bool,
}

impl Default for CignessBrainProfile {
    /// The default profile: every guard switched on.
    fn default() -> (r: Self)
        ensures
            r.system_id@ == "CIGNESS-SYSTEM"@,
            r.require_blockchain_audit,
            r.require_datalake_sanitization,
            r.require_dreamcatcher_no_harm,
    {
        CignessBrainProfile {
            system_id: "CIGNESS-SYSTEM".to_owned(),
            require_blockchain_audit: true,
            require_datalake_sanitization: true,
            require_dreamcatcher_no_harm: true,
        }
    }
}

} // verus!
