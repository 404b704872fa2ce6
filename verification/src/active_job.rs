//! Active recovery-job ownership: which contract owns a failure.
use crate::text::{collapse_ws, collapse_ws_str, decimal, owned, push_str, str_eq, u64_to_string};
use vstd::prelude::*;

verus! {

/// The contract that owns a recovery job.
#[derive(Debug, Clone, Copy, PartialEq, Eq, Structural)]
pub enum RecoveryOwner {
    Setup,
    Manifest,
    Scaffold,
    RouteIntegration,
    Source,
    Test,
    Docs,
    EvidenceBinding,
    VerifierContract,
    ToolProtocol,
    ContractConflict,
    ExplicitStop,
}

/// The name of an owner.
pub open spec fn owner_name(o: RecoveryOwner) -> Seq<char> {
    match o {
        RecoveryOwner::Setup => "setup"@,
        RecoveryOwner::Manifest => "manifest"@,
        RecoveryOwner::Scaffold => "scaffold"@,
        RecoveryOwner::RouteIntegration => "route_integration"@,
        RecoveryOwner::Source => "source"@,
        RecoveryOwner::Test => "test"@,
        RecoveryOwner::Docs => "docs"@,
        RecoveryOwner::EvidenceBinding => "evidence_binding"@,
        RecoveryOwner::VerifierContract => "verifier_contract"@,
        RecoveryOwner::ToolProtocol => "tool_protocol"@,
        RecoveryOwner::ContractConflict => "contract_conflict"@,
        RecoveryOwner::ExplicitStop => "explicit_stop"@,
    }
}

/// The owner of an active job; unknown jobs stop explicitly.
pub open spec fn owner_for_job(job: Seq<char>) -> RecoveryOwner {
    if job == "setup_bootstrap"@ {
        RecoveryOwner::Setup
    } else if job == "manifest_repair"@ {
        RecoveryOwner::Manifest
    } else if job == "scaffold_materialization"@ {
        RecoveryOwner::Scaffold
    } else if job == "route_integration_repair"@ {
        RecoveryOwner::RouteIntegration
    } else if job == "source_implementation_repair"@ {
        RecoveryOwner::Source
    } else if job == "test_artifact_completion"@ || job == "test_alignment_repair"@ {
        RecoveryOwner::Test
    } else if job == "documentation_repair"@ {
        RecoveryOwner::Docs
    } else if job == "evidence_binding_repair"@ {
        RecoveryOwner::EvidenceBinding
    } else if job == "verifier_contract_correction"@ {
        RecoveryOwner::VerifierContract
    } else if job == "tool_protocol_correction"@ {
        RecoveryOwner::ToolProtocol
    } else if job == "contract_conflict"@ {
        RecoveryOwner::ContractConflict
    } else {
        RecoveryOwner::ExplicitStop
    }
}

impl RecoveryOwner {
    /// The name of the owner.
    pub fn as_str(self) -> (r: &'static str)
        ensures
            r@ == owner_name(self),
    {
        match self {
            RecoveryOwner::Setup => "setup",
            RecoveryOwner::Manifest => "manifest",
            RecoveryOwner::Scaffold => "scaffold",
            RecoveryOwner::RouteIntegration => "route_integration",
            RecoveryOwner::Source => "source",
            RecoveryOwner::Test => "test",
            RecoveryOwner::Docs => "docs",
            RecoveryOwner::EvidenceBinding => "evidence_binding",
            RecoveryOwner::VerifierContract => "verifier_contract",
            RecoveryOwner::ToolProtocol => "tool_protocol",
            RecoveryOwner::ContractConflict => "contract_conflict",
            RecoveryOwner::ExplicitStop => "explicit_stop",
        }
    }

    /// The owner of the named active job.
    pub fn for_active_job(job: &str) -> (r: Self)
        ensures
            r == owner_for_job(job@),
    {
        if str_eq(job, "setup_bootstrap") {
            RecoveryOwner::Setup
        } else if str_eq(job, "manifest_repair") {
            RecoveryOwner::Manifest
        } else if str_eq(job, "scaffold_materialization") {
            RecoveryOwner::Scaffold
        } else if str_eq(job, "route_integration_repair") {
            RecoveryOwner::RouteIntegration
        } else if str_eq(job, "source_implementation_repair") {
            RecoveryOwner::Source
        } else if str_eq(job, "test_artifact_completion") || str_eq(job, "test_alignment_repair") {
            RecoveryOwner::Test
        } else if str_eq(job, "documentation_repair") {
            RecoveryOwner::Docs
        } else if str_eq(job, "evidence_binding_repair") {
            RecoveryOwner::EvidenceBinding
        } else if str_eq(job, "verifier_contract_correction") {
            RecoveryOwner::VerifierContract
        } else if str_eq(job, "tool_protocol_correction") {
            RecoveryOwner::ToolProtocol
        } else if str_eq(job, "contract_conflict") {
            RecoveryOwner::ContractConflict
        } else {
            RecoveryOwner::ExplicitStop
        }
    }
}

/// The active job chosen for a failure, its owner and why.
#[derive(Debug, Clone, PartialEq, Eq)]
pub struct ActiveJobDecision {
    pub owner: RecoveryOwner,
    pub job: String,
    pub priority: u8,
    pub reason: String,
}

impl ActiveJobDecision {
    /// A decision for the job; the owner follows from the job's name.
    pub fn new(job: &str, priority: u8, reason: &str) -> (r: Self)
        ensures
            r.owner == owner_for_job(job@),
            r.job@ == job@,
            r.priority == priority,
            r.reason@ == reason@,
    {
        ActiveJobDecision {
            owner: RecoveryOwner::for_active_job(job),
            job: owned(job),
            priority,
            reason: owned(reason),
        }
    }

    /// `owner=... job=... priority=... reason=...`, with the reason's
    /// whitespace collapsed.
    pub fn render_line(&self) -> (r: String)
        ensures
            r@ == "owner="@ + owner_name(self.owner) + " job="@ + self.job@ + " priority="@
                + decimal(self.priority as nat) + " reason="@ + collapse_ws(self.reason@),
    {
        let mut s = owned("owner=");
        push_str(&mut s, self.owner.as_str());
        push_str(&mut s, " job=");
        push_str(&mut s, self.job.as_str());
        push_str(&mut s, " priority=");
        let p = u64_to_string(self.priority as u64);
        push_str(&mut s, p.as_str());
        push_str(&mut s, " reason=");
        let r = collapse_ws_str(self.reason.as_str());
        push_str(&mut s, r.as_str());
        s
    }
}

} // verus!
