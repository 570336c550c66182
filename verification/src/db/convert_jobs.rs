//! Conversion jobs: their states and what started them, as stored.

use vstd::prelude::*;

verus! {

#[derive(Debug, Clone, Copy, PartialEq, Eq, Structural)]
pub enum ConvertJobStatus {
    Queued,
    Running,
    Success,
    Failed,
    Cancelled,
}

/// The stored spelling of a conversion job's state.
pub open spec fn convert_status_text(s: ConvertJobStatus) -> Seq<char> {
    match s {
        ConvertJobStatus::Queued => "queued"@,
        ConvertJobStatus::Running => "running"@,
        ConvertJobStatus::Success => "success"@,
        ConvertJobStatus::Failed => "failed"@,
        ConvertJobStatus::Cancelled => "cancelled"@,
    }
}

impl ConvertJobStatus {
    pub fn as_str(self) -> (r: &'static str)
        ensures
            r@ == convert_status_text(self),
    {
        match self {
            ConvertJobStatus::Queued => "queued",
            ConvertJobStatus::Running => "running",
            ConvertJobStatus::Success => "success",
            ConvertJobStatus::Failed => "failed",
            ConvertJobStatus::Cancelled => "cancelled",
        }
    }
}

#[derive(Debug, Clone, Copy, PartialEq, Eq, Structural)]
pub enum ConvertTrigger {
    Manual,
    Auto,
}

pub open spec fn convert_trigger_text(t: ConvertTrigger) -> Seq<char> {
    match t {
        ConvertTrigger::Manual => "manual"@,
        ConvertTrigger::Auto => "auto"@,
    }
}

impl ConvertTrigger {
    pub fn as_str(self) -> (r: &'static str)
        ensures
            r@ == convert_trigger_text(self),
    {
        match self {
            ConvertTrigger::Manual => "manual",
            ConvertTrigger::Auto => "auto",
        }
    }
}

/// Distinct states are stored under distinct names.
pub proof fn lemma_convert_status_text_injective(a: ConvertJobStatus, b: ConvertJobStatus)
    requires
        convert_status_text(a) == convert_status_text(b),
    ensures
        a == b,
{
    reveal_strlit("queued");
    reveal_strlit("running");
    reveal_strlit("success");
    reveal_strlit("failed");
    reveal_strlit("cancelled");
    assert("queued"@[0] != "running"@[0]);
    assert("queued"@[0] != "success"@[0]);
    assert("queued"@[0] != "failed"@[0]);
    assert("queued"@[0] != "cancelled"@[0]);
    assert("running"@[0] != "success"@[0]);
    assert("running"@[0] != "failed"@[0]);
    assert("running"@[0] != "cancelled"@[0]);
    assert("success"@[0] != "failed"@[0]);
    assert("success"@[0] != "cancelled"@[0]);
    assert("failed"@[0] != "cancelled"@[0]);
}

} // verus!
