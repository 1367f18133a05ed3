use vstd::prelude::*;

verus! {

/// Outcome of one check.
///
/// `Indeterminate` marks a check that cannot be decided by the program and has to be
/// confirmed by hand; `Skipped` is given to the checks below a failed one.
#[derive(Debug, Clone, Copy, PartialEq, Eq, Structural)]
pub enum TestState {
    Pass,
    Fail,
    Warning,
    Indeterminate,
    Skipped,
}

/// Whether a failure of a check makes the whole run fail.
#[derive(Debug, Clone, Copy, PartialEq, Eq, Structural)]
pub enum TestOptionalState {
    Required,
    Optional,
}

/// Whether a check is decided by the program or left to the operator.
#[derive(Debug, Clone, Copy, PartialEq, Eq, Structural)]
pub enum TestOperationState {
    Manual,
    Program,
}

/// The host observation behind each check.
#[derive(Debug, Clone, Copy, PartialEq, Eq, Structural)]
pub enum Probe {
    CpuVendor,
    OsDistro,
    SgxEnabled,
    TdxEnabled,
    TdxModule,
    TmeEnabled,
    TmeMt,
    TdxKeySplit,
    SgxRegistrationServer,
    KvmSupported,
    KvmSgxParameter,
    KvmTdxParameter,
    BiosMemoryMap,
    TmeBypass,
    SeamLoader,
}

/// One node of a forest of checks.
///
/// A forest is a `Vec<Test>` in depth-first pre-order: the subtree of the
/// node at index `k` occupies the indices `k .. end`.
#[derive(Debug, Clone, Copy)]
pub struct Test {
    /// Short title, shown when the check is skipped.
    pub name: &'static str,
    /// What the check verifies, shown with its outcome.
    pub action: &'static str,
    pub probe: Probe,
    pub optional_state: TestOptionalState,
    pub operation: TestOperationState,
    /// One past the last index of this node's subtree.
    pub end: usize,
}

pub open spec fn is_manual(t: Test) -> bool {
    t.operation == TestOperationState::Manual
}

pub open spec fn is_required(t: Test) -> bool {
    t.optional_state == TestOptionalState::Required
}

/// The outcome that a node reports for what its probe gave: a manual check
/// is always left for the operator.
pub open spec fn settled(t: Test, raw: TestState) -> TestState {
    if is_manual(t) {
        TestState::Indeterminate
    } else {
        raw
    }
}

/// A forest is well formed when every subtree range starts at its node,
/// stays inside the forest, and nests inside the ranges that contain it.
pub open spec fn wf_forest(nodes: Seq<Test>) -> bool {
    &&& forall|i: int| 0 <= i < nodes.len() ==> i < #[trigger] nodes[i].end <= nodes.len()
    &&& forall|i: int, j: int|
        0 <= i < j < nodes[i].end && j < nodes.len() ==> #[trigger] nodes[j].end <= #[trigger] nodes[i].end
}

/// Applies the manual override to what a probe gave for `t`.
pub fn settle(t: &Test, raw: TestState) -> (r: TestState)
    ensures
        r == settled(*t, raw),
        is_manual(*t) ==> r == TestState::Indeterminate,
{
    match t.operation {
        TestOperationState::Manual => TestState::Indeterminate,
        TestOperationState::Program => raw,
    }
}

} // verus!
