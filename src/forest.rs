use vstd::prelude::*;

use crate::model::{is_manual, is_required, settled, wf_forest, Probe, Test, TestOperationState, TestOptionalState, TestState};
use crate::walk::{
    event_node, event_outcome, is_evaluated, is_walk, lemma_fail_skips_descendants, lemma_walk_head,
    lemma_walk_shape, trace_passed, Event,
};

verus! {

/// The checks whose failure fails the run, in depth-first order.
///
/// The CPU vendor gates the OS distribution, which gates SGX, which gates
/// TDX, which gates the TDX module, TME, TME-MT, the TDX key split and the
/// SGX registration server. Beside that chain, KVM support gates its SGX
/// and TDX parameters.
pub open spec fn required_forest() -> Seq<Test> {
    seq![
        Test {
            name: "Check CPU Manufacturer ID",
            action: "Check CPUID 0x0 Manufacturer ID = GenuineIntel",
            probe: Probe::CpuVendor,
            optional_state: TestOptionalState::Required,
            operation: TestOperationState::Program,
            end: 9,
        },
        Test {
            name: "Check OS distro",
            action: "Check OS: The distro and version are correct",
            probe: Probe::OsDistro,
            optional_state: TestOptionalState::Required,
            operation: TestOperationState::Program,
            end: 9,
        },
        Test {
            name: "Check SGX enabled",
            action: "Check BIOS: SGX = Enabled",
            probe: Probe::SgxEnabled,
            optional_state: TestOptionalState::Required,
            operation: TestOperationState::Program,
            end: 9,
        },
        Test {
            name: "Check TDX enabled",
            action: "Check BIOS: TDX = Enabled",
            probe: Probe::TdxEnabled,
            optional_state: TestOptionalState::Required,
            operation: TestOperationState::Program,
            end: 9,
        },
        Test {
            name: "Check TDX module initialized",
            action: "Check TDX Module: The module is initialized",
            probe: Probe::TdxModule,
            optional_state: TestOptionalState::Required,
            operation: TestOperationState::Program,
            end: 5,
        },
        Test {
            name: "Check TME enabled",
            action: "Check BIOS: TME = Enabled",
            probe: Probe::TmeEnabled,
            optional_state: TestOptionalState::Required,
            operation: TestOperationState::Program,
            end: 6,
        },
        Test {
            name: "Check TME-MT/TME-MK enabled",
            action: "Check BIOS: TME-MT/TME-MK = Enabled",
            probe: Probe::TmeMt,
            optional_state: TestOptionalState::Required,
            operation: TestOperationState::Manual,
            end: 7,
        },
        Test {
            name: "Check TDX Key Split != 0",
            action: "Check BIOS: TDX Key Split != 0",
            probe: Probe::TdxKeySplit,
            optional_state: TestOptionalState::Required,
            operation: TestOperationState::Program,
            end: 8,
        },
        Test {
            name: "Check SGX registration server",
            action: "Check BIOS: SGX registration server",
            probe: Probe::SgxRegistrationServer,
            optional_state: TestOptionalState::Required,
            operation: TestOperationState::Manual,
            end: 9,
        },
        Test {
            name: "Check KVM is supported",
            action: "Check KVM is supported",
            probe: Probe::KvmSupported,
            optional_state: TestOptionalState::Required,
            operation: TestOperationState::Program,
            end: 12,
        },
        Test {
            name: "Check KVM SGX parameter enabled",
            action: "Check /sys/module/kvm_intel/parameters/sgx = Y (required)",
            probe: Probe::KvmSgxParameter,
            optional_state: TestOptionalState::Required,
            operation: TestOperationState::Program,
            end: 11,
        },
        Test {
            name: "Check KVM TDX parameter enabled",
            action: "Check /sys/module/kvm_intel/parameters/tdx = Y (required)",
            probe: Probe::KvmTdxParameter,
            optional_state: TestOptionalState::Required,
            operation: TestOperationState::Program,
            end: 12,
        },
    ]
}

/// The checks reported for information only, all at the top level.
pub open spec fn optional_forest() -> Seq<Test> {
    seq![
        Test {
            name: "Volatile Memory should be 1LM",
            action: "Check BIOS: Volatile Memory should be 1LM",
            probe: Probe::BiosMemoryMap,
            optional_state: TestOptionalState::Optional,
            operation: TestOperationState::Manual,
            end: 1,
        },
        Test {
            name: "TME Bypass is enabled",
            action: "Check BIOS: TME Bypass = Enabled",
            probe: Probe::TmeBypass,
            optional_state: TestOptionalState::Optional,
            operation: TestOperationState::Program,
            end: 2,
        },
        Test {
            name: "SEAM Loader is enabled",
            action: "Check BIOS: SEAM Loader = Enabled",
            probe: Probe::SeamLoader,
            optional_state: TestOptionalState::Optional,
            operation: TestOperationState::Manual,
            end: 3,
        },
    ]
}

/// Builds the forest of required checks.
pub fn get_required_tests() -> (r: Vec<Test>)
    ensures
        r@ == required_forest(),
        wf_forest(r@),
{
    let r = vec![
        Test {
            name: "Check CPU Manufacturer ID",
            action: "Check CPUID 0x0 Manufacturer ID = GenuineIntel",
            probe: Probe::CpuVendor,
            optional_state: TestOptionalState::Required,
            operation: TestOperationState::Program,
            end: 9,
        },
        Test {
            name: "Check OS distro",
            action: "Check OS: The distro and version are correct",
            probe: Probe::OsDistro,
            optional_state: TestOptionalState::Required,
            operation: TestOperationState::Program,
            end: 9,
        },
        Test {
            name: "Check SGX enabled",
            action: "Check BIOS: SGX = Enabled",
            probe: Probe::SgxEnabled,
            optional_state: TestOptionalState::Required,
            operation: TestOperationState::Program,
            end: 9,
        },
        Test {
            name: "Check TDX enabled",
            action: "Check BIOS: TDX = Enabled",
            probe: Probe::TdxEnabled,
            optional_state: TestOptionalState::Required,
            operation: TestOperationState::Program,
            end: 9,
        },
        Test {
            name: "Check TDX module initialized",
            action: "Check TDX Module: The module is initialized",
            probe: Probe::TdxModule,
            optional_state: TestOptionalState::Required,
            operation: TestOperationState::Program,
            end: 5,
        },
        Test {
            name: "Check TME enabled",
            action: "Check BIOS: TME = Enabled",
            probe: Probe::TmeEnabled,
            optional_state: TestOptionalState::Required,
            operation: TestOperationState::Program,
            end: 6,
        },
        Test {
            name: "Check TME-MT/TME-MK enabled",
            action: "Check BIOS: TME-MT/TME-MK = Enabled",
            probe: Probe::TmeMt,
            optional_state: TestOptionalState::Required,
            operation: TestOperationState::Manual,
            end: 7,
        },
        Test {
            name: "Check TDX Key Split != 0",
            action: "Check BIOS: TDX Key Split != 0",
            probe: Probe::TdxKeySplit,
            optional_state: TestOptionalState::Required,
            operation: TestOperationState::Program,
            end: 8,
        },
        Test {
            name: "Check SGX registration server",
            action: "Check BIOS: SGX registration server",
            probe: Probe::SgxRegistrationServer,
            optional_state: TestOptionalState::Required,
            operation: TestOperationState::Manual,
            end: 9,
        },
        Test {
            name: "Check KVM is supported",
            action: "Check KVM is supported",
            probe: Probe::KvmSupported,
            optional_state: TestOptionalState::Required,
            operation: TestOperationState::Program,
            end: 12,
        },
        Test {
            name: "Check KVM SGX parameter enabled",
            action: "Check /sys/module/kvm_intel/parameters/sgx = Y (required)",
            probe: Probe::KvmSgxParameter,
            optional_state: TestOptionalState::Required,
            operation: TestOperationState::Program,
            end: 11,
        },
        Test {
            name: "Check KVM TDX parameter enabled",
            action: "Check /sys/module/kvm_intel/parameters/tdx = Y (required)",
            probe: Probe::KvmTdxParameter,
            optional_state: TestOptionalState::Required,
            operation: TestOperationState::Program,
            end: 12,
        },
    ];
    assert(r@ =~= required_forest());
    r
}

/// Builds the forest of optional checks.
pub fn get_optional_tests() -> (r: Vec<Test>)
    ensures
        r@ == optional_forest(),
        wf_forest(r@),
{
    let r = vec![
        Test {
            name: "Volatile Memory should be 1LM",
            action: "Check BIOS: Volatile Memory should be 1LM",
            probe: Probe::BiosMemoryMap,
            optional_state: TestOptionalState::Optional,
            operation: TestOperationState::Manual,
            end: 1,
        },
        Test {
            name: "TME Bypass is enabled",
            action: "Check BIOS: TME Bypass = Enabled",
            probe: Probe::TmeBypass,
            optional_state: TestOptionalState::Optional,
            operation: TestOperationState::Program,
            end: 2,
        },
        Test {
            name: "SEAM Loader is enabled",
            action: "Check BIOS: SEAM Loader = Enabled",
            probe: Probe::SeamLoader,
            optional_state: TestOptionalState::Optional,
            operation: TestOperationState::Manual,
            end: 3,
        },
    ];
    assert(r@ =~= optional_forest());
    r
}

/// Each evaluated node of `ev` reports what `host` gives for it, after the
/// manual override.
pub open spec fn follows_host(nodes: Seq<Test>, ev: Seq<Event>, host: spec_fn(int) -> TestState) -> bool {
    forall|p: int|
        0 <= p < ev.len() && #[trigger] is_evaluated(ev[p]) ==> event_outcome(ev[p]) == settled(
            nodes[event_node(ev[p])],
            host(event_node(ev[p])),
        )
}

/// Every node of the required forest is required.
pub proof fn lemma_required_forest_is_required()
    ensures
        forall|i: int| 0 <= i < required_forest().len() ==> is_required(#[trigger] required_forest()[i]),
{
}

/// When the CPU vendor check fails, the OS, SGX and TDX checks and everything
/// below TDX are reported skipped and never evaluated, and the run fails.
pub proof fn lemma_vendor_failure(ev: Seq<Event>, host: spec_fn(int) -> TestState)
    requires
        is_walk(required_forest(), ev, 0),
        follows_host(required_forest(), ev, host),
        host(0) == TestState::Fail,
    ensures
        ev[0] == Event::Evaluated(0, TestState::Fail),
        forall|j: int| 1 <= j < 9 ==> #[trigger] ev[j] == Event::Skipped(j as usize),
        forall|p: int|
            0 <= p < ev.len() && #[trigger] is_evaluated(ev[p]) ==> !(1 <= event_node(ev[p]) < 9),
        !trace_passed(ev),
{
    let nodes = required_forest();
    lemma_walk_head(nodes, ev, 0);
    assert(is_evaluated(ev[0]));
    lemma_walk_shape(nodes, ev, 0);
    assert forall|j: int| 1 <= j < 9 implies #[trigger] ev[j] == Event::Skipped(j as usize) by {
        assert(ev[0 + 1 + (j - 1)] == Event::Skipped((0 + 1 + (j - 1)) as usize));
    }
    assert forall|p: int|
        0 <= p < ev.len() && #[trigger] is_evaluated(ev[p]) implies !(1 <= event_node(ev[p]) < 9) by {
        let j = event_node(ev[p]);
        if 1 <= j < 9 {
            lemma_fail_skips_descendants(nodes, ev, 0, j);
        }
    }
    assert(!trace_passed(ev)) by {
        assert(crate::walk::blocks(ev[0]));
    }
}

/// When the CPU vendor, OS and SGX checks pass and the TDX check fails, the
/// five checks below TDX are reported skipped and the run fails.
pub proof fn lemma_tdx_failure(ev: Seq<Event>, host: spec_fn(int) -> TestState)
    requires
        is_walk(required_forest(), ev, 0),
        follows_host(required_forest(), ev, host),
        host(0) == TestState::Pass,
        host(1) == TestState::Pass,
        host(2) == TestState::Pass,
        host(3) == TestState::Fail,
    ensures
        ev[0] == Event::Evaluated(0, TestState::Pass),
        ev[1] == Event::Evaluated(1, TestState::Pass),
        ev[2] == Event::Evaluated(2, TestState::Pass),
        ev[3] == Event::Evaluated(3, TestState::Fail),
        forall|j: int| 4 <= j < 9 ==> #[trigger] ev[j] == Event::Skipped(j as usize),
        !trace_passed(ev),
{
    let nodes = required_forest();
    lemma_walk_head(nodes, ev, 0);
    assert(is_evaluated(ev[0]));
    let e1 = ev.drop_first();
    lemma_walk_head(nodes, e1, 1);
    assert(e1[0] == ev[1] && is_evaluated(ev[1]));
    let e2 = e1.drop_first();
    lemma_walk_head(nodes, e2, 2);
    assert(e2[0] == ev[2] && is_evaluated(ev[2]));
    let e3 = e2.drop_first();
    lemma_walk_head(nodes, e3, 3);
    assert(e3[0] == ev[3] && is_evaluated(ev[3]));
    lemma_walk_shape(nodes, e3, 3);
    assert forall|j: int| 4 <= j < 9 implies #[trigger] ev[j] == Event::Skipped(j as usize) by {
        assert(e3[0 + 1 + (j - 4)] == Event::Skipped((3 + 1 + (j - 4)) as usize));
        assert(e3[j - 3] == ev[j]);
    }
    assert(!trace_passed(ev)) by {
        assert(crate::walk::blocks(ev[3]));
    }
}

/// A node from `k` on never reports `Fail`, and a node that does not pass has
/// no children.
pub open spec fn never_fails_from(nodes: Seq<Test>, host: spec_fn(int) -> TestState, k: int) -> bool {
    forall|j: int|
        k <= j < nodes.len() ==> #[trigger] settled(nodes[j], host(j)) == TestState::Pass || (settled(
            nodes[j],
            host(j),
        ) != TestState::Fail && nodes[j].end == j + 1)
}

proof fn lemma_walk_without_failure(nodes: Seq<Test>, ev: Seq<Event>, host: spec_fn(int) -> TestState, k: int)
    requires
        0 <= k <= nodes.len(),
        is_walk(nodes, ev, k),
        follows_host(nodes, ev, host),
        never_fails_from(nodes, host, k),
    ensures
        ev.len() == nodes.len() - k,
        forall|t: int|
            0 <= t < ev.len() ==> #[trigger] ev[t] == Event::Evaluated(
                (k + t) as usize,
                settled(nodes[k + t], host(k + t)),
            ),
    decreases nodes.len() - k,
{
    if k < nodes.len() {
        lemma_walk_head(nodes, ev, k);
        assert(is_evaluated(ev[0]));
        let rest = ev.drop_first();
        assert forall|p: int| 0 <= p < rest.len() && #[trigger] is_evaluated(rest[p]) implies event_outcome(
            rest[p],
        ) == settled(nodes[event_node(rest[p])], host(event_node(rest[p]))) by {
            assert(rest[p] == ev[p + 1]);
        }
        assert(settled(nodes[k], host(k)) == TestState::Pass || nodes[k].end == k + 1);
        lemma_walk_without_failure(nodes, rest, host, k + 1);
        assert forall|t: int| 0 <= t < ev.len() implies #[trigger] ev[t] == Event::Evaluated(
            (k + t) as usize,
            settled(nodes[k + t], host(k + t)),
        ) by {
            if t > 0 {
                assert(ev[t] == rest[t - 1]);
            }
        }
    }
}

/// When every automatic check of the required forest passes, each of its
/// twelve nodes is evaluated once, in order, none is skipped, the manual ones
/// report `Indeterminate`, and the run passes.
pub proof fn lemma_healthy_host(ev: Seq<Event>, host: spec_fn(int) -> TestState)
    requires
        is_walk(required_forest(), ev, 0),
        follows_host(required_forest(), ev, host),
        forall|i: int| 0 <= i < 12 && !is_manual(required_forest()[i]) ==> host(i) == TestState::Pass,
    ensures
        ev.len() == 12,
        forall|t: int|
            0 <= t < 12 ==> #[trigger] ev[t] == Event::Evaluated(
                t as usize,
                settled(required_forest()[t], host(t)),
            ),
        ev[6] == Event::Evaluated(6, TestState::Indeterminate),
        ev[8] == Event::Evaluated(8, TestState::Indeterminate),
        trace_passed(ev),
{
    let nodes = required_forest();
    assert(never_fails_from(nodes, host, 0)) by {
        assert forall|j: int| 0 <= j < nodes.len() implies #[trigger] settled(nodes[j], host(j))
            == TestState::Pass || (settled(nodes[j], host(j)) != TestState::Fail && nodes[j].end == j + 1) by {
            if !is_manual(nodes[j]) {
                assert(host(j) == TestState::Pass);
            }
        }
    }
    lemma_walk_without_failure(nodes, ev, host, 0);
    assert(ev[6] == Event::Evaluated(6, settled(nodes[6], host(6))));
    assert(ev[8] == Event::Evaluated(8, settled(nodes[8], host(8))));
    assert forall|p: int| 0 <= p < ev.len() implies !#[trigger] crate::walk::blocks(ev[p]) by {
        assert(ev[p] == Event::Evaluated(p as usize, settled(nodes[p], host(p))));
        if !is_manual(nodes[p]) {
            assert(host(p) == TestState::Pass);
        }
    }
}

} // verus!
