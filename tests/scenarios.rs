use std::cell::{Cell, RefCell};

use tdxhost::forest::{get_optional_tests, get_required_tests};
use tdxhost::model::{Test, TestState};
use tdxhost::probe::{evaluate, Observation};
use tdxhost::walk::{run_all_checks, run_test, skip_subtree, CheckRun, Event, Section};

const UBUNTU: &str = "NAME=\"Ubuntu\"\nPRETTY_NAME=\"Ubuntu 22.04.1 LTS\"\nVERSION_ID=\"22.04\"\n";

// "GenuineIntel" as CPUID leaf 0 returns it.
const INTEL: (u32, u32, u32) = (0x756e_6547, 0x4965_6e69, 0x6c65_746e);
// "AuthenticAMD".
const AMD: (u32, u32, u32) = (0x6874_7541, 0x6974_6e65, 0x444d_4163);

/// A host on which every automatic required check passes.
fn healthy_host(i: usize) -> Observation {
    match i {
        0 => Observation::Cpuid(INTEL.0, INTEL.1, INTEL.2),
        1 => Observation::Text(UBUNTU.to_string()),
        2 => Observation::Msr(1 << 18),
        3 => Observation::Msr(1 << 11),
        4 => Observation::Text("[    3.1] virt/tdx: module initialized\n".to_string()),
        5 | 6 => Observation::Msr(1 << 1),
        7 => Observation::Msr(1 << 40),
        8 => Observation::NotObserved,
        9 => Observation::KvmApiVersion(12),
        10 | 11 => Observation::Text("Y\n".to_string()),
        _ => Observation::NotObserved,
    }
}

/// Runs the required forest on `host`, counting probe calls and skip reports.
fn run_required(host: &dyn Fn(usize) -> Observation) -> (Vec<Event>, bool, Vec<usize>, Vec<usize>) {
    let tests: Vec<Test> = get_required_tests();
    let evaluated = RefCell::new(Vec::new());
    let skipped = RefCell::new(Vec::new());
    let probe = |i: usize| {
        evaluated.borrow_mut().push(i);
        evaluate(&tests[i], &host(i)).state
    };
    let skip = |i: usize| skipped.borrow_mut().push(i);
    let (events, passed) = run_test(&tests, &probe, &skip);
    (events, passed, evaluated.into_inner(), skipped.into_inner())
}

#[test]
fn cpu_vendor_failure_skips_whole_chain() {
    let (events, passed, evaluated, skipped) = run_required(&|i| match i {
        0 => Observation::Cpuid(AMD.0, AMD.1, AMD.2),
        _ => healthy_host(i),
    });
    assert!(!passed);
    assert_eq!(events[0], Event::Evaluated(0, TestState::Fail));
    for j in 1..9 {
        assert_eq!(events[j], Event::Skipped(j));
    }
    assert_eq!(skipped, (1..9).collect::<Vec<usize>>());
    assert_eq!(evaluated, vec![0, 9, 10, 11]);
    assert_eq!(events.len(), 12);
}

#[test]
fn tdx_disabled_skips_its_dependents() {
    let (events, passed, evaluated, skipped) = run_required(&|i| match i {
        3 => Observation::Msr(0),
        _ => healthy_host(i),
    });
    assert!(!passed);
    assert_eq!(
        &events[..4],
        &[
            Event::Evaluated(0, TestState::Pass),
            Event::Evaluated(1, TestState::Pass),
            Event::Evaluated(2, TestState::Pass),
            Event::Evaluated(3, TestState::Fail),
        ]
    );
    assert_eq!(skipped, vec![4, 5, 6, 7, 8]);
    assert_eq!(evaluated, vec![0, 1, 2, 3, 9, 10, 11]);
}

#[test]
fn healthy_host_passes_with_manual_checks_left_open() {
    let (events, passed, evaluated, skipped) = run_required(&healthy_host);
    assert!(passed);
    assert!(skipped.is_empty());
    assert_eq!(evaluated, (0..12).collect::<Vec<usize>>());
    assert_eq!(events[6], Event::Evaluated(6, TestState::Indeterminate));
    assert_eq!(events[8], Event::Evaluated(8, TestState::Indeterminate));
    for (i, e) in events.iter().enumerate() {
        if i != 6 && i != 8 {
            assert_eq!(*e, Event::Evaluated(i, TestState::Pass));
        }
    }
}

#[test]
fn tme_mt_bit_set_is_still_indeterminate() {
    let tests = get_required_tests();
    let r = evaluate(&tests[6], &Observation::Msr(1 << 1));
    assert_eq!(r.state, TestState::Indeterminate);
    let r = evaluate(&tests[6], &Observation::Msr(0));
    assert_eq!(r.state, TestState::Indeterminate);
}

#[test]
fn manual_node_overrides_stub_outcome() {
    let tests = get_required_tests();
    let probe = |i: usize| if i == 6 || i == 8 { TestState::Fail } else { TestState::Pass };
    let (events, passed) = run_test(&tests, &probe, &|_i: usize| {});
    assert!(passed);
    assert_eq!(events[6], Event::Evaluated(6, TestState::Indeterminate));
    assert_eq!(events[8], Event::Evaluated(8, TestState::Indeterminate));
}

#[test]
fn indeterminate_node_hides_its_children() {
    let tests = get_required_tests();
    let probe = |i: usize| if i == 9 { TestState::Indeterminate } else { TestState::Pass };
    let count = Cell::new(0);
    let skip = |_i: usize| count.set(count.get() + 1);
    let (events, passed) = run_test(&tests, &probe, &skip);
    assert!(passed);
    assert_eq!(events.len(), 10);
    assert_eq!(events[9], Event::Evaluated(9, TestState::Indeterminate));
    assert_eq!(count.get(), 0);
}

#[test]
fn leaf_failure_fails_required_forest() {
    let (events, passed, _, skipped) = run_required(&|i| match i {
        11 => Observation::Text("N\n".to_string()),
        _ => healthy_host(i),
    });
    assert!(!passed);
    assert_eq!(events[11], Event::Evaluated(11, TestState::Fail));
    assert!(skipped.is_empty());
}

fn full_run(required_fail: bool, optional_fail: bool) -> (CheckRun, Vec<(Section, usize)>, Vec<Section>) {
    let required = get_required_tests();
    let optional = get_optional_tests();
    let calls = RefCell::new(Vec::new());
    let sections = RefCell::new(Vec::new());
    let announce = |s: Section| sections.borrow_mut().push(s);
    let probe = |s: Section, i: usize| {
        calls.borrow_mut().push((s, i));
        match s {
            Section::Required => {
                let obs = if required_fail && i == 0 {
                    Observation::Cpuid(AMD.0, AMD.1, AMD.2)
                } else {
                    healthy_host(i)
                };
                evaluate(&required[i], &obs).state
            }
            Section::Optional => {
                let obs = if optional_fail { Observation::Msr(0) } else { Observation::Msr(1 << 31) };
                evaluate(&optional[i], &obs).state
            }
        }
    };
    let skip = |_s: Section, _i: usize| {};
    let run = run_all_checks(&required, &optional, &announce, &probe, &skip);
    (run, calls.into_inner(), sections.into_inner())
}

#[test]
fn optional_forest_runs_after_required_failure() {
    let (run, calls, sections) = full_run(true, false);
    assert!(!run.passed());
    assert_eq!(sections, vec![Section::Required, Section::Optional]);
    let optional_calls: Vec<usize> =
        calls.iter().filter(|c| c.0 == Section::Optional).map(|c| c.1).collect();
    assert_eq!(optional_calls, vec![0, 1, 2]);
    assert_eq!(
        run.optional,
        vec![
            Event::Evaluated(0, TestState::Indeterminate),
            Event::Evaluated(1, TestState::Pass),
            Event::Evaluated(2, TestState::Indeterminate),
        ]
    );
}

#[test]
fn optional_failure_does_not_fail_run() {
    let (run, _, _) = full_run(false, true);
    assert!(run.passed());
    assert!(run.required_passed);
    assert!(!run.optional_passed);
    assert_eq!(run.optional[1], Event::Evaluated(1, TestState::Fail));
}

#[test]
fn optional_failure_fails_its_own_forest() {
    let opt = get_optional_tests();
    let probe = |i: usize| if i == 1 { TestState::Fail } else { TestState::Pass };
    let (events, passed) = run_test(&opt, &probe, &|_i: usize| {});
    assert!(!passed);
    assert_eq!(events[1], Event::Evaluated(1, TestState::Fail));
    let one = vec![Test { end: 1, ..opt[1] }];
    let (events, passed) = run_test(&one, &|_i: usize| TestState::Fail, &|_i: usize| {});
    assert!(!passed);
    assert_eq!(events, vec![Event::Evaluated(0, TestState::Fail)]);
}

#[test]
fn two_runs_on_same_host_agree() {
    let host = |i: usize| match i {
        2 => Observation::Msr(0),
        _ => healthy_host(i),
    };
    let a = run_required(&host);
    let b = run_required(&host);
    assert_eq!(a.0, b.0);
    assert_eq!(a.1, b.1);
    let (r1, _, _) = full_run(true, true);
    let (r2, _, _) = full_run(true, true);
    assert_eq!(r1.required, r2.required);
    assert_eq!(r1.optional, r2.optional);
    assert_eq!(r1.passed(), r2.passed());
}

#[test]
fn skipped_subtree_is_listed_in_preorder() {
    let tests = get_required_tests();
    let seen = RefCell::new(Vec::new());
    let skip = |i: usize| seen.borrow_mut().push(tests[i].name);
    let mut events = vec![Event::Evaluated(3, TestState::Fail)];
    skip_subtree(&tests, 3, &skip, &mut events);
    assert_eq!(
        seen.into_inner(),
        vec![
            "Check TDX module initialized",
            "Check TME enabled",
            "Check TME-MT/TME-MK enabled",
            "Check TDX Key Split != 0",
            "Check SGX registration server",
        ]
    );
    assert_eq!(events.len(), 6);
    assert_eq!(events[5], Event::Skipped(8));
}
