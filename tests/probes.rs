use tdxhost::check_os;
use tdxhost::forest::{get_optional_tests, get_required_tests};
use tdxhost::model::{Probe, TestOperationState, TestOptionalState, TestState};
use tdxhost::os::get_os_pretty_name;
use tdxhost::probe::{
    check_cpu_manufacturer_id, check_param_enabled, cpu_vendor_id, evaluate, key_split_nonzero, msr_bit,
    probe_source, Observation, Source, TestResult,
};
use tdxhost::report::{registration_server, report_result, report_skip_result, state_label, Emphasis};
use tdxhost::text::text_contains;
use tdxhost::{Cli, TdxCommand};

#[test]
fn pretty_name_is_read_from_os_release() {
    let text = "NAME=\"Ubuntu\"\nPRETTY_NAME=\"Ubuntu 22.04.1 LTS\"\nID=ubuntu\n";
    assert_eq!(get_os_pretty_name(text).as_deref(), Some("Ubuntu 22.04.1 LTS"));
    let crlf = "ID=rhel\r\nPRETTY_NAME=\"Red Hat Enterprise Linux 8.7 (Ootpa)\"\r\n";
    assert_eq!(get_os_pretty_name(crlf).as_deref(), Some("Red Hat Enterprise Linux 8.7 (Ootpa)"));
    let last_line = "ID=centos\nPRETTY_NAME=\"CentOS Stream 9\"";
    assert_eq!(get_os_pretty_name(last_line).as_deref(), Some("CentOS Stream 9"));
}

#[test]
fn pretty_name_missing_or_unquoted() {
    assert_eq!(get_os_pretty_name("NAME=\"Ubuntu\"\n"), None);
    assert_eq!(get_os_pretty_name(""), None);
    assert_eq!(get_os_pretty_name("PRETTY_NAME=Debian\n"), None);
    assert_eq!(get_os_pretty_name("PRETTY_NAME=\"\"\"\n").as_deref(), Some(""));
}

#[test]
fn supported_distributions() {
    assert!(check_os("Ubuntu 22.04.1 LTS"));
    assert!(check_os("Red Hat Enterprise Linux 8.7 (Ootpa)"));
    assert!(check_os("CentOS Stream 9"));
    assert!(!check_os("Ubuntu 22.04.2 LTS"));
    assert!(!check_os("ubuntu 22.04.1 lts"));
    assert!(!check_os(""));
}

#[test]
fn cpu_vendor_bytes_and_match() {
    let id = cpu_vendor_id(0x756e_6547, 0x4965_6e69, 0x6c65_746e);
    assert_eq!(id, b"GenuineIntel".to_vec());
    assert!(check_cpu_manufacturer_id(0x756e_6547, 0x4965_6e69, 0x6c65_746e));
    assert!(!check_cpu_manufacturer_id(0x6874_7541, 0x6974_6e65, 0x444d_4163));
    assert!(!check_cpu_manufacturer_id(0x756e_6547, 0x6c65_746e, 0x4965_6e69));
}

#[test]
fn register_bits() {
    assert!(msr_bit(1 << 18, 18));
    assert!(!msr_bit(1 << 18, 17));
    assert!(msr_bit(u64::MAX, 63));
    assert!(key_split_nonzero(1 << 36));
    assert!(key_split_nonzero(1 << 50));
    assert!(!key_split_nonzero(1 << 35));
    assert!(!key_split_nonzero(1 << 51));
    assert!(!key_split_nonzero(0));
}

#[test]
fn kvm_parameter_contents() {
    assert!(check_param_enabled("Y\n"));
    assert!(check_param_enabled("  1 "));
    assert!(check_param_enabled("\u{3000}Y\t"));
    assert!(!check_param_enabled("N\n"));
    assert!(!check_param_enabled("11"));
    assert!(!check_param_enabled(""));
    assert!(!check_param_enabled("Y Y"));
}

#[test]
fn kernel_log_marker_search() {
    assert!(text_contains("a\n[ 1.0] virt/tdx: module initialized\n", "virt/tdx: module initialized"));
    assert!(!text_contains("virt/tdx: module initialization failed", "virt/tdx: module initialized"));
    assert!(text_contains("abc", ""));
    assert!(!text_contains("", "a"));
}

#[test]
fn probe_sources() {
    assert!(matches!(probe_source(Probe::SgxEnabled), Source::Msr(0x3a)));
    assert!(matches!(probe_source(Probe::TdxEnabled), Source::Msr(0x1401)));
    assert!(matches!(probe_source(Probe::TdxKeySplit), Source::Msr(0x981)));
    assert!(matches!(probe_source(Probe::TmeBypass), Source::Msr(0x982)));
    assert!(matches!(probe_source(Probe::SgxRegistrationServer), Source::Operator));
    match probe_source(Probe::KvmTdxParameter) {
        Source::KvmParameter(p) => assert_eq!(p, "/sys/module/kvm_intel/parameters/tdx"),
        _ => panic!("expected a parameter file"),
    }
}

#[test]
fn evaluation_outcomes_and_reasons() {
    let req = get_required_tests();
    let r = evaluate(&req[2], &Observation::Msr(0));
    assert_eq!(r.state, TestState::Fail);
    assert_eq!(r.reason, "The bit 18 of MSR 0x3a should be 1");
    assert_eq!(evaluate(&req[2], &Observation::Msr(1 << 18)).state, TestState::Pass);
    let r = evaluate(&req[3], &Observation::Unreadable("denied".to_string()));
    assert_eq!(r.state, TestState::Fail);
    assert_eq!(r.reason, "The bit 11 of MSR 0x1401 should be 1 Unable to read it: denied");
    let r = evaluate(&req[9], &Observation::KvmApiVersion(-1));
    assert_eq!(r.state, TestState::Fail);
    assert_eq!(r.reason, "KVM device node (/dev/kvm) should be accessible");
    let r = evaluate(&req[9], &Observation::Unreadable("no such file".to_string()));
    assert_eq!(r.reason, "Unable to read KVM device node file (/dev/kvm)");
    let r = evaluate(&req[9], &Observation::KvmApiVersion(0));
    assert_eq!(r.state, TestState::Pass);
    assert_eq!(r.reason, "");
    let r = evaluate(&req[10], &Observation::Text("N\n".to_string()));
    assert_eq!(r.state, TestState::Fail);
    assert_eq!(
        r.reason,
        "Parameter file (/sys/module/kvm_intel/parameters/sgx) contains invalid value: N\n"
    );
    let r = evaluate(&req[11], &Observation::Missing);
    assert_eq!(r.reason, "Provided parameter does not exist: /sys/module/kvm_intel/parameters/tdx");
    let r = evaluate(&req[11], &Observation::Unreadable("EIO".to_string()));
    assert_eq!(r.reason, "Unable to read parameter file: EIO");
    let r = evaluate(&req[1], &Observation::Text("PRETTY_NAME=\"Debian 12\"\n".to_string()));
    assert_eq!(r.state, TestState::Fail);
    assert_eq!(r.reason, "Your OS distro is not supported yet.");
    let r = evaluate(&req[4], &Observation::Text("nothing here".to_string()));
    assert_eq!(r.state, TestState::Fail);
    assert_eq!(evaluate(&req[7], &Observation::Msr(1 << 35)).state, TestState::Fail);
    assert_eq!(evaluate(&req[0], &Observation::NotObserved).state, TestState::Fail);
}

#[test]
fn forest_shapes() {
    let req = get_required_tests();
    assert_eq!(req.len(), 12);
    let ends: Vec<usize> = req.iter().map(|t| t.end).collect();
    assert_eq!(ends, vec![9, 9, 9, 9, 5, 6, 7, 8, 9, 12, 11, 12]);
    assert_eq!(req[0].probe, Probe::CpuVendor);
    assert_eq!(req[6].operation, TestOperationState::Manual);
    assert_eq!(req[8].operation, TestOperationState::Manual);
    assert!(req.iter().all(|t| t.optional_state == TestOptionalState::Required));
    let opt = get_optional_tests();
    let probes: Vec<Probe> = opt.iter().map(|t| t.probe).collect();
    assert_eq!(probes, vec![Probe::BiosMemoryMap, Probe::TmeBypass, Probe::SeamLoader]);
    assert!(opt.iter().all(|t| t.optional_state == TestOptionalState::Optional && t.end > 0));
}

#[test]
fn report_lines() {
    let req = get_required_tests();
    let opt = get_optional_tests();
    let pass = report_result(&req[2], TestResult { state: TestState::Pass, reason: "x".to_string() });
    assert_eq!(pass.emphasis, Emphasis::Positive);
    assert_eq!(pass.reason, None);
    assert_eq!(pass.text, "Check BIOS: SGX = Enabled");
    let fail = report_result(&req[2], TestResult { state: TestState::Fail, reason: "why".to_string() });
    assert_eq!(fail.emphasis, Emphasis::Blocking);
    assert_eq!(fail.reason.as_deref(), Some("why"));
    let opt_fail = report_result(&opt[1], TestResult { state: TestState::Fail, reason: "r".to_string() });
    assert_eq!(opt_fail.emphasis, Emphasis::Advisory);
    let manual = report_result(&req[6], TestResult { state: TestState::Indeterminate, reason: "r".to_string() });
    assert_eq!(manual.emphasis, Emphasis::Advisory);
    assert_eq!(manual.reason.as_deref(), Some("Unable to check in program. Please check manually."));
    let empty = report_result(&req[9], TestResult { state: TestState::Fail, reason: String::new() });
    assert_eq!(empty.reason, None);
    let warn = report_result(&req[9], TestResult { state: TestState::Warning, reason: "w".to_string() });
    assert_eq!(warn.emphasis, Emphasis::Notice);
    let skip = report_skip_result(&req[3]);
    assert_eq!(skip.text, "Check TDX enabled");
    assert_eq!(skip.emphasis, Emphasis::Informational);
    assert_eq!(skip.reason, None);
}

#[test]
fn labels_and_registration_server() {
    assert_eq!(state_label(TestState::Pass), "OK");
    assert_eq!(state_label(TestState::Fail), "FAIL");
    assert_eq!(state_label(TestState::Warning), "WARNING");
    assert_eq!(state_label(TestState::Indeterminate), "TBD");
    assert_eq!(state_label(TestState::Skipped), "SKIP");
    assert_eq!(registration_server(1 << 27), "SBX");
    assert_eq!(registration_server(0), "LIV");
}

#[test]
fn cli_has_one_command() {
    let cli = Cli { cmd: TdxCommand::Check };
    assert_eq!(cli.cmd, TdxCommand::Check);
}
