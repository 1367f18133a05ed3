use vstd::prelude::*;
use vstd::string::*;

use crate::model::{is_manual, settle, settled, Probe, Test, TestState};
use crate::os::{check_os, get_os_pretty_name, is_supported_os, pretty_name_of};
use crate::text::{chars_of, has_infix, text_contains};

verus! {

/// Whether bit `n` of a 64-bit register value is set.
pub open spec fn bit_set(v: u64, n: u64) -> bool {
    v & (1u64 << n) != 0
}

/// Returns whether bit `n` (counted from the least significant bit) of `v` is set.
pub fn msr_bit(v: u64, n: u64) -> (r: bool)
    requires
        n < 64,
    ensures
        r == bit_set(v, n),
{
    v & (1u64 << n) != 0
}

/// Bits 36 to 50 of the key-split register.
pub open spec fn key_split_field(v: u64) -> u64 {
    v & (0x7fffu64 << 36u64)
}

/// Whether the TDX key split (bits 36 to 50) is non-zero.
pub fn key_split_nonzero(v: u64) -> (r: bool)
    ensures
        r == (key_split_field(v) != 0),
{
    v & (0x7fffu64 << 36u64) != 0
}

/// Byte `i` (0 = least significant) of a 32-bit register.
pub open spec fn reg_byte(x: u32, i: u32) -> u8 {
    ((x >> (8 * i)) & 0xff) as u8
}

pub open spec fn reg_bytes(x: u32) -> Seq<u8> {
    seq![reg_byte(x, 0), reg_byte(x, 1), reg_byte(x, 2), reg_byte(x, 3)]
}

/// The 12-byte vendor identification of CPUID leaf 0: EBX, EDX, ECX, each
/// in memory order.
pub open spec fn vendor_bytes(ebx: u32, edx: u32, ecx: u32) -> Seq<u8> {
    reg_bytes(ebx) + reg_bytes(edx) + reg_bytes(ecx)
}

/// "GenuineIntel" in ASCII.
pub open spec fn intel_vendor() -> Seq<u8> {
    seq![
        0x47u8, 0x65u8, 0x6eu8, 0x75u8, 0x69u8, 0x6eu8, 0x65u8, 0x49u8, 0x6eu8, 0x74u8, 0x65u8,
        0x6cu8,
    ]
}

fn push_reg_bytes(out: &mut Vec<u8>, x: u32)
    ensures
        final(out)@ == old(out)@ + reg_bytes(x),
{
    let mut i: u32 = 0;
    let ghost start = old(out)@;
    while i < 4
        invariant
            i <= 4,
            out@ == start + reg_bytes(x).subrange(0, i as int),
        decreases 4 - i,
    {
        let b = ((x >> (8 * i)) & 0xff) as u8;
        assert(b == reg_byte(x, i));
        out.push(b);
        assert(reg_bytes(x).subrange(0, i + 1) =~= reg_bytes(x).subrange(0, i as int).push(
            reg_byte(x, i),
        ));
        assert(start + reg_bytes(x).subrange(0, i + 1) =~= (start + reg_bytes(x).subrange(
            0,
            i as int,
        )).push(b));
        i = i + 1;
    }
    assert(reg_bytes(x).subrange(0, 4) =~= reg_bytes(x));
}

/// The vendor identification bytes from the CPUID leaf 0 registers.
pub fn cpu_vendor_id(ebx: u32, edx: u32, ecx: u32) -> (r: Vec<u8>)
    ensures
        r@ == vendor_bytes(ebx, edx, ecx),
{
    let mut out: Vec<u8> = Vec::new();
    push_reg_bytes(&mut out, ebx);
    push_reg_bytes(&mut out, edx);
    push_reg_bytes(&mut out, ecx);
    assert(out@ =~= vendor_bytes(ebx, edx, ecx));
    out
}

/// Whether the CPUID leaf 0 registers name the vendor "GenuineIntel".
pub fn check_cpu_manufacturer_id(ebx: u32, edx: u32, ecx: u32) -> (r: bool)
    ensures
        r == (vendor_bytes(ebx, edx, ecx) == intel_vendor()),
{
    let id = cpu_vendor_id(ebx, edx, ecx);
    let want: Vec<u8> = vec![
        0x47u8, 0x65u8, 0x6eu8, 0x75u8, 0x69u8, 0x6eu8, 0x65u8, 0x49u8, 0x6eu8, 0x74u8, 0x65u8,
        0x6cu8,
    ];
    assert(want@ =~= intel_vendor());
    let mut i: usize = 0;
    while i < 12
        invariant
            id@ == vendor_bytes(ebx, edx, ecx),
            want@ == intel_vendor(),
            id@.len() == 12,
            i <= 12,
            forall|t: int| 0 <= t < i ==> id@[t] == want@[t],
        decreases 12 - i,
    {
        if id[i] != want[i] {
            return false;
        }
        i = i + 1;
    }
    assert(id@ =~= want@);
    true
}

} // verus!

verus! {

/// A character of the Unicode `White_Space` property.
pub open spec fn is_space(c: char) -> bool {
    ||| c == ' ' || c == '\t' || c == '\n' || c == '\x0B' || c == '\x0C' || c == '\r'
    ||| c == '\u{85}' || c == '\u{A0}' || c == '\u{1680}'
    ||| ('\u{2000}' <= c && c <= '\u{200A}')
    ||| c == '\u{2028}' || c == '\u{2029}' || c == '\u{202F}' || c == '\u{205F}' || c == '\u{3000}'
}

/// Index of the first character at or after `i` that is not white space.
pub open spec fn skip_space(s: Seq<char>, i: int) -> int
    decreases s.len() - i,
{
    if i < 0 || i >= s.len() || !is_space(s[i]) {
        i
    } else {
        skip_space(s, i + 1)
    }
}

/// End of `s[lo .. j]` once the white space that ends it is dropped.
pub open spec fn back_space(s: Seq<char>, lo: int, j: int) -> int
    decreases j - lo,
{
    if j <= lo || j > s.len() || !is_space(s[j - 1]) {
        j
    } else {
        back_space(s, lo, j - 1)
    }
}

/// `s` without white space at either end.
pub open spec fn trimmed(s: Seq<char>) -> Seq<char> {
    let a = skip_space(s, 0);
    s.subrange(a, back_space(s, a, s.len() as int))
}

/// A kernel module parameter reads as switched on.
pub open spec fn param_enabled(content: Seq<char>) -> bool {
    trimmed(content) == "1"@ || trimmed(content) == "Y"@
}

fn is_space_char(c: char) -> (r: bool)
    ensures
        r == is_space(c),
{
    c == ' ' || c == '\t' || c == '\n' || c == '\x0B' || c == '\x0C' || c == '\r' || c == '\u{85}'
        || c == '\u{A0}' || c == '\u{1680}' || ('\u{2000}' <= c && c <= '\u{200A}') || c == '\u{2028}'
        || c == '\u{2029}' || c == '\u{202F}' || c == '\u{205F}' || c == '\u{3000}'
}

/// Whether the contents of a kernel module parameter file, without
/// surrounding white space, read `1` or `Y`.
pub fn check_param_enabled(content: &str) -> (r: bool)
    ensures
        r == param_enabled(content@),
{
    let t = chars_of(content);
    let mut a: usize = 0;
    while a < t.len() && is_space_char(t[a])
        invariant
            a <= t.len(),
            skip_space(t@, 0) == skip_space(t@, a as int),
        decreases t.len() - a,
    {
        a = a + 1;
    }
    let mut b = t.len();
    while b > a && is_space_char(t[b - 1])
        invariant
            a <= b <= t.len(),
            back_space(t@, a as int, t@.len() as int) == back_space(t@, a as int, b as int),
        decreases b - a,
    {
        b = b - 1;
    }
    proof {
        reveal_strlit("1");
        reveal_strlit("Y");
    }
    let r = b - a == 1 && (t[a] == '1' || t[a] == 'Y');
    proof {
        let tr = t@.subrange(a as int, b as int);
        assert(skip_space(t@, a as int) == a);
        assert(back_space(t@, a as int, b as int) == b);
        assert(tr == trimmed(content@));
        assert("1"@ =~= seq!['1']);
        assert("Y"@ =~= seq!['Y']);
        if b - a == 1 {
            assert(tr =~= seq![t@[a as int]]);
            if t@[a as int] != '1' {
                assert(tr[0] != "1"@[0]);
            }
            if t@[a as int] != 'Y' {
                assert(tr[0] != "Y"@[0]);
            }
        } else {
            assert(tr.len() != "1"@.len());
            assert(tr.len() != "Y"@.len());
        }
        assert(r == (tr == "1"@ || tr == "Y"@));
    }
    r
}

} // verus!

verus! {

/// Where the signal of a probe comes from.
#[derive(Debug, Clone, Copy)]
pub enum Source {
    /// CPUID leaf 0.
    Cpuid,
    /// The text of `/etc/os-release`.
    OsRelease,
    /// A model-specific register of processor 0, by address.
    Msr(u32),
    /// The kernel log.
    KernelLog,
    /// The KVM device node and its API version query.
    KvmDevice,
    /// A parameter file of the `kvm_intel` module, by path.
    KvmParameter(&'static str),
    /// Nothing: the operator decides.
    Operator,
}

pub open spec fn source_of(p: Probe) -> Source {
    match p {
        Probe::CpuVendor => Source::Cpuid,
        Probe::OsDistro => Source::OsRelease,
        Probe::SgxEnabled => Source::Msr(0x3a),
        Probe::TdxEnabled => Source::Msr(0x1401),
        Probe::TdxModule => Source::KernelLog,
        Probe::TmeEnabled => Source::Msr(0x982),
        Probe::TmeMt => Source::Msr(0x982),
        Probe::TdxKeySplit => Source::Msr(0x981),
        Probe::SgxRegistrationServer => Source::Operator,
        Probe::KvmSupported => Source::KvmDevice,
        Probe::KvmSgxParameter => Source::KvmParameter("/sys/module/kvm_intel/parameters/sgx"),
        Probe::KvmTdxParameter => Source::KvmParameter("/sys/module/kvm_intel/parameters/tdx"),
        Probe::BiosMemoryMap => Source::Operator,
        Probe::TmeBypass => Source::Msr(0x982),
        Probe::SeamLoader => Source::Operator,
    }
}

/// The signal a probe reads.
pub fn probe_source(p: Probe) -> (r: Source)
    ensures
        r == source_of(p),
{
    match p {
        Probe::CpuVendor => Source::Cpuid,
        Probe::OsDistro => Source::OsRelease,
        Probe::SgxEnabled => Source::Msr(0x3a),
        Probe::TdxEnabled => Source::Msr(0x1401),
        Probe::TdxModule => Source::KernelLog,
        Probe::TmeEnabled => Source::Msr(0x982),
        Probe::TmeMt => Source::Msr(0x982),
        Probe::TdxKeySplit => Source::Msr(0x981),
        Probe::SgxRegistrationServer => Source::Operator,
        Probe::KvmSupported => Source::KvmDevice,
        Probe::KvmSgxParameter => Source::KvmParameter("/sys/module/kvm_intel/parameters/sgx"),
        Probe::KvmTdxParameter => Source::KvmParameter("/sys/module/kvm_intel/parameters/tdx"),
        Probe::BiosMemoryMap => Source::Operator,
        Probe::TmeBypass => Source::Msr(0x982),
        Probe::SeamLoader => Source::Operator,
    }
}

/// What was read from the host for one probe.
#[derive(Debug)]
pub enum Observation {
    /// CPUID leaf 0: EBX, EDX, ECX.
    Cpuid(u32, u32, u32),
    /// The text of a file or of a command's output.
    Text(String),
    /// The value of a model-specific register.
    Msr(u64),
    /// What the KVM API version query returned.
    KvmApiVersion(i32),
    /// The file does not exist.
    Missing,
    /// The signal could not be read; the text says why.
    Unreadable(String),
    /// Nothing was read.
    NotObserved,
}

/// The outcome of a probe and the reason shown with it.
#[derive(Debug)]
pub struct TestResult {
    pub state: TestState,
    pub reason: String,
}

pub open spec fn pass_if(b: bool) -> TestState {
    if b {
        TestState::Pass
    } else {
        TestState::Fail
    }
}

pub open spec fn msr_outcome(obs: Observation, bit: u64) -> TestState {
    match obs {
        Observation::Msr(v) => pass_if(bit_set(v, bit)),
        _ => TestState::Fail,
    }
}

/// The marker the kernel logs once the TDX module is up.
pub open spec fn module_marker() -> Seq<char> {
    "virt/tdx: module initialized"@
}

/// The outcome of probe `p` on observation `obs`, before the manual override.
pub open spec fn outcome_of(p: Probe, obs: Observation) -> TestState {
    match p {
        Probe::CpuVendor => match obs {
            Observation::Cpuid(b, d, c) => pass_if(vendor_bytes(b, d, c) == intel_vendor()),
            _ => TestState::Fail,
        },
        Probe::OsDistro => match obs {
            Observation::Text(t) => pass_if(
                match pretty_name_of(t@) {
                    Some(n) => is_supported_os(n),
                    None => false,
                },
            ),
            _ => TestState::Fail,
        },
        Probe::SgxEnabled => msr_outcome(obs, 18),
        Probe::TdxEnabled => msr_outcome(obs, 11),
        Probe::TdxModule => match obs {
            Observation::Text(t) => pass_if(has_infix(t@, module_marker())),
            _ => TestState::Fail,
        },
        Probe::TmeEnabled => msr_outcome(obs, 1),
        Probe::TmeMt => match obs {
            Observation::Msr(v) => if bit_set(v, 1) {
                TestState::Indeterminate
            } else {
                TestState::Fail
            },
            _ => TestState::Fail,
        },
        Probe::TdxKeySplit => match obs {
            Observation::Msr(v) => pass_if(key_split_field(v) != 0),
            _ => TestState::Fail,
        },
        Probe::KvmSupported => match obs {
            Observation::KvmApiVersion(v) => pass_if(v >= 0),
            _ => TestState::Fail,
        },
        Probe::KvmSgxParameter | Probe::KvmTdxParameter => match obs {
            Observation::Text(c) => pass_if(param_enabled(c@)),
            _ => TestState::Fail,
        },
        Probe::TmeBypass => msr_outcome(obs, 31),
        Probe::SgxRegistrationServer | Probe::BiosMemoryMap | Probe::SeamLoader => TestState::Indeterminate,
    }
}

/// The reason a probe gives whatever it observed.
pub open spec fn fixed_reason(p: Probe) -> Seq<char> {
    match p {
        Probe::CpuVendor => "The CPUID Manufacturer ID should be GenuineIntel"@,
        Probe::OsDistro => "Your OS distro is not supported yet."@,
        Probe::SgxEnabled => "The bit 18 of MSR 0x3a should be 1"@,
        Probe::TdxEnabled => "The bit 11 of MSR 0x1401 should be 1"@,
        Probe::TdxModule => "TDX module is required"@,
        Probe::TmeEnabled => "The bit 1 of MSR 0x982 should be 1."@,
        Probe::TmeMt => "The bit 1 of MSR 0x982 should be 1."@,
        Probe::TdxKeySplit => "TDX Key Split should be non-zero"@,
        Probe::TmeBypass => "The bit 31 of MSR 0x982 should be 1"@,
        _ => ""@,
    }
}

/// The reason shown with the outcome of probe `p` on observation `obs`.
pub open spec fn reason_of(p: Probe, obs: Observation) -> Seq<char> {
    match p {
        Probe::KvmSupported => match obs {
            Observation::KvmApiVersion(v) => if v < 0 {
                "KVM device node (/dev/kvm) should be accessible"@
            } else {
                ""@
            },
            _ => "Unable to read KVM device node file (/dev/kvm)"@,
        },
        Probe::KvmSgxParameter | Probe::KvmTdxParameter => {
            let path = match source_of(p) {
                Source::KvmParameter(path) => path@,
                _ => ""@,
            };
            match obs {
                Observation::Text(c) => if param_enabled(c@) {
                    ""@
                } else {
                    "Parameter file ("@ + path + ") contains invalid value: "@ + c@
                },
                Observation::Unreadable(e) => "Unable to read parameter file: "@ + e@,
                _ => "Provided parameter does not exist: "@ + path,
            }
        },
        _ => match obs {
            Observation::Unreadable(e) => fixed_reason(p) + " Unable to read it: "@ + e@,
            _ => fixed_reason(p),
        },
    }
}

fn fixed_reason_text(p: Probe) -> (r: String)
    ensures
        r@ == fixed_reason(p),
{
    match p {
        Probe::CpuVendor => String::from_str("The CPUID Manufacturer ID should be GenuineIntel"),
        Probe::OsDistro => String::from_str("Your OS distro is not supported yet."),
        Probe::SgxEnabled => String::from_str("The bit 18 of MSR 0x3a should be 1"),
        Probe::TdxEnabled => String::from_str("The bit 11 of MSR 0x1401 should be 1"),
        Probe::TdxModule => String::from_str("TDX module is required"),
        Probe::TmeEnabled => String::from_str("The bit 1 of MSR 0x982 should be 1."),
        Probe::TmeMt => String::from_str("The bit 1 of MSR 0x982 should be 1."),
        Probe::TdxKeySplit => String::from_str("TDX Key Split should be non-zero"),
        Probe::TmeBypass => String::from_str("The bit 31 of MSR 0x982 should be 1"),
        _ => String::from_str(""),
    }
}

fn pass_state(b: bool) -> (r: TestState)
    ensures
        r == pass_if(b),
{
    if b {
        TestState::Pass
    } else {
        TestState::Fail
    }
}

/// The outcome of probe `p` on observation `obs`, before the manual override.
fn probe_outcome(p: Probe, obs: &Observation) -> (r: TestState)
    ensures
        r == outcome_of(p, *obs),
{
    match p {
        Probe::CpuVendor => match obs {
            Observation::Cpuid(b, d, c) => pass_state(check_cpu_manufacturer_id(*b, *d, *c)),
            _ => TestState::Fail,
        },
        Probe::OsDistro => match obs {
            Observation::Text(t) => match get_os_pretty_name(t.as_str()) {
                Some(name) => pass_state(check_os(name.as_str())),
                None => TestState::Fail,
            },
            _ => TestState::Fail,
        },
        Probe::TdxModule => match obs {
            Observation::Text(t) => pass_state(
                text_contains(t.as_str(), "virt/tdx: module initialized"),
            ),
            _ => TestState::Fail,
        },
        Probe::TmeMt => match obs {
            Observation::Msr(v) => if msr_bit(*v, 1) {
                TestState::Indeterminate
            } else {
                TestState::Fail
            },
            _ => TestState::Fail,
        },
        Probe::TdxKeySplit => match obs {
            Observation::Msr(v) => pass_state(key_split_nonzero(*v)),
            _ => TestState::Fail,
        },
        Probe::KvmSupported => match obs {
            Observation::KvmApiVersion(v) => pass_state(*v >= 0),
            _ => TestState::Fail,
        },
        Probe::KvmSgxParameter | Probe::KvmTdxParameter => match obs {
            Observation::Text(c) => pass_state(check_param_enabled(c.as_str())),
            _ => TestState::Fail,
        },
        Probe::SgxRegistrationServer | Probe::BiosMemoryMap | Probe::SeamLoader => {
            TestState::Indeterminate
        },
        Probe::SgxEnabled | Probe::TdxEnabled | Probe::TmeEnabled | Probe::TmeBypass => {
            let bit: u64 = match p {
                Probe::SgxEnabled => 18,
                Probe::TdxEnabled => 11,
                Probe::TmeEnabled => 1,
                _ => 31,
            };
            match obs {
                Observation::Msr(v) => pass_state(msr_bit(*v, bit)),
                _ => TestState::Fail,
            }
        },
    }
}

/// The reason shown with the outcome of probe `p` on observation `obs`.
fn probe_reason(p: Probe, obs: &Observation) -> (r: String)
    ensures
        r@ == reason_of(p, *obs),
{
    match p {
        Probe::KvmSupported => match obs {
            Observation::KvmApiVersion(v) => if *v < 0 {
                String::from_str("KVM device node (/dev/kvm) should be accessible")
            } else {
                String::from_str("")
            },
            _ => String::from_str("Unable to read KVM device node file (/dev/kvm)"),
        },
        Probe::KvmSgxParameter | Probe::KvmTdxParameter => {
            let path: &str = match probe_source(p) {
                Source::KvmParameter(path) => path,
                _ => "",
            };
            match obs {
                Observation::Text(c) => if check_param_enabled(c.as_str()) {
                    String::from_str("")
                } else {
                    String::from_str("Parameter file (").concat(path).concat(
                        ") contains invalid value: ",
                    ).concat(c.as_str())
                },
                Observation::Unreadable(e) => String::from_str(
                    "Unable to read parameter file: ",
                ).concat(e.as_str()),
                _ => String::from_str("Provided parameter does not exist: ").concat(path),
            }
        },
        _ => match obs {
            Observation::Unreadable(e) => fixed_reason_text(p).concat(" Unable to read it: ").concat(
                e.as_str(),
            ),
            _ => fixed_reason_text(p),
        },
    }
}

/// Evaluates node `test` on what was read for its probe: the outcome, with
/// the manual override applied, and the reason shown with it.
pub fn evaluate(test: &Test, obs: &Observation) -> (r: TestResult)
    ensures
        r.state == settled(*test, outcome_of(test.probe, *obs)),
        is_manual(*test) ==> r.state == TestState::Indeterminate,
        r.reason@ == reason_of(test.probe, *obs),
{
    let raw = probe_outcome(test.probe, obs);
    TestResult { state: settle(test, raw), reason: probe_reason(test.probe, obs) }
}

} // verus!
