//! Platform-specific tuning hints: how often the hot loop should yield, and
//! whether the machine is of a class worth optimizing for.
//!
//! The machine identifies itself at run time; the rules mapping that identity
//! to a hint are exact.

use vstd::prelude::*;

use crate::temperature::thermal_sensor_count;

verus! {

/// Relies on `sysinfo::System::kernel_long_version`: the kernel name and
/// version, such as `Linux 6.8.0` or `Windows OS Build 20348`.  What the
/// machine reports cannot be promised.
#[verifier::external_body]
fn kernel_long_version_raw() -> String {
    sysinfo::System::kernel_long_version()
}

/// Relies on `sysinfo::System::name`: the running system's name, if it can
/// be determined.
#[verifier::external_body]
fn os_name_raw() -> Option<String> {
    sysinfo::System::name()
}

/// Relies on `sysinfo::System::cpu_arch`: the processor architecture, such
/// as `x86_64` or `arm64`.
#[verifier::external_body]
fn cpu_arch_raw() -> String {
    sysinfo::System::cpu_arch()
}

/// Whether a text opens with the given prefix.
pub open spec fn spec_has_prefix(s: Seq<char>, prefix: Seq<char>) -> bool {
    prefix.len() <= s.len() && s.subrange(0, prefix.len() as int) == prefix
}

/// Decides whether a text opens with the given prefix.
fn str_has_prefix(s: &str, prefix: &str) -> (r: bool)
    ensures
        r == spec_has_prefix(s@, prefix@),
{
    let n: usize = prefix.unicode_len();
    let m: usize = s.unicode_len();
    if n > m {
        return false;
    }
    let mut i: usize = 0;
    while i < n
        invariant
            i <= n,
            n == prefix@.len(),
            m == s@.len(),
            n <= m,
            forall|k: int| 0 <= k < i ==> s@[k] == prefix@[k],
        decreases n - i,
    {
        if s.get_char(i) != prefix.get_char(i) {
            proof {
                assert(s@.subrange(0, n as int)[i as int] == s@[i as int]);
            }
            return false;
        }
        i = i + 1;
    }
    proof {
        assert(s@.subrange(0, n as int) =~= prefix@);
    }
    true
}

/// How many candidate evaluations the hot loop runs between voluntary
/// yields, by the kernel the machine names: Linux kernels tolerate the
/// longest bursts, Windows shorter ones, and anything else gets the
/// conservative figure (Mac-class kernels name themselves Darwin and land
/// there too).
pub open spec fn spec_yield_frequency(kernel: Seq<char>) -> u64 {
    if spec_has_prefix(kernel, "Linux"@) {
        2000u64
    } else if spec_has_prefix(kernel, "Windows"@) {
        1500u64
    } else {
        1000u64
    }
}

/// The yield frequency for a given kernel name.
fn yield_frequency_for(kernel: &str) -> (r: u64)
    ensures
        r == spec_yield_frequency(kernel@),
{
    if str_has_prefix(kernel, "Linux") {
        2000
    } else if str_has_prefix(kernel, "Windows") {
        1500
    } else {
        1000
    }
}

/// How many candidate evaluations the hot loop should run between voluntary
/// yields on this machine.
pub fn get_platform_yield_frequency() -> (r: u64)
    ensures
        1000 <= r <= 2000,
        exists|kernel: Seq<char>| r == #[trigger] spec_yield_frequency(kernel),
{
    let kernel: String = kernel_long_version_raw();
    let r: u64 = yield_frequency_for(kernel.as_str());
    proof {
        assert(r == spec_yield_frequency(kernel@));
    }
    r
}

/// Whether an architecture is of the class the engine is tuned for.
pub open spec fn spec_high_performance_arch(arch: Seq<char>) -> bool {
    ||| arch == "x86_64"@
    ||| arch == "amd64"@
    ||| arch == "aarch64"@
    ||| arch == "arm64"@
}

/// Whether a given architecture is of the class the engine is tuned for.
fn arch_supports_high_performance(arch: &String) -> (r: bool)
    ensures
        r == spec_high_performance_arch(arch@),
{
    let x86_64: String = "x86_64".to_owned();
    let amd64: String = "amd64".to_owned();
    let aarch64: String = "aarch64".to_owned();
    let arm64: String = "arm64".to_owned();
    *arch == x86_64 || *arch == amd64 || *arch == aarch64 || *arch == arm64
}

/// Whether this machine's processor is of the class the engine is tuned for.
pub fn supports_high_performance() -> (r: bool)
    ensures
        exists|arch: Seq<char>| r == #[trigger] spec_high_performance_arch(arch),
{
    let arch: String = cpu_arch_raw();
    let r: bool = arch_supports_high_performance(&arch);
    proof {
        assert(r == spec_high_performance_arch(arch@));
    }
    r
}

/// A short description of the platform: the system name and the processor
/// architecture, joined by a dash.
pub fn get_platform_info() -> (r: String)
    ensures
        r@.len() > 0,
{
    let mut out: String = match os_name_raw() {
        Some(name) => {
            if name.as_str().is_empty() {
                "unknown".to_owned()
            } else {
                name
            }
        },
        None => "unknown".to_owned(),
    };
    proof {
        reveal_strlit("unknown");
        reveal_strlit("-");
    }
    vstd::string::StringExecFns::append(&mut out, "-");
    let arch: String = cpu_arch_raw();
    vstd::string::StringExecFns::append(&mut out, arch.as_str());
    out
}

/// What the platform offers for temperature monitoring.
pub struct PlatformTemperatureCapabilities {
    pub platform_name: String,
    pub arch: String,
    pub provider_type: String,
}

impl PlatformTemperatureCapabilities {
    /// A one-line description of the capabilities.
    pub fn summary(&self) -> (r: String)
        ensures
            r@.len() >= self.platform_name@.len(),
    {
        let mut out: String = self.platform_name.clone();
        vstd::string::StringExecFns::append(&mut out, " ");
        vstd::string::StringExecFns::append(&mut out, self.arch.as_str());
        vstd::string::StringExecFns::append(&mut out, " via ");
        vstd::string::StringExecFns::append(&mut out, self.provider_type.as_str());
        out
    }
}

/// Probes what the platform offers for temperature monitoring.  Every field
/// of the answer is a non-empty name.
pub fn get_platform_temperature_capabilities() -> (r: PlatformTemperatureCapabilities)
    ensures
        r.platform_name@.len() > 0,
        r.arch@.len() > 0,
        r.provider_type@.len() > 0,
{
    proof {
        reveal_strlit("unknown");
        reveal_strlit("thermal sensors");
        reveal_strlit("unsupported");
    }
    let platform_name: String = match os_name_raw() {
        Some(name) => {
            if name.as_str().is_empty() {
                "unknown".to_owned()
            } else {
                name
            }
        },
        None => "unknown".to_owned(),
    };
    let arch_probe: String = cpu_arch_raw();
    let arch: String = if arch_probe.as_str().is_empty() {
        "unknown".to_owned()
    } else {
        arch_probe
    };
    let provider_type: String = if thermal_sensor_count() > 0 {
        "thermal sensors".to_owned()
    } else {
        "unsupported".to_owned()
    };
    PlatformTemperatureCapabilities { platform_name, arch, provider_type }
}

} // verus!
