//! Temperature monitoring support: thresholds, status classification and a
//! one-time capability probe.
//!
//! Readings themselves come from the host's sensor path; the manager holds
//! the thresholds, remembers the probe result so that repeated checks stay
//! quiet, and classifies readings exactly.  Temperatures are handled in
//! centi-degrees Celsius.

use vstd::prelude::*;

use vstd::string::StrSliceExecFns;

verus! {

/// Error raised by temperature handling.
#[derive(Debug)]
pub enum TemperatureError {
    /// A reading was attempted and failed.
    ReadFailed(String),
    /// The platform offers no temperature monitoring.
    NotSupported,
}

/// Temperature monitoring configuration, thresholds in centi-degrees.
#[derive(Debug, Clone)]
pub struct TemperatureConfig {
    /// Whether real readings should be attempted at all.
    pub enable_real_monitoring: bool,
    /// Degrade performance above this reading.
    pub warning_threshold_centi: u32,
    /// Shut down above this reading.
    pub critical_threshold_centi: u32,
}

impl Default for TemperatureConfig {
    /// Monitoring on, warnings at seventy-five degrees, critical at
    /// eighty-five.
    fn default() -> (c: TemperatureConfig)
        ensures
            c.enable_real_monitoring,
            c.warning_threshold_centi == 7500,
            c.critical_threshold_centi == 8500,
    {
        TemperatureConfig {
            enable_real_monitoring: true,
            warning_threshold_centi: 7500,
            critical_threshold_centi: 8500,
        }
    }
}

/// How a reading relates to the thresholds.
#[derive(Debug, Clone, Copy, PartialEq, Eq, Structural)]
pub enum TemperatureStatus {
    Normal,
    Warning,
    Critical,
}

impl TemperatureStatus {
    /// A short word naming the status.
    pub fn describe(&self) -> (r: String)
        ensures
            *self is Normal ==> r@ == "normal"@,
            *self is Warning ==> r@ == "warning"@,
            *self is Critical ==> r@ == "critical"@,
    {
        match self {
            TemperatureStatus::Normal => "normal".to_owned(),
            TemperatureStatus::Warning => "warning".to_owned(),
            TemperatureStatus::Critical => "critical".to_owned(),
        }
    }
}

/// Relies on `sysinfo::Components::new_with_refreshed_list`: how many
/// thermal components the machine exposes.  What the machine offers cannot
/// be promised.
#[verifier::external_body]
pub(crate) fn thermal_sensor_count() -> usize {
    sysinfo::Components::new_with_refreshed_list().list().len()
}

/// Holds the thresholds and the probe result, and classifies readings.
pub struct TemperatureManager {
    config: TemperatureConfig,
    has_real_monitoring: bool,
}

impl TemperatureManager {
    /// The configuration held.
    pub closed spec fn spec_config(&self) -> TemperatureConfig {
        self.config
    }

    /// Whether real readings are available.
    pub closed spec fn spec_has_monitoring(&self) -> bool {
        self.has_real_monitoring
    }

    /// Builds a manager from an already-probed sensor count: monitoring is
    /// available exactly when it is enabled and at least one sensor exists.
    pub fn with_sensor_count(config: TemperatureConfig, sensor_count: usize) -> (m:
        TemperatureManager)
        ensures
            m.spec_config() == config,
            m.spec_has_monitoring() == (config.enable_real_monitoring && sensor_count > 0),
    {
        let enabled: bool = config.enable_real_monitoring;
        let has_real_monitoring: bool = enabled && sensor_count > 0;
        TemperatureManager { config, has_real_monitoring }
    }

    /// Probes the machine for thermal sensors once and remembers the
    /// outcome, so later checks never probe (or log) again.  What the probe
    /// found cannot be pinned, but whatever it found, availability follows
    /// the rule of [`Self::with_sensor_count`].
    pub fn new(config: TemperatureConfig) -> (m: TemperatureManager)
        ensures
            m.spec_config() == config,
            m.spec_has_monitoring() ==> config.enable_real_monitoring,
            !config.enable_real_monitoring ==> !m.spec_has_monitoring(),
    {
        let sensor_count: usize = thermal_sensor_count();
        Self::with_sensor_count(config, sensor_count)
    }

    /// Whether real readings are available.
    pub fn supports_real_monitoring(&self) -> (r: bool)
        ensures
            r == self.spec_has_monitoring(),
    {
        self.has_real_monitoring
    }

    /// Whether real readings are available.
    pub fn has_temperature_monitoring(&self) -> (r: bool)
        ensures
            r == self.spec_has_monitoring(),
    {
        self.has_real_monitoring
    }

    /// Names where readings come from.
    pub fn provider_info(&self) -> (r: String)
        ensures
            self.spec_has_monitoring() ==> r@ == "system thermal sensors"@,
            !self.spec_has_monitoring() ==> r@ == "temperature monitoring unsupported"@,
    {
        if self.has_real_monitoring {
            "system thermal sensors".to_owned()
        } else {
            "temperature monitoring unsupported".to_owned()
        }
    }

    /// Classifies a reading against the thresholds: critical at or above
    /// the critical threshold, warning at or above the warning threshold,
    /// normal below both.  Without monitoring there is nothing to classify.
    pub fn check_temperature_status(&self, temp_centi: u32) -> (r: Result<
        TemperatureStatus,
        TemperatureError,
    >)
        ensures
            !self.spec_has_monitoring() ==> r is Err,
            self.spec_has_monitoring() ==> (r matches Ok(status) && status == (
            if temp_centi >= self.spec_config().critical_threshold_centi {
                TemperatureStatus::Critical
            } else if temp_centi >= self.spec_config().warning_threshold_centi {
                TemperatureStatus::Warning
            } else {
                TemperatureStatus::Normal
            })),
    {
        if !self.has_real_monitoring {
            return Err(TemperatureError::NotSupported);
        }
        if temp_centi >= self.config.critical_threshold_centi {
            Ok(TemperatureStatus::Critical)
        } else if temp_centi >= self.config.warning_threshold_centi {
            Ok(TemperatureStatus::Warning)
        } else {
            Ok(TemperatureStatus::Normal)
        }
    }
}

/// Whether a character is blank space around a sensor reading.
pub open spec fn spec_is_space(c: char) -> bool {
    c == ' ' || c == '\n' || c == '\t' || c == '\r'
}

/// Whether a character is a decimal digit.
pub open spec fn spec_is_digit(c: char) -> bool {
    48 <= c as int <= 57
}

/// How many blank characters open the text.
pub open spec fn spec_leading_spaces(s: Seq<char>) -> int
    decreases s.len(),
{
    if s.len() == 0 {
        0
    } else if spec_is_space(s[0]) {
        1 + spec_leading_spaces(s.drop_first())
    } else {
        0
    }
}

/// How many digits stand in a row from position `from` on.
pub open spec fn spec_digit_run(s: Seq<char>, from: int) -> int
    decreases s.len() - from,
{
    if from < 0 || from >= s.len() {
        0
    } else if spec_is_digit(s[from]) {
        1 + spec_digit_run(s, from + 1)
    } else {
        0
    }
}

/// Whether everything from position `from` on is blank.
pub open spec fn spec_only_spaces_from(s: Seq<char>, from: int) -> bool {
    forall|k: int| from <= k < s.len() ==> spec_is_space(#[trigger] s[k])
}

/// The number the digits at positions `from ..< to` spell, most significant
/// first.
pub open spec fn spec_digits_number(s: Seq<char>, from: int, to: int) -> int
    decreases to - from,
{
    if to <= from {
        0
    } else {
        spec_digits_number(s, from, to - 1) * 10 + (s[to - 1] as int - 48)
    }
}

/// A run of digits spells a non-negative number.
proof fn lemma_digits_number_nonneg(s: Seq<char>, from: int, to: int)
    requires
        forall|k: int| from <= k < to ==> spec_is_digit(#[trigger] s[k]),
    ensures
        spec_digits_number(s, from, to) >= 0,
    decreases to - from,
{
    if to > from {
        lemma_digits_number_nonneg(s, from, to - 1);
    }
}

/// The milli-degree value a thermal sysfs text denotes: optional blank
/// space, one run of digits spelling a number no larger than `i32::MAX`
/// (larger texts do not parse as a reading), optional blank space, and
/// nothing else.
pub open spec fn spec_thermal_millis(s: Seq<char>) -> Option<int> {
    let start = spec_leading_spaces(s);
    let run = spec_digit_run(s, start);
    if run >= 1 && spec_only_spaces_from(s, start + run) && spec_digits_number(
        s,
        start,
        start + run,
    ) <= i32::MAX {
        Some(spec_digits_number(s, start, start + run))
    } else {
        None
    }
}

/// The centi-degree reading a thermal sysfs text denotes: only a positive
/// milli-degree value counts as a reading.
pub open spec fn spec_thermal_reading(s: Seq<char>) -> Option<u32> {
    match spec_thermal_millis(s) {
        Some(millis) => if millis > 0 {
            Some((millis / 10) as u32)
        } else {
            None
        },
        None => None,
    }
}

/// Decides whether a character is blank space around a sensor reading.
fn is_space_char(c: char) -> (r: bool)
    ensures
        r == spec_is_space(c),
{
    c == ' ' || c == '\n' || c == '\t' || c == '\r'
}

/// Decides whether a character is a decimal digit.
fn is_digit_char(c: char) -> (r: bool)
    ensures
        r == spec_is_digit(c),
{
    let u: u32 = c as u32;
    48 <= u && u <= 57
}

/// Parses the text of a thermal sysfs file into a centi-degree reading:
/// a milli-degree number surrounded by nothing but blank space, and only
/// when it is positive.
pub fn parse_thermal_reading(text: &str) -> (r: Option<u32>)
    ensures
        r == spec_thermal_reading(text@),
{
    let len: usize = text.unicode_len();

    // Step over the leading blank space.
    let mut i: usize = 0;
    proof {
        assert(text@.skip(0) =~= text@);
    }
    while i < len && is_space_char(text.get_char(i))
        invariant
            i <= len,
            len == text@.len(),
            spec_leading_spaces(text@) == i + spec_leading_spaces(text@.skip(i as int)),
        decreases len - i,
    {
        proof {
            assert(text@.skip(i as int)[0] == text@[i as int]);
            assert(text@.skip(i as int).drop_first() =~= text@.skip(i + 1));
        }
        i = i + 1;
    }
    proof {
        if i < len {
            assert(text@.skip(i as int)[0] == text@[i as int]);
        } else {
            assert(text@.skip(i as int).len() == 0);
        }
        assert(spec_leading_spaces(text@) == i);
    }

    // Accumulate the digit run, remembering when it outgrows the bound.
    let start: usize = i;
    let mut j: usize = start;
    let mut value: u64 = 0;
    let mut too_big: bool = false;
    while j < len && is_digit_char(text.get_char(j))
        invariant
            start <= j <= len,
            len == text@.len(),
            spec_digit_run(text@, start as int) == (j - start) + spec_digit_run(text@, j as int),
            forall|k: int| start <= k < j ==> spec_is_digit(#[trigger] text@[k]),
            !too_big ==> value == spec_digits_number(text@, start as int, j as int),
            !too_big ==> value <= i32::MAX as u64,
            too_big ==> spec_digits_number(text@, start as int, j as int) > i32::MAX,
        decreases len - j,
    {
        let c: char = text.get_char(j);
        let d: u64 = (c as u32 - 48) as u64;
        proof {
            assert(spec_digit_run(text@, j as int) == 1 + spec_digit_run(text@, j + 1));
            assert(spec_digits_number(text@, start as int, j + 1) == spec_digits_number(
                text@,
                start as int,
                j as int,
            ) * 10 + (text@[j as int] as int - 48));
        }
        if !too_big {
            let next: u64 = value * 10 + d;
            if next > i32::MAX as u64 {
                too_big = true;
            } else {
                value = next;
            }
        } else {
            proof {
                lemma_digits_number_nonneg(text@, start as int, j as int);
            }
        }
        j = j + 1;
    }
    proof {
        assert(spec_digit_run(text@, j as int) == 0);
        assert(spec_digit_run(text@, start as int) == j - start);
    }

    // Only blank space may follow the number.
    let mut k: usize = j;
    while k < len && is_space_char(text.get_char(k))
        invariant
            j <= k <= len,
            len == text@.len(),
            forall|t: int| j <= t < k ==> spec_is_space(#[trigger] text@[t]),
        decreases len - k,
    {
        k = k + 1;
    }
    if k < len {
        proof {
            assert(!spec_is_space(text@[k as int]));
            assert(!spec_only_spaces_from(text@, j as int));
        }
        return None;
    }
    proof {
        assert(spec_only_spaces_from(text@, j as int));
    }

    if j == start {
        return None;
    }
    if too_big {
        return None;
    }
    if value == 0 {
        return None;
    }
    Some((value / 10) as u32)
}

} // verus!
