//! Battery readings: where each metric comes from on each operating system,
//! and what a reading becomes.
use vstd::prelude::*;
use vstd::string::*;
use crate::command::{invocation, Invocation, InvocationSpec};
use crate::platform::OsFamily;
use crate::text::{normalized, pop_newline};

verus! {

/// A battery metric.
#[derive(Clone, Copy, Debug, PartialEq, Eq, Structural)]
pub enum Metric {
    /// The charge, in percent.
    Percentage,
    /// The charge status (charging, discharging, ...).
    Status,
}

/// The sysfs files that hold the battery metrics on Linux-like systems.
pub struct SysfsPaths {
    pub capacity: String,
    pub status: String,
}

/// Where a battery metric is read from.
pub enum BatterySource {
    /// A file whose contents, less one trailing newline, are the reading; a
    /// file that cannot be read gives the empty reading.
    File(String),
    /// A command whose standard output, as it is, is the reading.
    Query(Invocation),
}

/// What a [`BatterySource`] describes.
pub enum BatterySourceSpec {
    File(Seq<char>),
    Query(InvocationSpec),
}

impl View for BatterySource {
    type V = BatterySourceSpec;

    open spec fn view(&self) -> BatterySourceSpec {
        match self {
            BatterySource::File(p) => BatterySourceSpec::File(p@),
            BatterySource::Query(c) => BatterySourceSpec::Query(c@),
        }
    }
}

/// `sysctl -n -b <key>`: prints the value of a system variable, bare.
pub open spec fn sysctl_query(key: Seq<char>) -> InvocationSpec {
    InvocationSpec { program: "sysctl"@, args: seq!["-n"@, "-b"@, key] }
}

/// Where `metric` comes from on `os`, given the sysfs files of Linux-like systems.
pub open spec fn battery_source_spec(
    os: OsFamily,
    metric: Metric,
    capacity: Seq<char>,
    status: Seq<char>,
) -> BatterySourceSpec {
    match (os, metric) {
        (OsFamily::Linux, Metric::Percentage) => BatterySourceSpec::File(capacity),
        (OsFamily::Linux, Metric::Status) => BatterySourceSpec::File(status),
        (OsFamily::NetBsd, Metric::Percentage) => BatterySourceSpec::Query(
            sysctl_query("hw.acpi.battery.life"@),
        ),
        (OsFamily::NetBsd, Metric::Status) => BatterySourceSpec::Query(
            sysctl_query("hw.acpi.battery.state"@),
        ),
    }
}

/// Where `metric` is read from on `os`.
pub fn battery_source(os: OsFamily, metric: Metric, paths: &SysfsPaths) -> (r: BatterySource)
    ensures
        r@ == battery_source_spec(os, metric, paths.capacity@, paths.status@),
{
    match os {
        OsFamily::Linux => match metric {
            Metric::Percentage => BatterySource::File(paths.capacity.clone()),
            Metric::Status => BatterySource::File(paths.status.clone()),
        },
        OsFamily::NetBsd => {
            let key = match metric {
                Metric::Percentage => "hw.acpi.battery.life",
                Metric::Status => "hw.acpi.battery.state",
            };
            let query = invocation("sysctl", &["-n", "-b", key]);
            assert(query@.args =~= seq!["-n"@, "-b"@, key@]);
            BatterySource::Query(query)
        },
    }
}

/// The reading of a sysfs file, given its contents, or `None` when it could
/// not be read: the contents less one trailing newline, or the empty text.
pub fn file_reading(contents: Option<String>) -> (r: String)
    ensures
        r@ == match contents {
            Some(s) => normalized(s@),
            None => Seq::<char>::empty(),
        },
{
    match contents {
        Some(s) => pop_newline(s),
        None => String::new(),
    }
}

} // verus!
