//! Configuration values, their defaults, and where the files of an
//! installation live.

use vstd::prelude::*;
use vstd::string::StringExecFns;
use crate::fixed_point::Milli;
use crate::text::push_char;

verus! {

/// The limits above which a metric raises an alert, in the units of the
/// snapshot fields of the same names.
#[derive(Clone, Copy, Debug, PartialEq, Eq, Structural)]
pub struct Thresholds {
    pub cpu_usage_percent: Milli,
    pub memory_usage_percent: Milli,
    pub disk_usage_percent: Milli,
    pub net_in_kbps: Milli,
    pub net_out_kbps: Milli,
}

#[derive(Clone, Debug, PartialEq, Eq)]
pub struct ServiceConfig {
    /// Seconds to wait between two samples.
    pub collection_interval_secs: u64,
    pub log_file_path: String,
}

#[derive(Clone, Debug, PartialEq, Eq)]
pub struct Config {
    pub service: ServiceConfig,
    pub thresholds: Thresholds,
}

/// The limits of a fresh installation: 80 % for processor and memory, 90 %
/// for disk space, and 1 000 000 kbit/s in either direction.
pub open spec fn default_thresholds() -> Thresholds {
    Thresholds {
        cpu_usage_percent: Milli { thousandths: 80_000 },
        memory_usage_percent: Milli { thousandths: 80_000 },
        disk_usage_percent: Milli { thousandths: 90_000 },
        net_in_kbps: Milli { thousandths: 1_000_000_000 },
        net_out_kbps: Milli { thousandths: 1_000_000_000 },
    }
}

/// `component` placed below the directory `base`. The two are separated by
/// one `/`, unless `base` is empty or brings its own.
pub open spec fn joined(base: Seq<char>, component: Seq<char>) -> Seq<char> {
    if base.len() == 0 || base.last() == '/' {
        base + component
    } else {
        base.push('/') + component
    }
}

/// The directory that holds the files of an installation: below the home
/// directory where there is one, below `/tmp` where there is none.
pub open spec fn base_dir_of(home: Option<&str>) -> Seq<char> {
    match home {
        Some(home) => joined(
            joined(joined(home@, "Library"@), "Application Support"@),
            "MacResourceMonitor"@,
        ),
        None => joined("/tmp"@, "MacResourceMonitor"@),
    }
}

/// The log file that a fresh installation writes to, named after the day
/// of its creation.
pub open spec fn log_file_path_of(base_dir: Seq<char>, date_stamp: Seq<char>) -> Seq<char> {
    joined(joined(base_dir, "logs"@), "metrics-"@ + date_stamp + ".log"@)
}

/// The launch agent definition under which the monitor runs as a service
/// of the user whose home directory is `home`.
pub open spec fn plist_path_of(home: Seq<char>) -> Seq<char> {
    joined(
        joined(joined(home, "Library"@), "LaunchAgents"@),
        "com.example.macresourcemonitor.plist"@,
    )
}

fn join(base: String, component: &str) -> (path: String)
    ensures
        path@ == joined(base@, component@),
{
    let mut path = base;
    let len: usize = path.as_str().unicode_len();
    if len > 0 && path.as_str().get_char(len - 1) != '/' {
        push_char(&mut path, '/');
    }
    path.append(component);
    path
}

/// The directory that holds the files of an installation, given the home
/// directory of the user, if known.
pub fn default_base_dir(home: Option<&str>) -> (dir: String)
    ensures
        dir@ == base_dir_of(home),
{
    match home {
        Some(home) => {
            let library = join(String::from_str(home), "Library");
            let support = join(library, "Application Support");
            join(support, "MacResourceMonitor")
        },
        None => join(String::from_str("/tmp"), "MacResourceMonitor"),
    }
}

/// The configuration file of an installation.
pub fn default_config_path(home: Option<&str>) -> (path: String)
    ensures
        path@ == joined(base_dir_of(home), "config.toml"@),
{
    join(default_base_dir(home), "config.toml")
}

/// The log file of a fresh installation below `base_dir`; `date_stamp` is
/// the day of creation, as in `20240131`.
pub fn default_log_file_path(base_dir: &str, date_stamp: &str) -> (path: String)
    ensures
        path@ == log_file_path_of(base_dir@, date_stamp@),
{
    let logs = join(String::from_str(base_dir), "logs");
    let mut name = String::from_str("metrics-");
    name.append(date_stamp);
    name.append(".log");
    join(logs, name.as_str())
}

/// The launch agent definition of the monitor, given the home directory of
/// the user.
pub fn plist_path(home: &str) -> (path: String)
    ensures
        path@ == plist_path_of(home@),
{
    let library = join(String::from_str(home), "Library");
    let agents = join(library, "LaunchAgents");
    join(agents, "com.example.macresourcemonitor.plist")
}

impl Thresholds {
    /// The limits of a fresh installation.
    pub fn standard() -> (limits: Thresholds)
        ensures
            limits == default_thresholds(),
    {
        Thresholds {
            cpu_usage_percent: Milli { thousandths: 80_000 },
            memory_usage_percent: Milli { thousandths: 80_000 },
            disk_usage_percent: Milli { thousandths: 90_000 },
            net_in_kbps: Milli { thousandths: 1_000_000_000 },
            net_out_kbps: Milli { thousandths: 1_000_000_000 },
        }
    }
}

impl Config {
    /// The configuration of a fresh installation that logs to
    /// `log_file_path`: one sample every five seconds, and the standard
    /// limits.
    pub fn with_defaults(log_file_path: String) -> (config: Config)
        ensures
            config.service.collection_interval_secs == 5,
            config.service.log_file_path == log_file_path,
            config.thresholds == default_thresholds(),
    {
        Config {
            service: ServiceConfig { collection_interval_secs: 5, log_file_path },
            thresholds: Thresholds::standard(),
        }
    }
}

} // verus!
