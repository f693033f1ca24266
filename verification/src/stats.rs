//! Statistics over the snapshots of a log.

use vstd::prelude::*;
use vstd::string::StringExecFns;
use crate::fixed_point::{mean_of, Milli};
use crate::metrics::ResourceSnapshot;
use crate::text::{decimal_text, one_decimal_text, push_decimal};

verus! {

/// The metrics of a snapshot that carry a fraction.
#[derive(Clone, Copy, Debug, PartialEq, Eq, Structural)]
pub enum Metric {
    CpuUsage,
    MemoryUsage,
    DiskUsage,
    NetIn,
    NetOut,
}

/// What a log says of the time it covers.
#[derive(Clone, Copy, Debug, PartialEq, Eq, Structural)]
pub struct LogStatistics {
    /// The number of snapshots in the log; never zero.
    pub samples: usize,
    pub average_cpu_usage_percent: Milli,
    pub average_memory_usage_percent: Milli,
    pub average_disk_usage_percent: Milli,
    pub max_net_in_kbps: Milli,
    pub max_net_out_kbps: Milli,
}

/// The values of one metric over all snapshots, in their order.
pub open spec fn column(snapshots: Seq<ResourceSnapshot>, metric: Metric) -> Seq<Milli> {
    Seq::new(snapshots.len(), |i: int| snapshots[i].metric(metric))
}

/// The largest of the given quantities in thousandths; zero for an empty
/// sequence.
pub open spec fn largest_of(values: Seq<Milli>) -> nat
    decreases values.len(),
{
    if values.len() == 0 {
        0
    } else if values.last().thousandths > largest_of(values.drop_last()) {
        values.last().thousandths as nat
    } else {
        largest_of(values.drop_last())
    }
}

/// The statistics of a log; none for a log without snapshots.
pub open spec fn statistics_of(snapshots: Seq<ResourceSnapshot>) -> Option<LogStatistics> {
    if snapshots.len() == 0 {
        None
    } else {
        Some(
            LogStatistics {
                samples: snapshots.len() as usize,
                average_cpu_usage_percent: Milli {
                    thousandths: mean_of(column(snapshots, Metric::CpuUsage)) as u128,
                },
                average_memory_usage_percent: Milli {
                    thousandths: mean_of(column(snapshots, Metric::MemoryUsage)) as u128,
                },
                average_disk_usage_percent: Milli {
                    thousandths: mean_of(column(snapshots, Metric::DiskUsage)) as u128,
                },
                max_net_in_kbps: Milli {
                    thousandths: largest_of(column(snapshots, Metric::NetIn)) as u128,
                },
                max_net_out_kbps: Milli {
                    thousandths: largest_of(column(snapshots, Metric::NetOut)) as u128,
                },
            },
        )
    }
}

/// One line of a report: a label, a quantity with one digit after the
/// decimal point, and its unit.
pub open spec fn report_line(label: Seq<char>, value: Milli, unit: Seq<char>) -> Seq<char> {
    label + one_decimal_text(value.thousandths as nat) + unit
}

/// The lines that present `stats` to a reader.
pub open spec fn report_of(stats: Option<LogStatistics>) -> Seq<Seq<char>> {
    match stats {
        None => seq!["No metric snapshots found in log."@],
        Some(stats) => seq![
            "Statistics over "@ + decimal_text(stats.samples as nat) + " samples:"@,
            report_line("Average CPU usage: "@, stats.average_cpu_usage_percent, "%"@),
            report_line("Average memory usage: "@, stats.average_memory_usage_percent, "%"@),
            report_line("Average disk usage: "@, stats.average_disk_usage_percent, "%"@),
            report_line("Max inbound network: "@, stats.max_net_in_kbps, " kbit/s"@),
            report_line("Max outbound network: "@, stats.max_net_out_kbps, " kbit/s"@),
        ],
    }
}

/// The largest of a sequence is at least each of its members, and, unless
/// the sequence is empty, is one of them.
pub proof fn lemma_largest_is_greatest_member(values: Seq<Milli>)
    ensures
        forall|i: int| 0 <= i < values.len() ==> values[i].thousandths <= largest_of(values),
        values.len() > 0 ==> exists|i: int|
            0 <= i < values.len() && values[i].thousandths == largest_of(values),
    decreases values.len(),
{
    if values.len() > 0 {
        let front = values.drop_last();
        lemma_largest_is_greatest_member(front);
        assert forall|i: int| 0 <= i < values.len() implies values[i].thousandths <= largest_of(
            values,
        ) by {
            if i < front.len() {
                assert(front[i] == values[i]);
            }
        }
        if values.last().thousandths > largest_of(front) || front.len() == 0 {
            assert(values[values.len() - 1].thousandths == largest_of(values));
        } else {
            let i = choose|i: int| 0 <= i < front.len() && front[i].thousandths == largest_of(front);
            assert(values[i] == front[i]);
        }
    }
}

impl ResourceSnapshot {
    /// The value of one metric in this snapshot.
    pub open spec fn metric(self, metric: Metric) -> Milli {
        match metric {
            Metric::CpuUsage => self.cpu_usage_percent,
            Metric::MemoryUsage => self.memory_usage_percent,
            Metric::DiskUsage => self.disk_usage_percent,
            Metric::NetIn => self.net_in_kbps,
            Metric::NetOut => self.net_out_kbps,
        }
    }

    /// The value of one metric in this snapshot.
    pub fn value_of(&self, metric: Metric) -> (value: Milli)
        ensures
            value == self.metric(metric),
    {
        match metric {
            Metric::CpuUsage => self.cpu_usage_percent,
            Metric::MemoryUsage => self.memory_usage_percent,
            Metric::DiskUsage => self.disk_usage_percent,
            Metric::NetIn => self.net_in_kbps,
            Metric::NetOut => self.net_out_kbps,
        }
    }
}

fn values_of(snapshots: &Vec<ResourceSnapshot>, metric: Metric) -> (values: Vec<Milli>)
    ensures
        values@ == column(snapshots@, metric),
{
    let mut values: Vec<Milli> = Vec::new();
    let mut i: usize = 0;
    while i < snapshots.len()
        invariant
            i <= snapshots.len(),
            values@ == column(snapshots@.take(i as int), metric),
        decreases snapshots.len() - i,
    {
        values.push(snapshots[i].value_of(metric));
        i += 1;
        assert(values@ =~= column(snapshots@.take(i as int), metric));
    }
    assert(snapshots@.take(snapshots.len() as int) =~= snapshots@);
    values
}

/// The largest of `values`; zero where there are none.
pub fn largest(values: &Vec<Milli>) -> (top: Milli)
    ensures
        top.thousandths == largest_of(values@),
{
    let mut top = Milli { thousandths: 0 };
    let mut i: usize = 0;
    while i < values.len()
        invariant
            i <= values.len(),
            top.thousandths == largest_of(values@.take(i as int)),
        decreases values.len() - i,
    {
        assert(values@.take(i + 1).drop_last() =~= values@.take(i as int));
        if values[i].thousandths > top.thousandths {
            top = values[i];
        }
        i += 1;
    }
    assert(values@.take(values.len() as int) =~= values@);
    top
}

/// The statistics of the log that holds `snapshots`.
pub fn summarize(snapshots: &Vec<ResourceSnapshot>) -> (stats: Option<LogStatistics>)
    ensures
        stats == statistics_of(snapshots@),
{
    if snapshots.len() == 0 {
        return None;
    }
    Some(
        LogStatistics {
            samples: snapshots.len(),
            average_cpu_usage_percent: Milli::mean(&values_of(snapshots, Metric::CpuUsage)),
            average_memory_usage_percent: Milli::mean(&values_of(snapshots, Metric::MemoryUsage)),
            average_disk_usage_percent: Milli::mean(&values_of(snapshots, Metric::DiskUsage)),
            max_net_in_kbps: largest(&values_of(snapshots, Metric::NetIn)),
            max_net_out_kbps: largest(&values_of(snapshots, Metric::NetOut)),
        },
    )
}

fn line(label: &str, value: Milli, unit: &str) -> (text: String)
    ensures
        text@ == report_line(label@, value, unit@),
{
    let mut text = String::from_str(label);
    value.push_one_decimal(&mut text);
    text.append(unit);
    text
}

/// The lines that present `stats` to a reader.
pub fn report(stats: &Option<LogStatistics>) -> (lines: Vec<String>)
    ensures
        lines.deep_view() == report_of(*stats),
{
    let mut lines: Vec<String> = Vec::new();
    match stats {
        None => {
            lines.push(String::from_str("No metric snapshots found in log."));
        },
        Some(stats) => {
            let mut heading = String::from_str("Statistics over ");
            push_decimal(&mut heading, stats.samples as u128);
            heading.append(" samples:");
            lines.push(heading);
            lines.push(line("Average CPU usage: ", stats.average_cpu_usage_percent, "%"));
            lines.push(line("Average memory usage: ", stats.average_memory_usage_percent, "%"));
            lines.push(line("Average disk usage: ", stats.average_disk_usage_percent, "%"));
            lines.push(line("Max inbound network: ", stats.max_net_in_kbps, " kbit/s"));
            lines.push(line("Max outbound network: ", stats.max_net_out_kbps, " kbit/s"));
        },
    }
    assert(lines.deep_view() =~= report_of(*stats));
    lines
}

} // verus!
