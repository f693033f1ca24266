//! Sampling: from one round of raw operating-system readings, and what the
//! collector remembers of the round before, to a snapshot.

use vstd::prelude::*;
use vstd::arithmetic::div_mod::lemma_div_denominator;
use crate::fixed_point::{
    lemma_mean_within_limit, lemma_percentage_of_part, mean_of, percentage_of, Milli,
};
use crate::time::{millis_between, Timestamp};

verus! {

/// The cumulative byte counters of one network interface.
#[derive(Clone, Copy, Debug, PartialEq, Eq, Structural)]
pub struct InterfaceCounters {
    pub received: u64,
    pub transmitted: u64,
}

/// The capacity of one mounted volume, in bytes.
#[derive(Clone, Copy, Debug, PartialEq, Eq, Structural)]
pub struct VolumeSpace {
    pub total: u64,
    pub available: u64,
}

/// One round of raw readings, as the operating system reported them.
#[derive(Clone, Debug)]
pub struct SystemReading {
    /// Utilization of each logical core, in percent.
    pub cpu_core_usage: Vec<Milli>,
    /// Installed memory, in kibibytes.
    pub total_memory: u64,
    /// Memory in use, in kibibytes.
    pub used_memory: u64,
    /// Every visible volume.
    pub volumes: Vec<VolumeSpace>,
    /// Every visible network interface.
    pub interfaces: Vec<InterfaceCounters>,
}

/// The metrics of one sampling cycle.
#[derive(Clone, Copy, Debug, PartialEq, Eq, Structural)]
pub struct ResourceSnapshot {
    /// The instant of sampling.
    pub timestamp: Timestamp,
    /// Mean utilization of all logical cores, in percent.
    pub cpu_usage_percent: Milli,
    /// Memory in use, in megabytes.
    pub memory_used_mb: u64,
    /// Memory in use as a share of installed memory, in percent.
    pub memory_usage_percent: Milli,
    /// Space in use as a share of the capacity of all volumes, in percent.
    pub disk_usage_percent: Milli,
    /// Inbound throughput since the previous sample, in kbit/s.
    pub net_in_kbps: Milli,
    /// Outbound throughput since the previous sample, in kbit/s.
    pub net_out_kbps: Milli,
    /// Bytes received over all interfaces so far.
    pub total_net_in_bytes: u64,
    /// Bytes transmitted over all interfaces so far.
    pub total_net_out_bytes: u64,
}

/// What a collector remembers from one cycle to the next.
pub struct CollectorState {
    pub last_total_in: u64,
    pub last_total_out: u64,
    /// Absent until the first sample has been taken.
    pub last_timestamp: Option<Timestamp>,
}

/// Turns readings into snapshots, one per call of [`MetricsCollector::collect`].
pub struct MetricsCollector {
    last_total_in: u64,
    last_total_out: u64,
    last_timestamp: Option<Timestamp>,
}

/// The plain sum of the given counters.
pub open spec fn total_of(values: Seq<u64>) -> nat
    decreases values.len(),
{
    if values.len() == 0 {
        0
    } else {
        total_of(values.drop_last()) + values.last() as nat
    }
}

/// A total as a counter can hold it: totals beyond `u64::MAX` stay at `u64::MAX`.
pub open spec fn capped(total: nat) -> u64 {
    if total > u64::MAX {
        u64::MAX
    } else {
        total as u64
    }
}

/// The receive counter of each interface, in the order of the interfaces.
pub open spec fn received_counts(interfaces: Seq<InterfaceCounters>) -> Seq<u64> {
    Seq::new(interfaces.len(), |i: int| interfaces[i].received)
}

/// The transmit counter of each interface, in the order of the interfaces.
pub open spec fn transmitted_counts(interfaces: Seq<InterfaceCounters>) -> Seq<u64> {
    Seq::new(interfaces.len(), |i: int| interfaces[i].transmitted)
}

/// The capacity of each volume, in the order of the volumes.
pub open spec fn capacities(volumes: Seq<VolumeSpace>) -> Seq<u64> {
    Seq::new(volumes.len(), |i: int| volumes[i].total)
}

/// The available space of each volume, in the order of the volumes.
pub open spec fn available_counts(volumes: Seq<VolumeSpace>) -> Seq<u64> {
    Seq::new(volumes.len(), |i: int| volumes[i].available)
}

/// Bytes received over all interfaces.
pub open spec fn received_total(interfaces: Seq<InterfaceCounters>) -> u64 {
    capped(total_of(received_counts(interfaces)))
}

/// Bytes transmitted over all interfaces.
pub open spec fn transmitted_total(interfaces: Seq<InterfaceCounters>) -> u64 {
    capped(total_of(transmitted_counts(interfaces)))
}

/// The space in use over all volumes as a percentage of their capacity, in
/// thousandths. Where the volumes report more available space than
/// capacity, nothing counts as used.
pub open spec fn disk_usage_of(volumes: Seq<VolumeSpace>) -> nat {
    let total = capped(total_of(capacities(volumes)));
    let available = capped(total_of(available_counts(volumes)));
    percentage_of(total.saturating_sub(available) as nat, total as nat)
}

/// Throughput in thousandths of a kbit/s (a kbit being 1024 bits):
/// `delta_bytes * 8 / 1024` per second over `elapsed_ms` milliseconds,
/// rounded down; zero when no time has passed.
pub open spec fn throughput_of(delta_bytes: nat, elapsed_ms: nat) -> nat {
    if elapsed_ms == 0 {
        0
    } else {
        (delta_bytes * 8 * 1000 * 1000) / (1024 * elapsed_ms)
    }
}

/// The rate reported for one direction. There is a rate only where an
/// earlier sample exists and at least one whole millisecond has passed
/// since; a counter that went backwards counts as no traffic.
pub open spec fn interval_rate(
    last_timestamp: Option<Timestamp>,
    now: Timestamp,
    previous_total: u64,
    current_total: u64,
) -> nat {
    if last_timestamp is Some && millis_between(now, last_timestamp->0) > 0 {
        throughput_of(
            current_total.saturating_sub(previous_total) as nat,
            millis_between(now, last_timestamp->0) as nat,
        )
    } else {
        0
    }
}

/// What a collector remembers right after construction.
pub open spec fn initial_state(interfaces: Seq<InterfaceCounters>) -> CollectorState {
    CollectorState {
        last_total_in: received_total(interfaces),
        last_total_out: transmitted_total(interfaces),
        last_timestamp: None,
    }
}

/// The snapshot that a collector in `state` produces from `reading` at `now`.
pub open spec fn sampled(
    state: CollectorState,
    reading: SystemReading,
    now: Timestamp,
) -> ResourceSnapshot {
    let total_in = received_total(reading.interfaces@);
    let total_out = transmitted_total(reading.interfaces@);
    ResourceSnapshot {
        timestamp: now,
        cpu_usage_percent: Milli { thousandths: mean_of(reading.cpu_core_usage@) as u128 },
        memory_used_mb: (reading.used_memory / 1024) as u64,
        memory_usage_percent: Milli {
            thousandths: percentage_of(
                reading.used_memory as nat,
                reading.total_memory as nat,
            ) as u128,
        },
        disk_usage_percent: Milli { thousandths: disk_usage_of(reading.volumes@) as u128 },
        net_in_kbps: Milli {
            thousandths: interval_rate(
                state.last_timestamp,
                now,
                state.last_total_in,
                total_in,
            ) as u128,
        },
        net_out_kbps: Milli {
            thousandths: interval_rate(
                state.last_timestamp,
                now,
                state.last_total_out,
                total_out,
            ) as u128,
        },
        total_net_in_bytes: total_in,
        total_net_out_bytes: total_out,
    }
}

/// What a collector remembers after it has sampled `reading` at `now`,
/// whatever it remembered before.
pub open spec fn state_after(reading: SystemReading, now: Timestamp) -> CollectorState {
    CollectorState {
        last_total_in: received_total(reading.interfaces@),
        last_total_out: transmitted_total(reading.interfaces@),
        last_timestamp: Some(now),
    }
}

impl SystemReading {
    /// A reading as a sound system gives it: no core is busier than 100 %,
    /// and no more memory is in use than is installed.
    pub open spec fn plausible(&self) -> bool {
        &&& self.used_memory <= self.total_memory
        &&& forall|i: int|
            0 <= i < self.cpu_core_usage@.len() ==> self.cpu_core_usage@[i].thousandths <= 100_000
    }
}

impl ResourceSnapshot {
    /// Every percentage lies between 0 and 100. (Rates and byte counts are
    /// unsigned, so they cannot be negative.)
    pub open spec fn well_formed(&self) -> bool {
        &&& self.cpu_usage_percent.thousandths <= 100_000
        &&& self.memory_usage_percent.thousandths <= 100_000
        &&& self.disk_usage_percent.thousandths <= 100_000
    }
}

impl View for MetricsCollector {
    type V = CollectorState;

    closed spec fn view(&self) -> CollectorState {
        CollectorState {
            last_total_in: self.last_total_in,
            last_total_out: self.last_total_out,
            last_timestamp: self.last_timestamp,
        }
    }
}

/// Adding one more counter to a capped total caps the larger total.
proof fn lemma_capped_step(values: Seq<u64>)
    requires
        values.len() > 0,
    ensures
        capped(total_of(values)) == capped(total_of(values.drop_last())).saturating_add(
            values.last(),
        ),
{
}

/// The space in use over all `volumes` as a percentage of their capacity.
pub fn disk_usage(volumes: &Vec<VolumeSpace>) -> (usage: Milli)
    ensures
        usage.thousandths == disk_usage_of(volumes@),
        usage.thousandths <= 100_000,
{
    let mut total_space: u64 = 0;
    let mut available_space: u64 = 0;
    let mut i: usize = 0;
    while i < volumes.len()
        invariant
            i <= volumes.len(),
            total_space == capped(total_of(capacities(volumes@.take(i as int)))),
            available_space == capped(total_of(available_counts(volumes@.take(i as int)))),
        decreases volumes.len() - i,
    {
        proof {
            let before = volumes@.take(i as int);
            let after = volumes@.take(i + 1);
            assert(capacities(after).drop_last() =~= capacities(before));
            assert(available_counts(after).drop_last() =~= available_counts(before));
            lemma_capped_step(capacities(after));
            lemma_capped_step(available_counts(after));
        }
        total_space = total_space.saturating_add(volumes[i].total);
        available_space = available_space.saturating_add(volumes[i].available);
        i += 1;
    }
    proof {
        assert(volumes@.take(volumes.len() as int) =~= volumes@);
        lemma_percentage_of_part(
            total_space.saturating_sub(available_space) as nat,
            total_space as nat,
        );
    }
    let used_space: u64 = total_space.saturating_sub(available_space);
    Milli::percentage(used_space, total_space)
}

/// The throughput that moves `delta_bytes` in `elapsed_ms` milliseconds.
pub fn throughput(delta_bytes: u64, elapsed_ms: u128) -> (rate: Milli)
    ensures
        rate.thousandths == throughput_of(delta_bytes as nat, elapsed_ms as nat),
{
    if elapsed_ms == 0 {
        return Milli { thousandths: 0 };
    }
    let bits_scaled: u128 = delta_bytes as u128 * 8_000_000;
    proof {
        lemma_div_denominator(bits_scaled as int, 1024, elapsed_ms as int);
        assert(delta_bytes * 8 * 1000 * 1000 == bits_scaled);
    }
    Milli { thousandths: bits_scaled / 1024 / elapsed_ms }
}

impl MetricsCollector {
    /// A collector seeded with the counters of `interfaces`. It has taken no
    /// sample yet, so its first snapshot reports no throughput.
    pub fn new(interfaces: &Vec<InterfaceCounters>) -> (collector: Self)
        ensures
            collector@ == initial_state(interfaces@),
    {
        let (in_bytes, out_bytes) = Self::read_network_totals(interfaces);
        MetricsCollector {
            last_total_in: in_bytes,
            last_total_out: out_bytes,
            last_timestamp: None,
        }
    }

    /// The bytes received and transmitted over all `interfaces`, in this
    /// order. A total that a counter cannot hold stays at `u64::MAX`.
    pub fn read_network_totals(interfaces: &Vec<InterfaceCounters>) -> (totals: (u64, u64))
        ensures
            totals.0 == received_total(interfaces@),
            totals.1 == transmitted_total(interfaces@),
    {
        let mut total_in: u64 = 0;
        let mut total_out: u64 = 0;
        let mut i: usize = 0;
        while i < interfaces.len()
            invariant
                i <= interfaces.len(),
                total_in == received_total(interfaces@.take(i as int)),
                total_out == transmitted_total(interfaces@.take(i as int)),
            decreases interfaces.len() - i,
        {
            proof {
                let before = interfaces@.take(i as int);
                let after = interfaces@.take(i + 1);
                assert(received_counts(after).drop_last() =~= received_counts(before));
                assert(transmitted_counts(after).drop_last() =~= transmitted_counts(before));
                lemma_capped_step(received_counts(after));
                lemma_capped_step(transmitted_counts(after));
            }
            total_in = total_in.saturating_add(interfaces[i].received);
            total_out = total_out.saturating_add(interfaces[i].transmitted);
            i += 1;
        }
        proof {
            assert(interfaces@.take(interfaces.len() as int) =~= interfaces@);
        }
        (total_in, total_out)
    }

    /// Takes one sample: the snapshot for `reading`, read at `now`.
    ///
    /// Afterwards the collector remembers the totals and the instant of this
    /// sample, whether or not a rate could be computed from the one before.
    pub fn collect(
        &mut self,
        reading: &SystemReading,
        now: Timestamp,
    ) -> (snapshot: ResourceSnapshot)
        ensures
            snapshot == sampled(old(self)@, *reading, now),
            final(self)@ == state_after(*reading, now),
            snapshot.disk_usage_percent.thousandths <= 100_000,
            reading.plausible() ==> snapshot.well_formed(),
    {
        let cpu_usage_percent = Milli::mean(&reading.cpu_core_usage);
        let memory_usage_percent = Milli::percentage(reading.used_memory, reading.total_memory);
        let memory_used_mb: u64 = reading.used_memory / 1024;
        let disk_usage_percent = disk_usage(&reading.volumes);
        let (total_in, total_out) = Self::read_network_totals(&reading.interfaces);

        let mut net_in_kbps = Milli { thousandths: 0 };
        let mut net_out_kbps = Milli { thousandths: 0 };
        if let Some(last) = self.last_timestamp {
            let elapsed: i128 = now.millis_since(&last);
            if elapsed > 0 {
                let delta_in: u64 = total_in.saturating_sub(self.last_total_in);
                let delta_out: u64 = total_out.saturating_sub(self.last_total_out);
                net_in_kbps = throughput(delta_in, elapsed as u128);
                net_out_kbps = throughput(delta_out, elapsed as u128);
            }
        }

        self.last_total_in = total_in;
        self.last_total_out = total_out;
        self.last_timestamp = Some(now);

        proof {
            if reading.plausible() {
                lemma_snapshot_well_formed(old(self)@, *reading, now);
            }
        }
        ResourceSnapshot {
            timestamp: now,
            cpu_usage_percent,
            memory_used_mb,
            memory_usage_percent,
            disk_usage_percent,
            net_in_kbps,
            net_out_kbps,
            total_net_in_bytes: total_in,
            total_net_out_bytes: total_out,
        }
    }
}

/// A rate is never more than the traffic it was computed from, scaled to
/// thousandths of a kbit over one millisecond.
pub proof fn lemma_throughput_bounded(delta_bytes: nat, elapsed_ms: nat)
    ensures
        throughput_of(delta_bytes, elapsed_ms) <= delta_bytes * 8_000_000,
{
    if elapsed_ms > 0 {
        let scaled = (delta_bytes * 8 * 1000 * 1000) as int;
        let divisor = (1024 * elapsed_ms) as int;
        assert(scaled / divisor <= scaled) by (nonlinear_arith)
            requires
                0 <= scaled,
                0 < divisor,
        ;
    }
}

/// Every snapshot made from a plausible reading is well formed: each of its
/// percentages lies between 0 and 100.
pub proof fn lemma_snapshot_well_formed(
    state: CollectorState,
    reading: SystemReading,
    now: Timestamp,
)
    requires
        reading.plausible(),
    ensures
        sampled(state, reading, now).well_formed(),
{
    lemma_mean_within_limit(reading.cpu_core_usage@, 100_000);
    lemma_percentage_of_part(reading.used_memory as nat, reading.total_memory as nat);
    let total = capped(total_of(capacities(reading.volumes@)));
    let available = capped(total_of(available_counts(reading.volumes@)));
    lemma_percentage_of_part(total.saturating_sub(available) as nat, total as nat);
}

/// The first snapshot of a freshly constructed collector reports no
/// throughput in either direction, whatever the counters show.
pub proof fn lemma_first_sample_reports_no_throughput(
    interfaces: Seq<InterfaceCounters>,
    reading: SystemReading,
    now: Timestamp,
)
    ensures
        sampled(initial_state(interfaces), reading, now).net_in_kbps.thousandths == 0,
        sampled(initial_state(interfaces), reading, now).net_out_kbps.thousandths == 0,
{
}

/// Between two consecutive samples that lie at least one whole millisecond
/// apart, the reported rates are the throughput of the bytes counted in
/// between over the time that passed.
pub proof fn lemma_rate_between_consecutive_samples(
    first: SystemReading,
    at: Timestamp,
    second: SystemReading,
    again: Timestamp,
)
    requires
        millis_between(again, at) > 0,
    ensures
        sampled(state_after(first, at), second, again).net_in_kbps.thousandths == throughput_of(
            received_total(second.interfaces@).saturating_sub(
                received_total(first.interfaces@),
            ) as nat,
            millis_between(again, at) as nat,
        ),
        sampled(state_after(first, at), second, again).net_out_kbps.thousandths == throughput_of(
            transmitted_total(second.interfaces@).saturating_sub(
                transmitted_total(first.interfaces@),
            ) as nat,
            millis_between(again, at) as nat,
        ),
{
    let elapsed = millis_between(again, at) as nat;
    lemma_throughput_bounded(
        received_total(second.interfaces@).saturating_sub(
            received_total(first.interfaces@),
        ) as nat,
        elapsed,
    );
    lemma_throughput_bounded(
        transmitted_total(second.interfaces@).saturating_sub(
            transmitted_total(first.interfaces@),
        ) as nat,
        elapsed,
    );
}

/// A cumulative counter that has not grown since the previous sample, or has
/// fallen behind it, yields a rate of zero for its direction.
pub proof fn lemma_counter_reset_reports_no_throughput(
    state: CollectorState,
    reading: SystemReading,
    now: Timestamp,
)
    ensures
        received_total(reading.interfaces@) <= state.last_total_in ==> sampled(
            state,
            reading,
            now,
        ).net_in_kbps.thousandths == 0,
        transmitted_total(reading.interfaces@) <= state.last_total_out ==> sampled(
            state,
            reading,
            now,
        ).net_out_kbps.thousandths == 0,
{
    if state.last_timestamp is Some && millis_between(now, state.last_timestamp->0) > 0 {
        lemma_throughput_bounded(0, millis_between(now, state.last_timestamp->0) as nat);
    }
}

/// A second sample taken less than one whole millisecond after the first, or
/// at a clock reading before it, reports no throughput.
pub proof fn lemma_no_elapsed_time_reports_no_throughput(
    first: SystemReading,
    at: Timestamp,
    second: SystemReading,
    again: Timestamp,
)
    requires
        millis_between(again, at) <= 0,
    ensures
        sampled(state_after(first, at), second, again).net_in_kbps.thousandths == 0,
        sampled(state_after(first, at), second, again).net_out_kbps.thousandths == 0,
{
}

/// Taking one counter out of a sequence lowers the sum by that counter.
proof fn lemma_total_without(values: Seq<u64>, i: int)
    requires
        0 <= i < values.len(),
    ensures
        total_of(values) == total_of(values.remove(i)) + values[i],
    decreases values.len(),
{
    if i == values.len() - 1 {
        assert(values.remove(i) =~= values.drop_last());
    } else {
        lemma_total_without(values.drop_last(), i);
        assert(values.remove(i).drop_last() =~= values.drop_last().remove(i));
        assert(values.remove(i).last() == values.last());
    }
}

/// The totals over all interfaces do not depend on the order in which the
/// interfaces are listed.
pub proof fn lemma_totals_ignore_order(
    listed: Seq<InterfaceCounters>,
    relisted: Seq<InterfaceCounters>,
)
    requires
        listed.to_multiset() == relisted.to_multiset(),
    ensures
        received_total(listed) == received_total(relisted),
        transmitted_total(listed) == transmitted_total(relisted),
    decreases listed.len(),
{
    broadcast use vstd::seq_lib::group_to_multiset_ensures;

    assert(listed.len() == relisted.len()) by {
        vstd::seq_lib::to_multiset_len(listed);
        vstd::seq_lib::to_multiset_len(relisted);
    }
    if listed.len() == 0 {
        assert(received_counts(listed) =~= received_counts(relisted));
        assert(transmitted_counts(listed) =~= transmitted_counts(relisted));
    } else {
        let picked = listed.last();
        assert(listed.to_multiset().count(picked) > 0);
        let j = relisted.index_of(picked);
        assert(listed.remove(listed.len() - 1) =~= listed.drop_last());
        lemma_totals_ignore_order(listed.drop_last(), relisted.remove(j));
        assert(received_counts(listed).drop_last() =~= received_counts(listed.drop_last()));
        assert(transmitted_counts(listed).drop_last() =~= transmitted_counts(listed.drop_last()));
        assert(received_counts(relisted).remove(j) =~= received_counts(relisted.remove(j)));
        assert(transmitted_counts(relisted).remove(j) =~= transmitted_counts(relisted.remove(j)));
        lemma_total_without(received_counts(relisted), j);
        lemma_total_without(transmitted_counts(relisted), j);
    }
}

} // verus!
