//! Comparing a snapshot with the configured limits.

use vstd::prelude::*;
use vstd::string::StringExecFns;
use crate::config::{Config, Thresholds};
use crate::fixed_point::Milli;
use crate::metrics::ResourceSnapshot;
use crate::text::one_decimal_text;

verus! {

/// The message for a metric that has passed its limit: what was measured,
/// then the limit, both with one digit after the decimal point and
/// followed by their unit.
pub open spec fn alert_text(
    label: Seq<char>,
    unit: Seq<char>,
    value: Milli,
    limit: Milli,
) -> Seq<char> {
    label + one_decimal_text(value.thousandths as nat) + unit + " exceeded threshold "@
        + one_decimal_text(limit.thousandths as nat) + unit
}

/// One message where `value` is strictly greater than `limit`, none where
/// it is equal or less.
pub open spec fn alert_if_exceeded(
    label: Seq<char>,
    unit: Seq<char>,
    value: Milli,
    limit: Milli,
) -> Seq<Seq<char>> {
    if value.thousandths > limit.thousandths {
        seq![alert_text(label, unit, value, limit)]
    } else {
        Seq::empty()
    }
}

/// The alert for the processor load: one message or none.
pub open spec fn cpu_alerts(snapshot: ResourceSnapshot, limits: Thresholds) -> Seq<Seq<char>> {
    alert_if_exceeded(
        "CPU usage "@,
        "%"@,
        snapshot.cpu_usage_percent,
        limits.cpu_usage_percent,
    )
}

/// The alert for the memory usage: one message or none.
pub open spec fn memory_alerts(snapshot: ResourceSnapshot, limits: Thresholds) -> Seq<Seq<char>> {
    alert_if_exceeded(
        "Memory usage "@,
        "%"@,
        snapshot.memory_usage_percent,
        limits.memory_usage_percent,
    )
}

/// The alert for the disk usage: one message or none.
pub open spec fn disk_alerts(snapshot: ResourceSnapshot, limits: Thresholds) -> Seq<Seq<char>> {
    alert_if_exceeded(
        "Disk usage "@,
        "%"@,
        snapshot.disk_usage_percent,
        limits.disk_usage_percent,
    )
}

/// The alert for the inbound throughput: one message or none.
pub open spec fn net_in_alerts(snapshot: ResourceSnapshot, limits: Thresholds) -> Seq<Seq<char>> {
    alert_if_exceeded(
        "Inbound network "@,
        " kbit/s"@,
        snapshot.net_in_kbps,
        limits.net_in_kbps,
    )
}

/// The alert for the outbound throughput: one message or none.
pub open spec fn net_out_alerts(snapshot: ResourceSnapshot, limits: Thresholds) -> Seq<Seq<char>> {
    alert_if_exceeded(
        "Outbound network "@,
        " kbit/s"@,
        snapshot.net_out_kbps,
        limits.net_out_kbps,
    )
}

/// All messages that `snapshot` raises against `limits`, always in the
/// order processor, memory, disk, inbound network, outbound network.
pub open spec fn alerts_for(snapshot: ResourceSnapshot, limits: Thresholds) -> Seq<Seq<char>> {
    cpu_alerts(snapshot, limits) + memory_alerts(snapshot, limits) + disk_alerts(
        snapshot,
        limits,
    ) + net_in_alerts(snapshot, limits) + net_out_alerts(snapshot, limits)
}

fn push_alert_if_exceeded(
    alerts: &mut Vec<String>,
    label: &str,
    unit: &str,
    value: Milli,
    limit: Milli,
)
    ensures
        final(alerts).deep_view() == old(alerts).deep_view() + alert_if_exceeded(
            label@,
            unit@,
            value,
            limit,
        ),
{
    if value.thousandths > limit.thousandths {
        let mut message = String::from_str(label);
        value.push_one_decimal(&mut message);
        message.append(unit);
        message.append(" exceeded threshold ");
        limit.push_one_decimal(&mut message);
        message.append(unit);
        alerts.push(message);
        assert(alerts.deep_view() =~= old(alerts).deep_view().push(message@));
    }
    assert(alerts.deep_view() =~= old(alerts).deep_view() + alert_if_exceeded(
        label@,
        unit@,
        value,
        limit,
    ));
}

/// The alerts that `snapshot` raises against the limits in `cfg`.
pub fn check_thresholds(snapshot: &ResourceSnapshot, cfg: &Config) -> (alerts: Vec<String>)
    ensures
        alerts.deep_view() == alerts_for(*snapshot, cfg.thresholds),
{
    let limits = &cfg.thresholds;
    let mut alerts: Vec<String> = Vec::new();
    assert(alerts.deep_view() =~= Seq::<Seq<char>>::empty());
    push_alert_if_exceeded(
        &mut alerts,
        "CPU usage ",
        "%",
        snapshot.cpu_usage_percent,
        limits.cpu_usage_percent,
    );
    push_alert_if_exceeded(
        &mut alerts,
        "Memory usage ",
        "%",
        snapshot.memory_usage_percent,
        limits.memory_usage_percent,
    );
    push_alert_if_exceeded(
        &mut alerts,
        "Disk usage ",
        "%",
        snapshot.disk_usage_percent,
        limits.disk_usage_percent,
    );
    push_alert_if_exceeded(
        &mut alerts,
        "Inbound network ",
        " kbit/s",
        snapshot.net_in_kbps,
        limits.net_in_kbps,
    );
    push_alert_if_exceeded(
        &mut alerts,
        "Outbound network ",
        " kbit/s",
        snapshot.net_out_kbps,
        limits.net_out_kbps,
    );
    assert(alerts.deep_view() =~= alerts_for(*snapshot, cfg.thresholds));
    alerts
}

/// A processor load that equals its limit raises no processor alert; one
/// above the limit raises exactly one, which carries the load and the limit
/// with one digit after the decimal point.
pub proof fn lemma_cpu_alert_is_strict(snapshot: ResourceSnapshot, limits: Thresholds)
    ensures
        snapshot.cpu_usage_percent == limits.cpu_usage_percent ==> cpu_alerts(snapshot, limits)
            == Seq::<Seq<char>>::empty(),
        snapshot.cpu_usage_percent.thousandths > limits.cpu_usage_percent.thousandths
            ==> cpu_alerts(snapshot, limits) == seq![
            "CPU usage "@ + one_decimal_text(snapshot.cpu_usage_percent.thousandths as nat) + "%"@
                + " exceeded threshold "@ + one_decimal_text(
                limits.cpu_usage_percent.thousandths as nat,
            ) + "%"@,
        ],
{
}

/// There are no alerts exactly when no metric is above its limit.
pub proof fn lemma_no_alerts_within_limits(snapshot: ResourceSnapshot, limits: Thresholds)
    ensures
        alerts_for(snapshot, limits).len() == 0 <==> {
            &&& snapshot.cpu_usage_percent.thousandths <= limits.cpu_usage_percent.thousandths
            &&& snapshot.memory_usage_percent.thousandths
                <= limits.memory_usage_percent.thousandths
            &&& snapshot.disk_usage_percent.thousandths <= limits.disk_usage_percent.thousandths
            &&& snapshot.net_in_kbps.thousandths <= limits.net_in_kbps.thousandths
            &&& snapshot.net_out_kbps.thousandths <= limits.net_out_kbps.thousandths
        },
{
}

/// A snapshot above all five limits raises exactly five alerts: processor,
/// memory, disk, inbound network, outbound network, in this order.
pub proof fn lemma_all_limits_exceeded(snapshot: ResourceSnapshot, limits: Thresholds)
    requires
        snapshot.cpu_usage_percent.thousandths > limits.cpu_usage_percent.thousandths,
        snapshot.memory_usage_percent.thousandths > limits.memory_usage_percent.thousandths,
        snapshot.disk_usage_percent.thousandths > limits.disk_usage_percent.thousandths,
        snapshot.net_in_kbps.thousandths > limits.net_in_kbps.thousandths,
        snapshot.net_out_kbps.thousandths > limits.net_out_kbps.thousandths,
    ensures
        alerts_for(snapshot, limits) == seq![
            alert_text(
                "CPU usage "@,
                "%"@,
                snapshot.cpu_usage_percent,
                limits.cpu_usage_percent,
            ),
            alert_text(
                "Memory usage "@,
                "%"@,
                snapshot.memory_usage_percent,
                limits.memory_usage_percent,
            ),
            alert_text(
                "Disk usage "@,
                "%"@,
                snapshot.disk_usage_percent,
                limits.disk_usage_percent,
            ),
            alert_text(
                "Inbound network "@,
                " kbit/s"@,
                snapshot.net_in_kbps,
                limits.net_in_kbps,
            ),
            alert_text(
                "Outbound network "@,
                " kbit/s"@,
                snapshot.net_out_kbps,
                limits.net_out_kbps,
            ),
        ],
{
    assert(alerts_for(snapshot, limits) =~= seq![
        alert_text("CPU usage "@, "%"@, snapshot.cpu_usage_percent, limits.cpu_usage_percent),
        alert_text(
            "Memory usage "@,
            "%"@,
            snapshot.memory_usage_percent,
            limits.memory_usage_percent,
        ),
        alert_text("Disk usage "@, "%"@, snapshot.disk_usage_percent, limits.disk_usage_percent),
        alert_text("Inbound network "@, " kbit/s"@, snapshot.net_in_kbps, limits.net_in_kbps),
        alert_text("Outbound network "@, " kbit/s"@, snapshot.net_out_kbps, limits.net_out_kbps),
    ]);
}

} // verus!
