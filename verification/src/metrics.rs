//! Metrics in the text format that Prometheus reads.

use crate::admission::AdmissionCounts;
use crate::deepinfra_rerank::{comes_before, text_before};
use crate::failures::{UpstreamFailureCause, UpstreamFailureSnapshot};
use crate::text::{chars_of, decimal, decimal_text, joined};
use crate::watchdog::WatchdogMetricsSnapshot;
use vstd::prelude::*;
use vstd::string::*;

verus! {

// ---------------------------------------------------------------------------
// The text format
// ---------------------------------------------------------------------------

/// The escaped form of a character of a label value.
pub open spec fn escaped_char(c: char) -> Seq<char> {
    if c == '\\' {
        seq!['\\', '\\']
    } else if c == '\n' {
        seq!['\\', 'n']
    } else if c == '"' {
        seq!['\\', '"']
    } else {
        seq![c]
    }
}

/// The escaped form of a label value.
pub open spec fn escaped_label(value: Seq<char>) -> Seq<char>
    decreases value.len(),
{
    if value.len() == 0 {
        Seq::empty()
    } else {
        escaped_label(value.drop_last()) + escaped_char(value.last())
    }
}

/// Escapes a label value.
pub fn prometheus_escape_label(value: &str) -> (escaped: String)
    ensures
        escaped@ == escaped_label(value@),
{
    let chars = chars_of(value);
    let mut escaped = String::new();
    let mut i: usize = 0;
    while i < chars.len()
        invariant
            i <= chars.len(),
            chars@ == value@,
            escaped@ == escaped_label(value@.take(i as int)),
        decreases chars.len() - i,
    {
        assert(value@.take(i + 1).drop_last() =~= value@.take(i as int));
        let ghost before = escaped@;
        let c = chars[i];
        if c == '\\' {
            escaped.push('\\');
            escaped.push('\\');
        } else if c == '\n' {
            escaped.push('\\');
            escaped.push('n');
        } else if c == '"' {
            escaped.push('\\');
            escaped.push('"');
        } else {
            escaped.push(c);
        }
        assert(escaped@ =~= before + escaped_char(c));
        i += 1;
    }
    assert(value@.take(i as int) =~= value@);
    escaped
}

/// What an escaped label value was before.
pub open spec fn unescaped(text: Seq<char>) -> Seq<char>
    decreases text.len(),
{
    if text.len() == 0 {
        Seq::empty()
    } else if text[0] == '\\' && text.len() > 1 {
        let c = if text[1] == 'n' {
            '\n'
        } else {
            text[1]
        };
        seq![c] + unescaped(text.skip(2))
    } else {
        seq![text[0]] + unescaped(text.skip(1))
    }
}

proof fn escaped_front(c: char, rest: Seq<char>)
    ensures
        escaped_label(seq![c] + rest) == escaped_char(c) + escaped_label(rest),
    decreases rest.len(),
{
    reveal_with_fuel(escaped_label, 2);
    let whole = seq![c] + rest;
    if rest.len() == 0 {
        assert(whole.drop_last() =~= Seq::<char>::empty());
        assert(escaped_label(whole) =~= escaped_char(c) + escaped_label(rest));
    } else {
        assert(whole.drop_last() =~= seq![c] + rest.drop_last());
        escaped_front(c, rest.drop_last());
        assert(escaped_label(whole) =~= escaped_char(c) + escaped_label(rest));
    }
}

/// Escaping loses nothing: every label value can be read back.
pub proof fn escaping_can_be_undone(value: Seq<char>)
    ensures
        unescaped(escaped_label(value)) == value,
    decreases value.len(),
{
    if value.len() == 0 {
        assert(unescaped(escaped_label(value)) =~= value);
    } else {
        let c = value[0];
        let rest = value.skip(1);
        assert(value =~= seq![c] + rest);
        escaped_front(c, rest);
        escaping_can_be_undone(rest);
        let text = escaped_label(value);
        if c == '\\' || c == '\n' || c == '"' {
            assert(text.skip(2) =~= escaped_label(rest));
        } else {
            assert(text.skip(1) =~= escaped_label(rest));
        }
        assert(unescaped(text) =~= value);
    }
}

/// An escaped label value stays on its line, and every quote in it is escaped.
pub proof fn escaped_labels_stay_in_place(value: Seq<char>, i: int)
    requires
        0 <= i < escaped_label(value).len(),
    ensures
        escaped_label(value)[i] != '\n',
        escaped_label(value)[i] == '"' ==> i > 0 && escaped_label(value)[i - 1] == '\\',
    decreases value.len(),
{
    let before = escaped_label(value.drop_last());
    if i < before.len() {
        escaped_labels_stay_in_place(value.drop_last(), i);
    }
}

/// The meaning of a label.
pub type LabelModel = (Seq<char>, Seq<char>);

/// The meaning of a list of labels.
pub open spec fn label_models(labels: Seq<(&str, &str)>) -> Seq<LabelModel> {
    Seq::new(labels.len(), |i: int| (labels[i].0@, labels[i].1@))
}

/// The text of a list of labels.
pub open spec fn labels_text(labels: Seq<LabelModel>) -> Seq<char>
    decreases labels.len(),
{
    if labels.len() == 0 {
        Seq::empty()
    } else {
        let before = labels_text(labels.drop_last()) + if labels.len() > 1 {
            ","@
        } else {
            Seq::empty()
        };
        before + labels.last().0 + "=\""@ + escaped_label(labels.last().1) + "\""@
    }
}

/// The header of a metric.
pub open spec fn header_text(name: Seq<char>, help: Seq<char>, metric_type: Seq<char>) -> Seq<char> {
    "# HELP "@ + name + " "@ + help + "\n"@ + "# TYPE "@ + name + " "@ + metric_type + "\n"@
}

/// The line of one sample.
pub open spec fn line_text(name: Seq<char>, labels: Seq<LabelModel>, value: u64) -> Seq<char> {
    let named = if labels.len() == 0 {
        name
    } else {
        name + "{"@ + labels_text(labels) + "}"@
    };
    named + " "@ + decimal(value as nat) + "\n"@
}

/// Writes the header of a metric.
pub fn push_metric_header(output: &mut String, name: &str, help: &str, metric_type: &str)
    ensures
        final(output)@ == old(output)@ + header_text(name@, help@, metric_type@),
{
    let ghost before = output@;
    output.append("# HELP ");
    output.append(name);
    output.append(" ");
    output.append(help);
    output.append("\n");
    output.append("# TYPE ");
    output.append(name);
    output.append(" ");
    output.append(metric_type);
    output.append("\n");
    assert(output@ =~= before + header_text(name@, help@, metric_type@));
}

/// Writes the line of one sample.
pub fn push_metric_line(output: &mut String, name: &str, labels: &[(&str, &str)], value: u64)
    ensures
        final(output)@ == old(output)@ + line_text(name@, label_models(labels@), value),
{
    let ghost before = output@;
    let ghost models = label_models(labels@);
    output.append(name);
    if labels.len() > 0 {
        output.append("{");
        let ghost opened = output@;
        let mut i: usize = 0;
        assert(opened + labels_text(models.take(0)) =~= opened);
        while i < labels.len()
            invariant
                i <= labels.len(),
                models == label_models(labels@),
                output@ == opened + labels_text(models.take(i as int)),
            decreases labels.len() - i,
        {
            assert(models.take(i + 1).drop_last() =~= models.take(i as int));
            if i > 0 {
                output.append(",");
            }
            output.append(labels[i].0);
            output.append("=\"");
            output.append(prometheus_escape_label(labels[i].1).as_str());
            output.append("\"");
            i += 1;
            assert(output@ =~= opened + labels_text(models.take(i as int)));
        }
        assert(models.take(i as int) =~= models);
        output.append("}");
    }
    output.append(" ");
    output.append(decimal_text(value).as_str());
    output.append("\n");
    assert(output@ =~= before + line_text(name@, models, value));
}

/// A metric of one sample without labels.
pub open spec fn plain_metric(
    name: Seq<char>,
    help: Seq<char>,
    metric_type: Seq<char>,
    value: u64,
) -> Seq<char> {
    header_text(name, help, metric_type) + line_text(name, Seq::empty(), value)
}

fn push_plain_metric(output: &mut String, name: &str, help: &str, metric_type: &str, value: u64)
    ensures
        final(output)@ == old(output)@ + plain_metric(name@, help@, metric_type@, value),
{
    let ghost before = output@;
    push_metric_header(output, name, help, metric_type);
    let labels: [(&str, &str); 0] = [];
    assert(label_models(labels@) =~= Seq::<LabelModel>::empty());
    push_metric_line(output, name, labels.as_slice(), value);
    assert(output@ =~= before + plain_metric(name@, help@, metric_type@, value));
}

/// The lines of some samples of a metric.
pub open spec fn samples_text(name: Seq<char>, samples: Seq<(Seq<LabelModel>, u64)>) -> Seq<char>
    decreases samples.len(),
{
    if samples.len() == 0 {
        Seq::empty()
    } else {
        samples_text(name, samples.drop_last()) + line_text(
            name,
            samples.last().0,
            samples.last().1,
        )
    }
}

// ---------------------------------------------------------------------------
// Admission
// ---------------------------------------------------------------------------

/// How many requests of a profile are admitted and waiting.
pub struct ProfileAdmissionMetrics {
    pub profile: String,
    pub counts: AdmissionCounts,
}

/// How many requests are admitted and waiting.
pub struct AdmissionMetricsSnapshot {
    pub generation: AdmissionCounts,
    pub profiles: Vec<ProfileAdmissionMetrics>,
}

/// Whether profiles stand in the order of their names.
pub open spec fn in_order(profiles: Seq<ProfileAdmissionMetrics>) -> bool {
    forall|i: int, j: int|
        0 <= i < j < profiles.len() ==> !comes_before(
            (#[trigger] profiles[j]).profile@,
            (#[trigger] profiles[i]).profile@,
        )
}

proof fn before_is_asymmetric(a: Seq<char>, b: Seq<char>)
    requires
        comes_before(a, b),
    ensures
        !comes_before(b, a),
    decreases a.len(),
{
    if a.len() > 0 && b.len() > 0 && a[0] == b[0] {
        before_is_asymmetric(a.drop_first(), b.drop_first());
    }
}

proof fn before_spreads(a: Seq<char>, b: Seq<char>, c: Seq<char>)
    requires
        comes_before(a, b),
        !comes_before(c, b),
    ensures
        comes_before(a, c),
    decreases a.len(),
{
    if a.len() > 0 && b.len() > 0 && c.len() > 0 && a[0] == b[0] && c[0] == b[0] {
        before_spreads(a.drop_first(), b.drop_first(), c.drop_first());
    }
}

/// How many requests are admitted and waiting, with the profiles in the order of
/// their names.
pub fn admission_metrics_snapshot(
    generation: AdmissionCounts,
    profiles: Vec<ProfileAdmissionMetrics>,
) -> (snapshot: AdmissionMetricsSnapshot)
    ensures
        snapshot.generation == generation,
        in_order(snapshot.profiles@),
        snapshot.profiles@.to_multiset() == profiles@.to_multiset(),
{
    let mut rest = profiles;
    let mut sorted: Vec<ProfileAdmissionMetrics> = Vec::new();
    proof {
        assert(sorted@.to_multiset().add(rest@.to_multiset()) =~= profiles@.to_multiset()) by {
            profiles@.to_multiset_ensures();
            sorted@.to_multiset_ensures();
        }
    }
    while rest.len() > 0
        invariant
            in_order(sorted@),
            sorted@.to_multiset().add(rest@.to_multiset()) == profiles@.to_multiset(),
        decreases rest.len(),
    {
        let ghost before = sorted@;
        let ghost left = rest@;
        match rest.pop() {
            Some(next) => {
                let mut at: usize = 0;
                while at < sorted.len() && text_before(
                    sorted[at].profile.as_str(),
                    next.profile.as_str(),
                )
                    invariant
                        at <= sorted.len(),
                        sorted@ == before,
                        forall|k: int|
                            0 <= k < at ==> comes_before(
                                (#[trigger] before[k]).profile@,
                                next.profile@,
                            ),
                    decreases sorted.len() - at,
                {
                    at += 1;
                }
                sorted.insert(at, next);
                proof {
                    broadcast use vstd::seq_lib::group_to_multiset_ensures;

                    let after = sorted@;
                    assert forall|i: int, j: int| 0 <= i < j < after.len() implies !comes_before(
                        (#[trigger] after[j]).profile@,
                        (#[trigger] after[i]).profile@,
                    ) by {
                        if j < at {
                            assert(after[i] == before[i] && after[j] == before[j]);
                        } else if j == at {
                            assert(after[i] == before[i] && after[j] == next);
                            before_is_asymmetric(before[i].profile@, next.profile@);
                        } else {
                            assert(after[j] == before[j - 1]);
                            if i < at {
                                assert(after[i] == before[i]);
                            } else if i == at {
                                assert(after[i] == next);
                                if comes_before(before[j - 1].profile@, next.profile@) {
                                    if j - 1 > at {
                                        before_spreads(
                                            before[j - 1].profile@,
                                            next.profile@,
                                            before[at as int].profile@,
                                        );
                                    }
                                }
                            } else {
                                assert(after[i] == before[i - 1]);
                            }
                        }
                    }
                    assert(left =~= rest@.push(next));
                    assert(sorted@.to_multiset() =~= before.to_multiset().insert(next));
                    assert(left.to_multiset() =~= rest@.to_multiset().insert(next));
                    assert(sorted@.to_multiset().add(rest@.to_multiset())
                        =~= before.to_multiset().add(left.to_multiset()));
                }
            },
            None => {},
        }
    }
    proof {
        assert(rest@ =~= Seq::<ProfileAdmissionMetrics>::empty());
        rest@.to_multiset_ensures();
        assert(sorted@.to_multiset() =~= sorted@.to_multiset().add(rest@.to_multiset()));
    }
    AdmissionMetricsSnapshot { generation, profiles: sorted }
}

/// The samples of admitted requests by profile.
pub open spec fn active_samples(profiles: Seq<ProfileAdmissionMetrics>) -> Seq<
    (Seq<LabelModel>, u64),
> {
    Seq::new(
        profiles.len(),
        |i: int| (seq![("profile"@, profiles[i].profile@)], profiles[i].counts.active as u64),
    )
}

/// The samples of waiting requests by profile.
pub open spec fn queued_samples(profiles: Seq<ProfileAdmissionMetrics>) -> Seq<
    (Seq<LabelModel>, u64),
> {
    Seq::new(
        profiles.len(),
        |i: int| (seq![("profile"@, profiles[i].profile@)], profiles[i].counts.queued as u64),
    )
}

/// The metrics of admission.
pub open spec fn admission_metrics(admission: AdmissionMetricsSnapshot) -> Seq<char> {
    plain_metric(
        "llm_guard_proxy_generation_active"@,
        "Current generation requests holding an admitted upstream slot."@,
        "gauge"@,
        admission.generation.active as u64,
    ) + plain_metric(
        "llm_guard_proxy_generation_queued"@,
        "Current generation requests waiting for an upstream slot."@,
        "gauge"@,
        admission.generation.queued as u64,
    ) + header_text(
        "llm_guard_proxy_generation_profile_active"@,
        "Current per-profile generation requests holding an admitted upstream slot."@,
        "gauge"@,
    ) + samples_text(
        "llm_guard_proxy_generation_profile_active"@,
        active_samples(admission.profiles@),
    ) + header_text(
        "llm_guard_proxy_generation_profile_queued"@,
        "Current per-profile generation requests waiting for an upstream slot."@,
        "gauge"@,
    ) + samples_text(
        "llm_guard_proxy_generation_profile_queued"@,
        queued_samples(admission.profiles@),
    )
}

fn push_active_samples(output: &mut String, profiles: &Vec<ProfileAdmissionMetrics>)
    ensures
        final(output)@ == old(output)@ + samples_text(
            "llm_guard_proxy_generation_profile_active"@,
            active_samples(profiles@),
        ),
{
    let ghost before = output@;
    let ghost samples = active_samples(profiles@);
    let mut i: usize = 0;
    assert(before + samples_text(
        "llm_guard_proxy_generation_profile_active"@,
        samples.take(0),
    ) =~= before);
    while i < profiles.len()
        invariant
            i <= profiles.len(),
            samples == active_samples(profiles@),
            output@ == before + samples_text(
                "llm_guard_proxy_generation_profile_active"@,
                samples.take(i as int),
            ),
        decreases profiles.len() - i,
    {
        let labels = [("profile", profiles[i].profile.as_str())];
        assert(label_models(labels@) =~= samples[i as int].0);
        assert(samples.take(i + 1).drop_last() =~= samples.take(i as int));
        push_metric_line(
            output,
            "llm_guard_proxy_generation_profile_active",
            labels.as_slice(),
            profiles[i].counts.active as u64,
        );
        i += 1;
        assert(output@ =~= before + samples_text(
            "llm_guard_proxy_generation_profile_active"@,
            samples.take(i as int),
        ));
    }
    assert(samples.take(i as int) =~= samples);
}

fn push_queued_samples(output: &mut String, profiles: &Vec<ProfileAdmissionMetrics>)
    ensures
        final(output)@ == old(output)@ + samples_text(
            "llm_guard_proxy_generation_profile_queued"@,
            queued_samples(profiles@),
        ),
{
    let ghost before = output@;
    let ghost samples = queued_samples(profiles@);
    let mut i: usize = 0;
    assert(before + samples_text(
        "llm_guard_proxy_generation_profile_queued"@,
        samples.take(0),
    ) =~= before);
    while i < profiles.len()
        invariant
            i <= profiles.len(),
            samples == queued_samples(profiles@),
            output@ == before + samples_text(
                "llm_guard_proxy_generation_profile_queued"@,
                samples.take(i as int),
            ),
        decreases profiles.len() - i,
    {
        let labels = [("profile", profiles[i].profile.as_str())];
        assert(label_models(labels@) =~= samples[i as int].0);
        assert(samples.take(i + 1).drop_last() =~= samples.take(i as int));
        push_metric_line(
            output,
            "llm_guard_proxy_generation_profile_queued",
            labels.as_slice(),
            profiles[i].counts.queued as u64,
        );
        i += 1;
        assert(output@ =~= before + samples_text(
            "llm_guard_proxy_generation_profile_queued"@,
            samples.take(i as int),
        ));
    }
    assert(samples.take(i as int) =~= samples);
}

/// Writes the metrics of admission.
pub fn push_admission_metrics(output: &mut String, admission: &AdmissionMetricsSnapshot)
    ensures
        final(output)@ == old(output)@ + admission_metrics(*admission),
{
    let ghost before = output@;
    push_plain_metric(
        output,
        "llm_guard_proxy_generation_active",
        "Current generation requests holding an admitted upstream slot.",
        "gauge",
        admission.generation.active as u64,
    );
    push_plain_metric(
        output,
        "llm_guard_proxy_generation_queued",
        "Current generation requests waiting for an upstream slot.",
        "gauge",
        admission.generation.queued as u64,
    );
    push_metric_header(
        output,
        "llm_guard_proxy_generation_profile_active",
        "Current per-profile generation requests holding an admitted upstream slot.",
        "gauge",
    );
    push_active_samples(output, &admission.profiles);
    push_metric_header(
        output,
        "llm_guard_proxy_generation_profile_queued",
        "Current per-profile generation requests waiting for an upstream slot.",
        "gauge",
    );
    push_queued_samples(output, &admission.profiles);
    assert(output@ =~= before + admission_metrics(*admission));
}

// ---------------------------------------------------------------------------
// Counters of the proxy
// ---------------------------------------------------------------------------

/// The metrics of the watchdog.
pub open spec fn watchdog_metrics(watchdog: WatchdogMetricsSnapshot) -> Seq<char> {
    plain_metric(
        "llm_guard_proxy_stuck_watchdog_detections_total"@,
        "Stuck-engine watchdog detections."@,
        "counter"@,
        watchdog.detections,
    ) + plain_metric(
        "llm_guard_proxy_stuck_watchdog_restarts_total"@,
        "Stuck-engine watchdog recovery restarts."@,
        "counter"@,
        watchdog.restarts,
    ) + plain_metric(
        "llm_guard_proxy_stuck_watchdog_recovery_successes_total"@,
        "Successful stuck-engine watchdog recoveries."@,
        "counter"@,
        watchdog.recovery_successes,
    ) + plain_metric(
        "llm_guard_proxy_stuck_watchdog_recovery_timeouts_total"@,
        "Timed-out stuck-engine watchdog recoveries."@,
        "counter"@,
        watchdog.recovery_timeouts,
    ) + plain_metric(
        "llm_guard_proxy_restart_queue_depth"@,
        "Requests currently waiting for a recovery restart."@,
        "gauge"@,
        watchdog.restart_queue_depth,
    ) + plain_metric(
        "llm_guard_proxy_stuck_watchdog_restart_queue_depth"@,
        "Requests currently waiting for a watchdog restart."@,
        "gauge"@,
        watchdog.restart_queue_depth,
    )
}

/// Writes the metrics of the watchdog.
pub fn push_watchdog_metrics(output: &mut String, watchdog: WatchdogMetricsSnapshot)
    ensures
        final(output)@ == old(output)@ + watchdog_metrics(watchdog),
{
    let ghost before = output@;
    push_plain_metric(
        output,
        "llm_guard_proxy_stuck_watchdog_detections_total",
        "Stuck-engine watchdog detections.",
        "counter",
        watchdog.detections,
    );
    push_plain_metric(
        output,
        "llm_guard_proxy_stuck_watchdog_restarts_total",
        "Stuck-engine watchdog recovery restarts.",
        "counter",
        watchdog.restarts,
    );
    push_plain_metric(
        output,
        "llm_guard_proxy_stuck_watchdog_recovery_successes_total",
        "Successful stuck-engine watchdog recoveries.",
        "counter",
        watchdog.recovery_successes,
    );
    push_plain_metric(
        output,
        "llm_guard_proxy_stuck_watchdog_recovery_timeouts_total",
        "Timed-out stuck-engine watchdog recoveries.",
        "counter",
        watchdog.recovery_timeouts,
    );
    push_plain_metric(
        output,
        "llm_guard_proxy_restart_queue_depth",
        "Requests currently waiting for a recovery restart.",
        "gauge",
        watchdog.restart_queue_depth,
    );
    push_plain_metric(
        output,
        "llm_guard_proxy_stuck_watchdog_restart_queue_depth",
        "Requests currently waiting for a watchdog restart.",
        "gauge",
        watchdog.restart_queue_depth,
    );
    assert(output@ =~= before + watchdog_metrics(watchdog));
}

/// The metric of responses without choices.
pub open spec fn malformed_response_metrics(malformed_responses: u64) -> Seq<char> {
    header_text(
        "llm_guard_proxy_malformed_response_total"@,
        "Non-stream chat completion responses converted to 502 due to a missing or invalid choices field."@,
        "counter"@,
    ) + line_text(
        "llm_guard_proxy_malformed_response_total"@,
        seq![("kind"@, "missing_choices"@)],
        malformed_responses,
    )
}

/// Writes the metric of responses without choices.
pub fn push_malformed_response_metrics(output: &mut String, malformed_responses: u64)
    ensures
        final(output)@ == old(output)@ + malformed_response_metrics(malformed_responses),
{
    let ghost before = output@;
    push_metric_header(
        output,
        "llm_guard_proxy_malformed_response_total",
        "Non-stream chat completion responses converted to 502 due to a missing or invalid choices field.",
        "counter",
    );
    let labels = [("kind", "missing_choices")];
    assert(label_models(labels@) =~= seq![("kind"@, "missing_choices"@)]);
    push_metric_line(
        output,
        "llm_guard_proxy_malformed_response_total",
        labels.as_slice(),
        malformed_responses,
    );
    assert(output@ =~= before + malformed_response_metrics(malformed_responses));
}

/// The metric of records that were dropped.
pub open spec fn persistence_drop_metrics(persistence_dropped: u64) -> Seq<char> {
    plain_metric(
        "llm_guard_proxy_persistence_dropped_total"@,
        "Observability/evidence persistence closures dropped because the bounded backlog was full."@,
        "counter"@,
        persistence_dropped,
    )
}

/// Writes the metric of records that were dropped.
pub fn push_persistence_drop_metrics(output: &mut String, persistence_dropped: u64)
    ensures
        final(output)@ == old(output)@ + persistence_drop_metrics(persistence_dropped),
{
    push_plain_metric(
        output,
        "llm_guard_proxy_persistence_dropped_total",
        "Observability/evidence persistence closures dropped because the bounded backlog was full.",
        "counter",
        persistence_dropped,
    );
}

/// The line of upstream failures with one cause.
pub open spec fn failure_line(cause: UpstreamFailureCause, count: u64) -> Seq<char> {
    line_text(
        "llm_guard_proxy_upstream_failure_total"@,
        seq![("cause"@, cause.label())],
        count,
    )
}

fn push_failure_line(output: &mut String, cause: UpstreamFailureCause, count: u64)
    ensures
        final(output)@ == old(output)@ + failure_line(cause, count),
{
    let labels = [("cause", cause.metric_label())];
    assert(label_models(labels@) =~= seq![("cause"@, cause.label())]);
    push_metric_line(
        output,
        "llm_guard_proxy_upstream_failure_total",
        labels.as_slice(),
        count,
    );
}

/// The metric of upstream failures.
pub open spec fn upstream_failure_metrics(snapshot: UpstreamFailureSnapshot) -> Seq<char> {
    header_text(
        "llm_guard_proxy_upstream_failure_total"@,
        "Shielded and forwarded upstream failures classified by bounded cause bucket."@,
        "counter"@,
    ) + failure_line(UpstreamFailureCause::ConnectFailed, snapshot.connect_failed) + failure_line(
        UpstreamFailureCause::Timeout,
        snapshot.timeout,
    ) + failure_line(UpstreamFailureCause::BodyError, snapshot.body_error) + failure_line(
        UpstreamFailureCause::StatusError,
        snapshot.status_error,
    ) + failure_line(UpstreamFailureCause::TransportError, snapshot.transport_error)
}

/// Writes the metric of upstream failures.
pub fn push_upstream_failure_metrics(output: &mut String, snapshot: UpstreamFailureSnapshot)
    ensures
        final(output)@ == old(output)@ + upstream_failure_metrics(snapshot),
{
    let ghost before = output@;
    push_metric_header(
        output,
        "llm_guard_proxy_upstream_failure_total",
        "Shielded and forwarded upstream failures classified by bounded cause bucket.",
        "counter",
    );
    push_failure_line(output, UpstreamFailureCause::ConnectFailed, snapshot.connect_failed);
    push_failure_line(output, UpstreamFailureCause::Timeout, snapshot.timeout);
    push_failure_line(output, UpstreamFailureCause::BodyError, snapshot.body_error);
    push_failure_line(output, UpstreamFailureCause::StatusError, snapshot.status_error);
    push_failure_line(output, UpstreamFailureCause::TransportError, snapshot.transport_error);
    assert(output@ =~= before + upstream_failure_metrics(snapshot));
}

// ---------------------------------------------------------------------------
// What is kept on record
// ---------------------------------------------------------------------------

/// A count of records that have the same values of some labels.
pub trait MetricRow {
    /// The labels with their values, and the count.
    spec fn sample(&self) -> (Seq<LabelModel>, u64);

    /// The labels with their values.
    fn labels(&self) -> (labels: Vec<(&str, &str)>)
        ensures
            label_models(labels@) == self.sample().0,
    ;

    /// The count.
    fn count(&self) -> (count: u64)
        ensures
            count == self.sample().1,
    ;
}

/// Requests on record that have the same labels.
pub struct RequestCount {
    pub status: String,
    pub downstream_mode: String,
    pub upstream_mode: String,
    pub http_status_class: String,
    pub count: u64,
}

impl MetricRow for RequestCount {
    open spec fn sample(&self) -> (Seq<LabelModel>, u64) {
        (
            seq![
                ("status"@, self.status@),
                ("downstream_mode"@, self.downstream_mode@),
                ("upstream_mode"@, self.upstream_mode@),
                ("http_status_class"@, self.http_status_class@),
            ],
            self.count,
        )
    }

    fn labels(&self) -> (labels: Vec<(&str, &str)>) {
        let mut labels: Vec<(&str, &str)> = Vec::new();
        labels.push(("status", self.status.as_str()));
        labels.push(("downstream_mode", self.downstream_mode.as_str()));
        labels.push(("upstream_mode", self.upstream_mode.as_str()));
        labels.push(("http_status_class", self.http_status_class.as_str()));
        assert(label_models(labels@) =~= self.sample().0);
        labels
    }

    fn count(&self) -> (count: u64) {
        self.count
    }
}

/// Requests on record that ended alike.
pub struct RequestTerminalCount {
    pub status: String,
    pub terminal_reason: String,
    pub http_status_class: String,
    pub count: u64,
}

impl MetricRow for RequestTerminalCount {
    open spec fn sample(&self) -> (Seq<LabelModel>, u64) {
        (
            seq![
                ("status"@, self.status@),
                ("terminal_reason"@, self.terminal_reason@),
                ("http_status_class"@, self.http_status_class@),
            ],
            self.count,
        )
    }

    fn labels(&self) -> (labels: Vec<(&str, &str)>) {
        let mut labels: Vec<(&str, &str)> = Vec::new();
        labels.push(("status", self.status.as_str()));
        labels.push(("terminal_reason", self.terminal_reason.as_str()));
        labels.push(("http_status_class", self.http_status_class.as_str()));
        assert(label_models(labels@) =~= self.sample().0);
        labels
    }

    fn count(&self) -> (count: u64) {
        self.count
    }
}

/// Attempts on record that have the same labels.
pub struct AttemptCount {
    pub status: String,
    pub upstream_mode: String,
    pub http_status_class: String,
    pub count: u64,
}

impl MetricRow for AttemptCount {
    open spec fn sample(&self) -> (Seq<LabelModel>, u64) {
        (
            seq![
                ("status"@, self.status@),
                ("upstream_mode"@, self.upstream_mode@),
                ("http_status_class"@, self.http_status_class@),
            ],
            self.count,
        )
    }

    fn labels(&self) -> (labels: Vec<(&str, &str)>) {
        let mut labels: Vec<(&str, &str)> = Vec::new();
        labels.push(("status", self.status.as_str()));
        labels.push(("upstream_mode", self.upstream_mode.as_str()));
        labels.push(("http_status_class", self.http_status_class.as_str()));
        assert(label_models(labels@) =~= self.sample().0);
        labels
    }

    fn count(&self) -> (count: u64) {
        self.count
    }
}

/// Upstream errors on record of the same kind.
pub struct UpstreamErrorCount {
    pub kind: String,
    pub http_status_class: String,
    pub count: u64,
}

impl MetricRow for UpstreamErrorCount {
    open spec fn sample(&self) -> (Seq<LabelModel>, u64) {
        (
            seq![
                ("kind"@, self.kind@),
                ("http_status_class"@, self.http_status_class@),
            ],
            self.count,
        )
    }

    fn labels(&self) -> (labels: Vec<(&str, &str)>) {
        let mut labels: Vec<(&str, &str)> = Vec::new();
        labels.push(("kind", self.kind.as_str()));
        labels.push(("http_status_class", self.http_status_class.as_str()));
        assert(label_models(labels@) =~= self.sample().0);
        labels
    }

    fn count(&self) -> (count: u64) {
        self.count
    }
}

/// Requests on record with the same heartbeat mode.
pub struct HeartbeatModeCount {
    pub mode: String,
    pub count: u64,
}

impl MetricRow for HeartbeatModeCount {
    open spec fn sample(&self) -> (Seq<LabelModel>, u64) {
        (
            seq![
                ("mode"@, self.mode@),
            ],
            self.count,
        )
    }

    fn labels(&self) -> (labels: Vec<(&str, &str)>) {
        let mut labels: Vec<(&str, &str)> = Vec::new();
        labels.push(("mode", self.mode.as_str()));
        assert(label_models(labels@) =~= self.sample().0);
        labels
    }

    fn count(&self) -> (count: u64) {
        self.count
    }
}

/// Numbers of observations up to each bound, their number and their sum.
pub struct LatencyHistogram {
    /// The bounds in milliseconds, each with the number of observations up to it.
    pub buckets: Vec<(u64, u64)>,
    pub count: u64,
    pub sum_ms: u64,
}

/// What the store says of what it keeps.
pub struct ObservabilityMetricsSnapshot {
    pub request_counts: Vec<RequestCount>,
    pub request_terminal_counts: Vec<RequestTerminalCount>,
    pub attempt_counts: Vec<AttemptCount>,
    pub retry_count: u64,
    pub loop_abort_count: u64,
    pub upstream_error_counts: Vec<UpstreamErrorCount>,
    pub first_token_latency_ms: LatencyHistogram,
    pub total_latency_ms: LatencyHistogram,
    pub heartbeat_mode_counts: Vec<HeartbeatModeCount>,
    pub record_count: u64,
    pub observed_bytes: u64,
    pub prune_events: u64,
    pub pruned_requests: u64,
    pub pruned_attempts: u64,
}

/// The samples of some counts.
pub open spec fn row_samples<R: MetricRow>(rows: Seq<R>) -> Seq<(Seq<LabelModel>, u64)> {
    Seq::new(rows.len(), |i: int| rows[i].sample())
}

/// A metric of some counts.
pub open spec fn rows_metric<R: MetricRow>(name: Seq<char>, help: Seq<char>, rows: Seq<R>) -> Seq<
    char,
> {
    header_text(name, help, "gauge"@) + samples_text(name, row_samples(rows))
}

fn push_rows_metric<R: MetricRow>(output: &mut String, name: &str, help: &str, rows: &Vec<R>)
    ensures
        final(output)@ == old(output)@ + rows_metric(name@, help@, rows@),
{
    let ghost start = output@;
    push_metric_header(output, name, help, "gauge");
    let ghost before = output@;
    let ghost samples = row_samples(rows@);
    let mut i: usize = 0;
    assert(before + samples_text(name@, samples.take(0)) =~= before);
    while i < rows.len()
        invariant
            i <= rows.len(),
            samples == row_samples(rows@),
            output@ == before + samples_text(name@, samples.take(i as int)),
        decreases rows.len() - i,
    {
        let labels = rows[i].labels();
        assert(samples.take(i + 1).drop_last() =~= samples.take(i as int));
        push_metric_line(output, name, labels.as_slice(), rows[i].count());
        i += 1;
        assert(output@ =~= before + samples_text(name@, samples.take(i as int)));
    }
    assert(samples.take(i as int) =~= samples);
    assert(output@ =~= start + rows_metric(name@, help@, rows@));
}

/// The metric of requests on record.
pub open spec fn request_metrics(snapshot: ObservabilityMetricsSnapshot) -> Seq<char> {
    rows_metric(
        "llm_guard_proxy_current_retained_requests"@,
        "Currently retained proxy request rows by bounded lifecycle labels."@,
        snapshot.request_counts@,
    )
}

/// Writes the metric of requests on record.
pub fn push_request_metrics(output: &mut String, snapshot: &ObservabilityMetricsSnapshot)
    ensures
        final(output)@ == old(output)@ + request_metrics(*snapshot),
{
    push_rows_metric(
        output,
        "llm_guard_proxy_current_retained_requests",
        "Currently retained proxy request rows by bounded lifecycle labels.",
        &snapshot.request_counts,
    );
}

/// The metric of how requests on record ended.
pub open spec fn request_terminal_metrics(snapshot: ObservabilityMetricsSnapshot) -> Seq<char> {
    rows_metric(
        "llm_guard_proxy_current_retained_request_terminals"@,
        "Currently retained proxy request rows by bounded terminal reason."@,
        snapshot.request_terminal_counts@,
    )
}

/// Writes the metric of how requests on record ended.
pub fn push_request_terminal_metrics(output: &mut String, snapshot: &ObservabilityMetricsSnapshot)
    ensures
        final(output)@ == old(output)@ + request_terminal_metrics(*snapshot),
{
    push_rows_metric(
        output,
        "llm_guard_proxy_current_retained_request_terminals",
        "Currently retained proxy request rows by bounded terminal reason.",
        &snapshot.request_terminal_counts,
    );
}

/// The metric of attempts on record.
pub open spec fn attempt_metrics(snapshot: ObservabilityMetricsSnapshot) -> Seq<char> {
    rows_metric(
        "llm_guard_proxy_current_retained_attempts"@,
        "Currently retained proxy upstream attempts by bounded lifecycle labels."@,
        snapshot.attempt_counts@,
    )
}

/// Writes the metric of attempts on record.
pub fn push_attempt_metrics(output: &mut String, snapshot: &ObservabilityMetricsSnapshot)
    ensures
        final(output)@ == old(output)@ + attempt_metrics(*snapshot),
{
    push_rows_metric(
        output,
        "llm_guard_proxy_current_retained_attempts",
        "Currently retained proxy upstream attempts by bounded lifecycle labels.",
        &snapshot.attempt_counts,
    );
}

/// The metrics of retries and errors on record.
pub open spec fn retry_and_error_metrics(snapshot: ObservabilityMetricsSnapshot) -> Seq<char> {
    plain_metric(
        "llm_guard_proxy_current_retained_retries"@,
        "Currently retained attempts retried or marked with retry reasons."@,
        "gauge"@,
        snapshot.retry_count,
    ) + plain_metric(
        "llm_guard_proxy_current_retained_loop_aborts"@,
        "Currently retained loop-guard abort observations."@,
        "gauge"@,
        snapshot.loop_abort_count,
    ) + rows_metric(
        "llm_guard_proxy_current_retained_upstream_errors"@,
        "Currently retained upstream error observations by bounded error bucket."@,
        snapshot.upstream_error_counts@,
    )
}

/// Writes the metrics of retries and errors on record.
pub fn push_retry_and_error_metrics(output: &mut String, snapshot: &ObservabilityMetricsSnapshot)
    ensures
        final(output)@ == old(output)@ + retry_and_error_metrics(*snapshot),
{
    let ghost before = output@;
    push_plain_metric(
        output,
        "llm_guard_proxy_current_retained_retries",
        "Currently retained attempts retried or marked with retry reasons.",
        "gauge",
        snapshot.retry_count,
    );
    push_plain_metric(
        output,
        "llm_guard_proxy_current_retained_loop_aborts",
        "Currently retained loop-guard abort observations.",
        "gauge",
        snapshot.loop_abort_count,
    );
    push_rows_metric(
        output,
        "llm_guard_proxy_current_retained_upstream_errors",
        "Currently retained upstream error observations by bounded error bucket.",
        &snapshot.upstream_error_counts,
    );
    assert(output@ =~= before + retry_and_error_metrics(*snapshot));
}

/// The samples of the bounds of a histogram.
pub open spec fn bucket_samples(buckets: Seq<(u64, u64)>) -> Seq<(Seq<LabelModel>, u64)> {
    Seq::new(
        buckets.len(),
        |i: int| (seq![("le"@, decimal(buckets[i].0 as nat))], buckets[i].1),
    )
}

/// The metrics of a histogram.
pub open spec fn histogram_metrics(
    name: Seq<char>,
    help: Seq<char>,
    histogram: LatencyHistogram,
) -> Seq<char> {
    let le = name + "_le"@;
    header_text(
        le,
        "Currently retained "@ + help + " observations less than or equal to the bound."@,
        "gauge"@,
    ) + samples_text(le, bucket_samples(histogram.buckets@)) + line_text(
        le,
        seq![("le"@, "+Inf"@)],
        histogram.count,
    ) + plain_metric(
        name + "_observations"@,
        "Currently retained "@ + help + " observation count."@,
        "gauge"@,
        histogram.count,
    ) + plain_metric(
        name + "_sum_ms"@,
        "Currently retained "@ + help + " sum."@,
        "gauge"@,
        histogram.sum_ms,
    )
}

fn push_buckets(output: &mut String, name: &str, buckets: &Vec<(u64, u64)>)
    ensures
        final(output)@ == old(output)@ + samples_text(name@, bucket_samples(buckets@)),
{
    let ghost before = output@;
    let ghost samples = bucket_samples(buckets@);
    let mut i: usize = 0;
    assert(before + samples_text(name@, samples.take(0)) =~= before);
    while i < buckets.len()
        invariant
            i <= buckets.len(),
            samples == bucket_samples(buckets@),
            output@ == before + samples_text(name@, samples.take(i as int)),
        decreases buckets.len() - i,
    {
        let bound = decimal_text(buckets[i].0);
        let labels = [("le", bound.as_str())];
        assert(label_models(labels@) =~= samples[i as int].0);
        assert(samples.take(i + 1).drop_last() =~= samples.take(i as int));
        push_metric_line(output, name, labels.as_slice(), buckets[i].1);
        i += 1;
        assert(output@ =~= before + samples_text(name@, samples.take(i as int)));
    }
    assert(samples.take(i as int) =~= samples);
}

fn help_text(help: &str, end: &str) -> (text: String)
    ensures
        text@ == "Currently retained "@ + help@ + end@,
{
    let mut text = joined("Currently retained ", help);
    text.append(end);
    text
}

/// Writes the metrics of a histogram.
pub fn push_latency_distribution_gauges(
    output: &mut String,
    name: &str,
    help: &str,
    histogram: &LatencyHistogram,
)
    ensures
        final(output)@ == old(output)@ + histogram_metrics(name@, help@, *histogram),
{
    let ghost before = output@;
    let le_metric = joined(name, "_le");
    push_metric_header(
        output,
        le_metric.as_str(),
        help_text(help, " observations less than or equal to the bound.").as_str(),
        "gauge",
    );
    push_buckets(output, le_metric.as_str(), &histogram.buckets);
    let labels = [("le", "+Inf")];
    assert(label_models(labels@) =~= seq![("le"@, "+Inf"@)]);
    push_metric_line(output, le_metric.as_str(), labels.as_slice(), histogram.count);
    push_plain_metric(
        output,
        joined(name, "_observations").as_str(),
        help_text(help, " observation count.").as_str(),
        "gauge",
        histogram.count,
    );
    push_plain_metric(
        output,
        joined(name, "_sum_ms").as_str(),
        help_text(help, " sum.").as_str(),
        "gauge",
        histogram.sum_ms,
    );
    assert(output@ =~= before + histogram_metrics(name@, help@, *histogram));
}

/// The metrics of latencies on record.
pub open spec fn latency_metrics(snapshot: ObservabilityMetricsSnapshot) -> Seq<char> {
    histogram_metrics(
        "llm_guard_proxy_current_retained_first_token_latency_ms"@,
        "first-token latency in milliseconds for shielded attempts"@,
        snapshot.first_token_latency_ms,
    ) + histogram_metrics(
        "llm_guard_proxy_current_retained_total_latency_ms"@,
        "end-to-end request latency in milliseconds"@,
        snapshot.total_latency_ms,
    )
}

/// Writes the metrics of latencies on record.
pub fn push_latency_metrics(output: &mut String, snapshot: &ObservabilityMetricsSnapshot)
    ensures
        final(output)@ == old(output)@ + latency_metrics(*snapshot),
{
    let ghost before = output@;
    push_latency_distribution_gauges(
        output,
        "llm_guard_proxy_current_retained_first_token_latency_ms",
        "first-token latency in milliseconds for shielded attempts",
        &snapshot.first_token_latency_ms,
    );
    push_latency_distribution_gauges(
        output,
        "llm_guard_proxy_current_retained_total_latency_ms",
        "end-to-end request latency in milliseconds",
        &snapshot.total_latency_ms,
    );
    assert(output@ =~= before + latency_metrics(*snapshot));
}

/// The metric of heartbeat modes on record.
pub open spec fn heartbeat_metrics(snapshot: ObservabilityMetricsSnapshot) -> Seq<char> {
    rows_metric(
        "llm_guard_proxy_current_retained_heartbeat_modes"@,
        "Currently retained downstream heartbeat/liveness mode counts."@,
        snapshot.heartbeat_mode_counts@,
    )
}

/// Writes the metric of heartbeat modes on record.
pub fn push_heartbeat_metrics(output: &mut String, snapshot: &ObservabilityMetricsSnapshot)
    ensures
        final(output)@ == old(output)@ + heartbeat_metrics(*snapshot),
{
    push_rows_metric(
        output,
        "llm_guard_proxy_current_retained_heartbeat_modes",
        "Currently retained downstream heartbeat/liveness mode counts.",
        &snapshot.heartbeat_mode_counts,
    );
}

/// The metrics of the store.
pub open spec fn storage_metrics(snapshot: ObservabilityMetricsSnapshot) -> Seq<char> {
    plain_metric(
        "llm_guard_proxy_observability_records"@,
        "Currently retained observability records."@,
        "gauge"@,
        snapshot.record_count,
    ) + plain_metric(
        "llm_guard_proxy_observability_storage_bytes"@,
        "SQLite bytes used by the observability store."@,
        "gauge"@,
        snapshot.observed_bytes,
    ) + plain_metric(
        "llm_guard_proxy_storage_pruning_events_total"@,
        "Retention pruning events that removed rows."@,
        "counter"@,
        snapshot.prune_events,
    ) + plain_metric(
        "llm_guard_proxy_storage_pruned_requests_total"@,
        "Request rows removed by retention pruning."@,
        "counter"@,
        snapshot.pruned_requests,
    ) + plain_metric(
        "llm_guard_proxy_storage_pruned_attempts_total"@,
        "Attempt rows removed by retention pruning."@,
        "counter"@,
        snapshot.pruned_attempts,
    )
}

/// Writes the metrics of the store.
pub fn push_storage_metrics(output: &mut String, snapshot: &ObservabilityMetricsSnapshot)
    ensures
        final(output)@ == old(output)@ + storage_metrics(*snapshot),
{
    let ghost before = output@;
    push_plain_metric(
        output,
        "llm_guard_proxy_observability_records",
        "Currently retained observability records.",
        "gauge",
        snapshot.record_count,
    );
    push_plain_metric(
        output,
        "llm_guard_proxy_observability_storage_bytes",
        "SQLite bytes used by the observability store.",
        "gauge",
        snapshot.observed_bytes,
    );
    push_plain_metric(
        output,
        "llm_guard_proxy_storage_pruning_events_total",
        "Retention pruning events that removed rows.",
        "counter",
        snapshot.prune_events,
    );
    push_plain_metric(
        output,
        "llm_guard_proxy_storage_pruned_requests_total",
        "Request rows removed by retention pruning.",
        "counter",
        snapshot.pruned_requests,
    );
    push_plain_metric(
        output,
        "llm_guard_proxy_storage_pruned_attempts_total",
        "Attempt rows removed by retention pruning.",
        "counter",
        snapshot.pruned_attempts,
    );
    assert(output@ =~= before + storage_metrics(*snapshot));
}

// ---------------------------------------------------------------------------
// All metrics
// ---------------------------------------------------------------------------

/// All metrics.
pub open spec fn metrics_text(
    snapshot: ObservabilityMetricsSnapshot,
    admission: AdmissionMetricsSnapshot,
    malformed_responses: u64,
    persistence_dropped: u64,
    upstream_failures: UpstreamFailureSnapshot,
    watchdog: WatchdogMetricsSnapshot,
) -> Seq<char> {
    admission_metrics(admission) + watchdog_metrics(watchdog) + request_metrics(snapshot)
        + request_terminal_metrics(snapshot) + attempt_metrics(snapshot) + retry_and_error_metrics(
        snapshot,
    ) + malformed_response_metrics(malformed_responses) + persistence_drop_metrics(
        persistence_dropped,
    ) + upstream_failure_metrics(upstream_failures) + latency_metrics(snapshot) + heartbeat_metrics(
        snapshot,
    ) + storage_metrics(snapshot)
}

/// Writes all metrics.
pub fn render_metrics(
    snapshot: &ObservabilityMetricsSnapshot,
    admission: &AdmissionMetricsSnapshot,
    malformed_responses: u64,
    persistence_dropped: u64,
    upstream_failures: UpstreamFailureSnapshot,
    watchdog: WatchdogMetricsSnapshot,
) -> (output: String)
    ensures
        output@ == metrics_text(
            *snapshot,
            *admission,
            malformed_responses,
            persistence_dropped,
            upstream_failures,
            watchdog,
        ),
{
    let mut output = String::new();
    push_admission_metrics(&mut output, admission);
    push_watchdog_metrics(&mut output, watchdog);
    push_request_metrics(&mut output, snapshot);
    push_request_terminal_metrics(&mut output, snapshot);
    push_attempt_metrics(&mut output, snapshot);
    push_retry_and_error_metrics(&mut output, snapshot);
    push_malformed_response_metrics(&mut output, malformed_responses);
    push_persistence_drop_metrics(&mut output, persistence_dropped);
    push_upstream_failure_metrics(&mut output, upstream_failures);
    push_latency_metrics(&mut output, snapshot);
    push_heartbeat_metrics(&mut output, snapshot);
    push_storage_metrics(&mut output, snapshot);
    assert(output@ =~= metrics_text(
        *snapshot,
        *admission,
        malformed_responses,
        persistence_dropped,
        upstream_failures,
        watchdog,
    ));
    output
}

proof fn parts_stay_in_longer_texts(
    before: Seq<char>,
    text: Seq<char>,
    after: Seq<char>,
    part: Seq<char>,
)
    requires
        crate::text::has_part(text, part),
    ensures
        crate::text::has_part(before + text + after, part),
{
    let at = choose|at: int| crate::text::occurs_at(text, part, at);
    let whole = before + text + after;
    let there = before.len() + at;
    assert(whole.subrange(there, there + part.len() as int) =~= text.subrange(
        at,
        at + part.len() as int,
    ));
    assert(crate::text::occurs_at(whole, part, there));
}

/// A metric has a line with its name and its value.
pub proof fn metrics_have_their_line(
    name: Seq<char>,
    help: Seq<char>,
    metric_type: Seq<char>,
    value: u64,
)
    ensures
        crate::text::has_part(
            plain_metric(name, help, metric_type, value),
            name + " "@ + decimal(value as nat) + "\n"@,
        ),
{
    let line = name + " "@ + decimal(value as nat) + "\n"@;
    let none = Seq::<char>::empty();
    crate::text::prefixes_and_parts_are_found(header_text(name, help, metric_type), line, none);
    assert(header_text(name, help, metric_type) + line + none =~= plain_metric(
        name,
        help,
        metric_type,
        value,
    ));
}

/// Every sample has its own line, with its labels and its value.
pub proof fn samples_have_their_line(
    name: Seq<char>,
    samples: Seq<(Seq<LabelModel>, u64)>,
    at: int,
)
    requires
        0 <= at < samples.len(),
    ensures
        crate::text::has_part(samples_text(name, samples), line_text(name, samples[at].0, samples[at].1)),
    decreases samples.len(),
{
    let none = Seq::<char>::empty();
    let before = samples_text(name, samples.drop_last());
    let last = line_text(name, samples.last().0, samples.last().1);
    if at == samples.len() - 1 {
        crate::text::prefixes_and_parts_are_found(before, last, none);
        assert(before + last + none =~= before + last);
    } else {
        samples_have_their_line(name, samples.drop_last(), at);
        assert(samples.drop_last()[at] == samples[at]);
        parts_stay_in_longer_texts(
            none,
            before,
            last,
            line_text(name, samples[at].0, samples[at].1),
        );
        assert(none + before + last =~= before + last);
    }
}

/// The line of a sample with one label names the label, its value and the number.
pub proof fn labels_are_written_out(
    name: Seq<char>,
    label: Seq<char>,
    text: Seq<char>,
    value: u64,
)
    requires
        !text.contains('\\'),
        !text.contains('\n'),
        !text.contains('"'),
    ensures
        line_text(name, seq![(label, text)], value) == name + "{"@ + label + "=\""@ + text + "\""@
            + "}"@ + " "@ + decimal(value as nat) + "\n"@,
{
    plain_labels_stay(text);
    let labels = seq![(label, text)];
    assert(labels.drop_last() =~= Seq::<LabelModel>::empty());
    assert(labels_text(labels.drop_last()) =~= Seq::<char>::empty());
    assert(labels_text(labels) =~= label + "=\""@ + text + "\""@);
    assert(line_text(name, labels, value) =~= name + "{"@ + label + "=\""@ + text + "\""@ + "}"@
        + " "@ + decimal(value as nat) + "\n"@);
}

proof fn plain_labels_stay(text: Seq<char>)
    requires
        !text.contains('\\'),
        !text.contains('\n'),
        !text.contains('"'),
    ensures
        escaped_label(text) == text,
    decreases text.len(),
{
    if text.len() > 0 {
        let before = text.drop_last();
        assert forall|i: int| 0 <= i < before.len() implies before[i] != '\\' && before[i] != '\n'
            && before[i] != '"' by {
            assert(text[i] == before[i]);
            assert(text.contains(text[i]));
        }
        plain_labels_stay(before);
        assert(text.contains(text.last()));
        assert(before + seq![text.last()] =~= text);
    } else {
        assert(text =~= Seq::<char>::empty());
    }
}

proof fn cause_labels_are_plain(cause: UpstreamFailureCause)
    ensures
        !cause.label().contains('\\'),
        !cause.label().contains('\n'),
        !cause.label().contains('"'),
{
    reveal_strlit("connect_failed");
    reveal_strlit("timeout");
    reveal_strlit("body_error");
    reveal_strlit("status_error");
    reveal_strlit("transport_error");
}

proof fn lines_are_found(
    head: Seq<char>,
    l0: Seq<char>,
    l1: Seq<char>,
    l2: Seq<char>,
    l3: Seq<char>,
    l4: Seq<char>,
)
    ensures
        crate::text::has_part(head + l0 + l1 + l2 + l3 + l4, l0),
        crate::text::has_part(head + l0 + l1 + l2 + l3 + l4, l1),
        crate::text::has_part(head + l0 + l1 + l2 + l3 + l4, l2),
        crate::text::has_part(head + l0 + l1 + l2 + l3 + l4, l3),
        crate::text::has_part(head + l0 + l1 + l2 + l3 + l4, l4),
{
    let t0 = head + l0;
    let t1 = t0 + l1;
    let t2 = t1 + l2;
    let t3 = t2 + l3;
    line_is_found(head, l0);
    line_is_found(t0, l1);
    line_is_found(t1, l2);
    line_is_found(t2, l3);
    line_is_found(t3, l4);
    crate::text::parts_are_found_in_more(t0, l0, l1);
    crate::text::parts_are_found_in_more(t1, l0, l2);
    crate::text::parts_are_found_in_more(t2, l0, l3);
    crate::text::parts_are_found_in_more(t3, l0, l4);
    crate::text::parts_are_found_in_more(t1, l1, l2);
    crate::text::parts_are_found_in_more(t2, l1, l3);
    crate::text::parts_are_found_in_more(t3, l1, l4);
    crate::text::parts_are_found_in_more(t2, l2, l3);
    crate::text::parts_are_found_in_more(t3, l2, l4);
    crate::text::parts_are_found_in_more(t3, l3, l4);
}

proof fn line_is_found(before: Seq<char>, line: Seq<char>)
    ensures
        crate::text::has_part(before + line, line),
{
    crate::text::parts_are_found_at_the_end(before, line, Seq::empty());
    assert(before + line + Seq::<char>::empty() =~= before + line);
    assert(line + Seq::<char>::empty() =~= line);
}

/// The failures of the upstreams are told by their cause, each with its own count.
pub proof fn failures_are_told_by_cause(
    snapshot: UpstreamFailureSnapshot,
    cause: UpstreamFailureCause,
)
    ensures
        crate::text::has_part(
            upstream_failure_metrics(snapshot),
            "llm_guard_proxy_upstream_failure_total"@ + "{"@ + "cause"@ + "=\""@ + cause.label()
                + "\""@ + "}"@ + " "@ + decimal(snapshot.count(cause) as nat) + "\n"@,
        ),
{
    let name = "llm_guard_proxy_upstream_failure_total"@;
    cause_labels_are_plain(cause);
    labels_are_written_out(name, "cause"@, cause.label(), snapshot.count(cause));
    let head = header_text(
        name,
        "Shielded and forwarded upstream failures classified by bounded cause bucket."@,
        "counter"@,
    );
    let l0 = failure_line(UpstreamFailureCause::ConnectFailed, snapshot.connect_failed);
    let l1 = failure_line(UpstreamFailureCause::Timeout, snapshot.timeout);
    let l2 = failure_line(UpstreamFailureCause::BodyError, snapshot.body_error);
    let l3 = failure_line(UpstreamFailureCause::StatusError, snapshot.status_error);
    let l4 = failure_line(UpstreamFailureCause::TransportError, snapshot.transport_error);
    lines_are_found(head, l0, l1, l2, l3, l4);
}

/// The numbers of the watchdog are told under their names.
pub proof fn watchdog_numbers_are_told(watchdog: WatchdogMetricsSnapshot)
    ensures
        crate::text::has_part(
            watchdog_metrics(watchdog),
            "llm_guard_proxy_stuck_watchdog_detections_total"@ + " "@ + decimal(watchdog.detections as nat) + "\n"@,
        ),
        crate::text::has_part(
            watchdog_metrics(watchdog),
            "llm_guard_proxy_stuck_watchdog_restarts_total"@ + " "@ + decimal(watchdog.restarts as nat) + "\n"@,
        ),
        crate::text::has_part(
            watchdog_metrics(watchdog),
            "llm_guard_proxy_stuck_watchdog_recovery_successes_total"@ + " "@ + decimal(watchdog.recovery_successes as nat) + "\n"@,
        ),
        crate::text::has_part(
            watchdog_metrics(watchdog),
            "llm_guard_proxy_stuck_watchdog_recovery_timeouts_total"@ + " "@ + decimal(watchdog.recovery_timeouts as nat) + "\n"@,
        ),
        crate::text::has_part(
            watchdog_metrics(watchdog),
            "llm_guard_proxy_restart_queue_depth"@ + " "@ + decimal(watchdog.restart_queue_depth as nat) + "\n"@,
        ),
        crate::text::has_part(
            watchdog_metrics(watchdog),
            "llm_guard_proxy_stuck_watchdog_restart_queue_depth"@ + " "@ + decimal(watchdog.restart_queue_depth as nat) + "\n"@,
        ),
{
    let m0 = plain_metric(
        "llm_guard_proxy_stuck_watchdog_detections_total"@,
        "Stuck-engine watchdog detections."@,
        "counter"@,
        watchdog.detections,
    );
    let m1 = plain_metric(
        "llm_guard_proxy_stuck_watchdog_restarts_total"@,
        "Stuck-engine watchdog recovery restarts."@,
        "counter"@,
        watchdog.restarts,
    );
    let m2 = plain_metric(
        "llm_guard_proxy_stuck_watchdog_recovery_successes_total"@,
        "Successful stuck-engine watchdog recoveries."@,
        "counter"@,
        watchdog.recovery_successes,
    );
    let m3 = plain_metric(
        "llm_guard_proxy_stuck_watchdog_recovery_timeouts_total"@,
        "Timed-out stuck-engine watchdog recoveries."@,
        "counter"@,
        watchdog.recovery_timeouts,
    );
    let m4 = plain_metric(
        "llm_guard_proxy_restart_queue_depth"@,
        "Requests currently waiting for a recovery restart."@,
        "gauge"@,
        watchdog.restart_queue_depth,
    );
    let m5 = plain_metric(
        "llm_guard_proxy_stuck_watchdog_restart_queue_depth"@,
        "Requests currently waiting for a watchdog restart."@,
        "gauge"@,
        watchdog.restart_queue_depth,
    );
    metrics_have_their_line(
        "llm_guard_proxy_stuck_watchdog_detections_total"@,
        "Stuck-engine watchdog detections."@,
        "counter"@,
        watchdog.detections,
    );
    metrics_have_their_line(
        "llm_guard_proxy_stuck_watchdog_restarts_total"@,
        "Stuck-engine watchdog recovery restarts."@,
        "counter"@,
        watchdog.restarts,
    );
    metrics_have_their_line(
        "llm_guard_proxy_stuck_watchdog_recovery_successes_total"@,
        "Successful stuck-engine watchdog recoveries."@,
        "counter"@,
        watchdog.recovery_successes,
    );
    metrics_have_their_line(
        "llm_guard_proxy_stuck_watchdog_recovery_timeouts_total"@,
        "Timed-out stuck-engine watchdog recoveries."@,
        "counter"@,
        watchdog.recovery_timeouts,
    );
    metrics_have_their_line(
        "llm_guard_proxy_restart_queue_depth"@,
        "Requests currently waiting for a recovery restart."@,
        "gauge"@,
        watchdog.restart_queue_depth,
    );
    metrics_have_their_line(
        "llm_guard_proxy_stuck_watchdog_restart_queue_depth"@,
        "Requests currently waiting for a watchdog restart."@,
        "gauge"@,
        watchdog.restart_queue_depth,
    );
    assert(m0 + m1 + m2 + m3 + m4 + m5 =~= (Seq::<char>::empty()) + m0 + (m1 + m2 + m3 + m4 + m5));
    parts_stay_in_longer_texts(
        Seq::<char>::empty(),
        m0,
        m1 + m2 + m3 + m4 + m5,
        "llm_guard_proxy_stuck_watchdog_detections_total"@ + " "@ + decimal(watchdog.detections as nat) + "\n"@,
    );
    assert(m0 + m1 + m2 + m3 + m4 + m5 =~= (m0) + m1 + (m2 + m3 + m4 + m5));
    parts_stay_in_longer_texts(
        m0,
        m1,
        m2 + m3 + m4 + m5,
        "llm_guard_proxy_stuck_watchdog_restarts_total"@ + " "@ + decimal(watchdog.restarts as nat) + "\n"@,
    );
    assert(m0 + m1 + m2 + m3 + m4 + m5 =~= (m0 + m1) + m2 + (m3 + m4 + m5));
    parts_stay_in_longer_texts(
        m0 + m1,
        m2,
        m3 + m4 + m5,
        "llm_guard_proxy_stuck_watchdog_recovery_successes_total"@ + " "@ + decimal(watchdog.recovery_successes as nat) + "\n"@,
    );
    assert(m0 + m1 + m2 + m3 + m4 + m5 =~= (m0 + m1 + m2) + m3 + (m4 + m5));
    parts_stay_in_longer_texts(
        m0 + m1 + m2,
        m3,
        m4 + m5,
        "llm_guard_proxy_stuck_watchdog_recovery_timeouts_total"@ + " "@ + decimal(watchdog.recovery_timeouts as nat) + "\n"@,
    );
    assert(m0 + m1 + m2 + m3 + m4 + m5 =~= (m0 + m1 + m2 + m3) + m4 + (m5));
    parts_stay_in_longer_texts(
        m0 + m1 + m2 + m3,
        m4,
        m5,
        "llm_guard_proxy_restart_queue_depth"@ + " "@ + decimal(watchdog.restart_queue_depth as nat) + "\n"@,
    );
    assert(m0 + m1 + m2 + m3 + m4 + m5 =~= (m0 + m1 + m2 + m3 + m4) + m5 + (Seq::<char>::empty()));
    parts_stay_in_longer_texts(
        m0 + m1 + m2 + m3 + m4,
        m5,
        Seq::<char>::empty(),
        "llm_guard_proxy_stuck_watchdog_restart_queue_depth"@ + " "@ + decimal(watchdog.restart_queue_depth as nat) + "\n"@,
    );
}

/// The numbers of the store are told under their names.
pub proof fn storage_numbers_are_told(snapshot: ObservabilityMetricsSnapshot)
    ensures
        crate::text::has_part(
            storage_metrics(snapshot),
            "llm_guard_proxy_observability_records"@ + " "@ + decimal(snapshot.record_count as nat) + "\n"@,
        ),
        crate::text::has_part(
            storage_metrics(snapshot),
            "llm_guard_proxy_observability_storage_bytes"@ + " "@ + decimal(snapshot.observed_bytes as nat) + "\n"@,
        ),
        crate::text::has_part(
            storage_metrics(snapshot),
            "llm_guard_proxy_storage_pruning_events_total"@ + " "@ + decimal(snapshot.prune_events as nat) + "\n"@,
        ),
        crate::text::has_part(
            storage_metrics(snapshot),
            "llm_guard_proxy_storage_pruned_requests_total"@ + " "@ + decimal(snapshot.pruned_requests as nat) + "\n"@,
        ),
        crate::text::has_part(
            storage_metrics(snapshot),
            "llm_guard_proxy_storage_pruned_attempts_total"@ + " "@ + decimal(snapshot.pruned_attempts as nat) + "\n"@,
        ),
{
    let m0 = plain_metric(
        "llm_guard_proxy_observability_records"@,
        "Currently retained observability records."@,
        "gauge"@,
        snapshot.record_count,
    );
    let m1 = plain_metric(
        "llm_guard_proxy_observability_storage_bytes"@,
        "SQLite bytes used by the observability store."@,
        "gauge"@,
        snapshot.observed_bytes,
    );
    let m2 = plain_metric(
        "llm_guard_proxy_storage_pruning_events_total"@,
        "Retention pruning events that removed rows."@,
        "counter"@,
        snapshot.prune_events,
    );
    let m3 = plain_metric(
        "llm_guard_proxy_storage_pruned_requests_total"@,
        "Request rows removed by retention pruning."@,
        "counter"@,
        snapshot.pruned_requests,
    );
    let m4 = plain_metric(
        "llm_guard_proxy_storage_pruned_attempts_total"@,
        "Attempt rows removed by retention pruning."@,
        "counter"@,
        snapshot.pruned_attempts,
    );
    metrics_have_their_line(
        "llm_guard_proxy_observability_records"@,
        "Currently retained observability records."@,
        "gauge"@,
        snapshot.record_count,
    );
    metrics_have_their_line(
        "llm_guard_proxy_observability_storage_bytes"@,
        "SQLite bytes used by the observability store."@,
        "gauge"@,
        snapshot.observed_bytes,
    );
    metrics_have_their_line(
        "llm_guard_proxy_storage_pruning_events_total"@,
        "Retention pruning events that removed rows."@,
        "counter"@,
        snapshot.prune_events,
    );
    metrics_have_their_line(
        "llm_guard_proxy_storage_pruned_requests_total"@,
        "Request rows removed by retention pruning."@,
        "counter"@,
        snapshot.pruned_requests,
    );
    metrics_have_their_line(
        "llm_guard_proxy_storage_pruned_attempts_total"@,
        "Attempt rows removed by retention pruning."@,
        "counter"@,
        snapshot.pruned_attempts,
    );
    assert(m0 + m1 + m2 + m3 + m4 =~= (Seq::<char>::empty()) + m0 + (m1 + m2 + m3 + m4));
    parts_stay_in_longer_texts(
        Seq::<char>::empty(),
        m0,
        m1 + m2 + m3 + m4,
        "llm_guard_proxy_observability_records"@ + " "@ + decimal(snapshot.record_count as nat) + "\n"@,
    );
    assert(m0 + m1 + m2 + m3 + m4 =~= (m0) + m1 + (m2 + m3 + m4));
    parts_stay_in_longer_texts(
        m0,
        m1,
        m2 + m3 + m4,
        "llm_guard_proxy_observability_storage_bytes"@ + " "@ + decimal(snapshot.observed_bytes as nat) + "\n"@,
    );
    assert(m0 + m1 + m2 + m3 + m4 =~= (m0 + m1) + m2 + (m3 + m4));
    parts_stay_in_longer_texts(
        m0 + m1,
        m2,
        m3 + m4,
        "llm_guard_proxy_storage_pruning_events_total"@ + " "@ + decimal(snapshot.prune_events as nat) + "\n"@,
    );
    assert(m0 + m1 + m2 + m3 + m4 =~= (m0 + m1 + m2) + m3 + (m4));
    parts_stay_in_longer_texts(
        m0 + m1 + m2,
        m3,
        m4,
        "llm_guard_proxy_storage_pruned_requests_total"@ + " "@ + decimal(snapshot.pruned_requests as nat) + "\n"@,
    );
    assert(m0 + m1 + m2 + m3 + m4 =~= (m0 + m1 + m2 + m3) + m4 + (Seq::<char>::empty()));
    parts_stay_in_longer_texts(
        m0 + m1 + m2 + m3,
        m4,
        Seq::<char>::empty(),
        "llm_guard_proxy_storage_pruned_attempts_total"@ + " "@ + decimal(snapshot.pruned_attempts as nat) + "\n"@,
    );
}

/// The requests that run and wait are told, all together and for each profile.
pub proof fn admitted_requests_are_told(admission: AdmissionMetricsSnapshot, at: int)
    requires
        0 <= at < admission.profiles@.len(),
    ensures
        crate::text::has_part(
            admission_metrics(admission),
            "llm_guard_proxy_generation_active"@ + " "@ + decimal(
                admission.generation.active as u64 as nat,
            ) + "\n"@,
        ),
        crate::text::has_part(
            admission_metrics(admission),
            "llm_guard_proxy_generation_queued"@ + " "@ + decimal(
                admission.generation.queued as u64 as nat,
            ) + "\n"@,
        ),
        crate::text::has_part(
            admission_metrics(admission),
            line_text(
                "llm_guard_proxy_generation_profile_active"@,
                seq![("profile"@, admission.profiles@[at].profile@)],
                admission.profiles@[at].counts.active as u64,
            ),
        ),
        crate::text::has_part(
            admission_metrics(admission),
            line_text(
                "llm_guard_proxy_generation_profile_queued"@,
                seq![("profile"@, admission.profiles@[at].profile@)],
                admission.profiles@[at].counts.queued as u64,
            ),
        ),
{
    let active = plain_metric(
        "llm_guard_proxy_generation_active"@,
        "Current generation requests holding an admitted upstream slot."@,
        "gauge"@,
        admission.generation.active as u64,
    );
    let queued = plain_metric(
        "llm_guard_proxy_generation_queued"@,
        "Current generation requests waiting for an upstream slot."@,
        "gauge"@,
        admission.generation.queued as u64,
    );
    let active_name = "llm_guard_proxy_generation_profile_active"@;
    let queued_name = "llm_guard_proxy_generation_profile_queued"@;
    let active_head = header_text(
        active_name,
        "Current per-profile generation requests holding an admitted upstream slot."@,
        "gauge"@,
    );
    let queued_head = header_text(
        queued_name,
        "Current per-profile generation requests waiting for an upstream slot."@,
        "gauge"@,
    );
    let active_lines = samples_text(active_name, active_samples(admission.profiles@));
    let queued_lines = samples_text(queued_name, queued_samples(admission.profiles@));
    let all = active + queued + active_head + active_lines + queued_head + queued_lines;
    let none = Seq::<char>::empty();
    metrics_have_their_line(
        "llm_guard_proxy_generation_active"@,
        "Current generation requests holding an admitted upstream slot."@,
        "gauge"@,
        admission.generation.active as u64,
    );
    metrics_have_their_line(
        "llm_guard_proxy_generation_queued"@,
        "Current generation requests waiting for an upstream slot."@,
        "gauge"@,
        admission.generation.queued as u64,
    );
    samples_have_their_line(active_name, active_samples(admission.profiles@), at);
    samples_have_their_line(queued_name, queued_samples(admission.profiles@), at);
    assert(all =~= none + active + (queued + active_head + active_lines + queued_head
        + queued_lines));
    parts_stay_in_longer_texts(
        none,
        active,
        queued + active_head + active_lines + queued_head + queued_lines,
        "llm_guard_proxy_generation_active"@ + " "@ + decimal(
            admission.generation.active as u64 as nat,
        ) + "\n"@,
    );
    assert(all =~= active + queued + (active_head + active_lines + queued_head + queued_lines));
    parts_stay_in_longer_texts(
        active,
        queued,
        active_head + active_lines + queued_head + queued_lines,
        "llm_guard_proxy_generation_queued"@ + " "@ + decimal(
            admission.generation.queued as u64 as nat,
        ) + "\n"@,
    );
    assert(all =~= (active + queued + active_head) + active_lines + (queued_head + queued_lines));
    parts_stay_in_longer_texts(
        active + queued + active_head,
        active_lines,
        queued_head + queued_lines,
        line_text(
            active_name,
            seq![("profile"@, admission.profiles@[at].profile@)],
            admission.profiles@[at].counts.active as u64,
        ),
    );
    assert(all =~= (active + queued + active_head + active_lines + queued_head) + queued_lines
        + none);
    parts_stay_in_longer_texts(
        active + queued + active_head + active_lines + queued_head,
        queued_lines,
        none,
        line_text(
            queued_name,
            seq![("profile"@, admission.profiles@[at].profile@)],
            admission.profiles@[at].counts.queued as u64,
        ),
    );
}

/// Everything that is measured is rendered: what a section of the metrics says, all of
/// them together say.
pub proof fn all_metrics_are_rendered(
    snapshot: ObservabilityMetricsSnapshot,
    admission: AdmissionMetricsSnapshot,
    malformed_responses: u64,
    persistence_dropped: u64,
    upstream_failures: UpstreamFailureSnapshot,
    watchdog: WatchdogMetricsSnapshot,
    part: Seq<char>,
)
    requires
        ({
            ||| crate::text::has_part(admission_metrics(admission), part)
            ||| crate::text::has_part(watchdog_metrics(watchdog), part)
            ||| crate::text::has_part(request_metrics(snapshot), part)
            ||| crate::text::has_part(request_terminal_metrics(snapshot), part)
            ||| crate::text::has_part(attempt_metrics(snapshot), part)
            ||| crate::text::has_part(retry_and_error_metrics(snapshot), part)
            ||| crate::text::has_part(malformed_response_metrics(malformed_responses), part)
            ||| crate::text::has_part(persistence_drop_metrics(persistence_dropped), part)
            ||| crate::text::has_part(upstream_failure_metrics(upstream_failures), part)
            ||| crate::text::has_part(latency_metrics(snapshot), part)
            ||| crate::text::has_part(heartbeat_metrics(snapshot), part)
            ||| crate::text::has_part(storage_metrics(snapshot), part)
        }),
    ensures
        crate::text::has_part(
            metrics_text(
                snapshot,
                admission,
                malformed_responses,
                persistence_dropped,
                upstream_failures,
                watchdog,
            ),
            part,
        ),
{
    let none = Seq::<char>::empty();
    let s0 = admission_metrics(admission);
    let s1 = watchdog_metrics(watchdog);
    let s2 = request_metrics(snapshot);
    let s3 = request_terminal_metrics(snapshot);
    let s4 = attempt_metrics(snapshot);
    let s5 = retry_and_error_metrics(snapshot);
    let s6 = malformed_response_metrics(malformed_responses);
    let s7 = persistence_drop_metrics(persistence_dropped);
    let s8 = upstream_failure_metrics(upstream_failures);
    let s9 = latency_metrics(snapshot);
    let s10 = heartbeat_metrics(snapshot);
    let s11 = storage_metrics(snapshot);
    let t0 = s0;
    let t1 = t0 + s1;
    let t2 = t1 + s2;
    let t3 = t2 + s3;
    let t4 = t3 + s4;
    let t5 = t4 + s5;
    let t6 = t5 + s6;
    let t7 = t6 + s7;
    let t8 = t7 + s8;
    let t9 = t8 + s9;
    let t10 = t9 + s10;
    let t11 = t10 + s11;
    assert(t11 == metrics_text(
        snapshot,
        admission,
        malformed_responses,
        persistence_dropped,
        upstream_failures,
        watchdog,
    ));
    if crate::text::has_part(t0, part) {
        parts_stay_in_longer_texts(none, t0, s1, part);
        assert(none + t0 + s1 =~= t1);
    }
    if crate::text::has_part(s1, part) {
        parts_stay_in_longer_texts(t0, s1, none, part);
        assert(t0 + s1 + none =~= t1);
    }
    if crate::text::has_part(t1, part) {
        parts_stay_in_longer_texts(none, t1, s2, part);
        assert(none + t1 + s2 =~= t2);
    }
    if crate::text::has_part(s2, part) {
        parts_stay_in_longer_texts(t1, s2, none, part);
        assert(t1 + s2 + none =~= t2);
    }
    if crate::text::has_part(t2, part) {
        parts_stay_in_longer_texts(none, t2, s3, part);
        assert(none + t2 + s3 =~= t3);
    }
    if crate::text::has_part(s3, part) {
        parts_stay_in_longer_texts(t2, s3, none, part);
        assert(t2 + s3 + none =~= t3);
    }
    if crate::text::has_part(t3, part) {
        parts_stay_in_longer_texts(none, t3, s4, part);
        assert(none + t3 + s4 =~= t4);
    }
    if crate::text::has_part(s4, part) {
        parts_stay_in_longer_texts(t3, s4, none, part);
        assert(t3 + s4 + none =~= t4);
    }
    if crate::text::has_part(t4, part) {
        parts_stay_in_longer_texts(none, t4, s5, part);
        assert(none + t4 + s5 =~= t5);
    }
    if crate::text::has_part(s5, part) {
        parts_stay_in_longer_texts(t4, s5, none, part);
        assert(t4 + s5 + none =~= t5);
    }
    if crate::text::has_part(t5, part) {
        parts_stay_in_longer_texts(none, t5, s6, part);
        assert(none + t5 + s6 =~= t6);
    }
    if crate::text::has_part(s6, part) {
        parts_stay_in_longer_texts(t5, s6, none, part);
        assert(t5 + s6 + none =~= t6);
    }
    if crate::text::has_part(t6, part) {
        parts_stay_in_longer_texts(none, t6, s7, part);
        assert(none + t6 + s7 =~= t7);
    }
    if crate::text::has_part(s7, part) {
        parts_stay_in_longer_texts(t6, s7, none, part);
        assert(t6 + s7 + none =~= t7);
    }
    if crate::text::has_part(t7, part) {
        parts_stay_in_longer_texts(none, t7, s8, part);
        assert(none + t7 + s8 =~= t8);
    }
    if crate::text::has_part(s8, part) {
        parts_stay_in_longer_texts(t7, s8, none, part);
        assert(t7 + s8 + none =~= t8);
    }
    if crate::text::has_part(t8, part) {
        parts_stay_in_longer_texts(none, t8, s9, part);
        assert(none + t8 + s9 =~= t9);
    }
    if crate::text::has_part(s9, part) {
        parts_stay_in_longer_texts(t8, s9, none, part);
        assert(t8 + s9 + none =~= t9);
    }
    if crate::text::has_part(t9, part) {
        parts_stay_in_longer_texts(none, t9, s10, part);
        assert(none + t9 + s10 =~= t10);
    }
    if crate::text::has_part(s10, part) {
        parts_stay_in_longer_texts(t9, s10, none, part);
        assert(t9 + s10 + none =~= t10);
    }
    if crate::text::has_part(t10, part) {
        parts_stay_in_longer_texts(none, t10, s11, part);
        assert(none + t10 + s11 =~= t11);
    }
    if crate::text::has_part(s11, part) {
        parts_stay_in_longer_texts(t10, s11, none, part);
        assert(t10 + s11 + none =~= t11);
    }
}

/// The samples of the profiles have one each, with its numbers, in their order.
pub proof fn profiles_have_their_samples(
    profiles: Seq<ProfileAdmissionMetrics>,
    buckets: Seq<(u64, u64)>,
    i: int,
    j: int,
)
    ensures
        active_samples(profiles).len() == profiles.len(),
        queued_samples(profiles).len() == profiles.len(),
        0 <= i < profiles.len() ==> {
            &&& active_samples(profiles)[i].1 == profiles[i].counts.active
            &&& queued_samples(profiles)[i].1 == profiles[i].counts.queued
            &&& active_samples(profiles)[i].0 == seq![("profile"@, profiles[i].profile@)]
            &&& queued_samples(profiles)[i].0 == seq![("profile"@, profiles[i].profile@)]
        },
        in_order(profiles) && 0 <= i < j < profiles.len() && profiles[i].profile@
            != profiles[j].profile@ ==> comes_before(profiles[i].profile@, profiles[j].profile@),
        bucket_samples(buckets).len() == buckets.len(),
        0 <= i < buckets.len() ==> {
            &&& bucket_samples(buckets)[i].0 == seq![("le"@, decimal(buckets[i].0 as nat))]
            &&& bucket_samples(buckets)[i].1 == buckets[i].1
        },
{
    if in_order(profiles) && 0 <= i < j < profiles.len() {
        let (a, b) = (profiles[i].profile@, profiles[j].profile@);
        assert(!comes_before(b, a));
        crate::deepinfra_rerank::texts_have_one_order(a, b, Seq::empty(), 'a', 'b');
    }
}

/// A metric is described by its help and its type, each on a line under its name.
pub proof fn metrics_are_described(
    name: Seq<char>,
    help: Seq<char>,
    metric_type: Seq<char>,
)
    ensures
        ({
            let told = header_text(name, help, metric_type);
            &&& crate::text::has_part(told, "# HELP "@ + name)
            &&& crate::text::has_part(told, " "@ + help)
            &&& crate::text::has_part(told, "\n"@ + "# TYPE "@)
            &&& crate::text::has_part(told, name)
            &&& crate::text::has_part(told, " "@ + metric_type)
            &&& crate::text::has_part(told, "\n"@)
        }),
{
    let t0 = "# HELP "@ + name;
    crate::text::parts_are_found_at_the_end(Seq::<char>::empty(), "# HELP "@, name);
    assert(Seq::<char>::empty() + "# HELP "@ + name =~= t0);
    let t1 = t0 + " "@ + help;
    crate::text::parts_are_found_at_the_end(t0, " "@, help);
    crate::text::parts_are_found_in_more(t0, "# HELP "@ + name, " "@);
    crate::text::parts_are_found_in_more(t0 + " "@, "# HELP "@ + name, help);
    let t2 = t1 + "\n"@ + "# TYPE "@;
    crate::text::parts_are_found_at_the_end(t1, "\n"@, "# TYPE "@);
    crate::text::parts_are_found_in_more(t1, "# HELP "@ + name, "\n"@);
    crate::text::parts_are_found_in_more(t1 + "\n"@, "# HELP "@ + name, "# TYPE "@);
    crate::text::parts_are_found_in_more(t1, " "@ + help, "\n"@);
    crate::text::parts_are_found_in_more(t1 + "\n"@, " "@ + help, "# TYPE "@);
    let t3 = t2 + name;
    crate::text::parts_are_found_at_the_end(t2, Seq::<char>::empty(), name);
    assert(Seq::<char>::empty() + name =~= name);
    crate::text::parts_are_found_in_more(t2, "# HELP "@ + name, name);
    crate::text::parts_are_found_in_more(t2, " "@ + help, name);
    crate::text::parts_are_found_in_more(t2, "\n"@ + "# TYPE "@, name);
    let t4 = t3 + " "@ + metric_type;
    crate::text::parts_are_found_at_the_end(t3, " "@, metric_type);
    crate::text::parts_are_found_in_more(t3, "# HELP "@ + name, " "@);
    crate::text::parts_are_found_in_more(t3 + " "@, "# HELP "@ + name, metric_type);
    crate::text::parts_are_found_in_more(t3, " "@ + help, " "@);
    crate::text::parts_are_found_in_more(t3 + " "@, " "@ + help, metric_type);
    crate::text::parts_are_found_in_more(t3, "\n"@ + "# TYPE "@, " "@);
    crate::text::parts_are_found_in_more(t3 + " "@, "\n"@ + "# TYPE "@, metric_type);
    crate::text::parts_are_found_in_more(t3, name, " "@);
    crate::text::parts_are_found_in_more(t3 + " "@, name, metric_type);
    let t5 = t4 + "\n"@;
    crate::text::parts_are_found_at_the_end(t4, Seq::<char>::empty(), "\n"@);
    assert(Seq::<char>::empty() + "\n"@ =~= "\n"@);
    crate::text::parts_are_found_in_more(t4, "# HELP "@ + name, "\n"@);
    crate::text::parts_are_found_in_more(t4, " "@ + help, "\n"@);
    crate::text::parts_are_found_in_more(t4, "\n"@ + "# TYPE "@, "\n"@);
    crate::text::parts_are_found_in_more(t4, name, "\n"@);
    crate::text::parts_are_found_in_more(t4, " "@ + metric_type, "\n"@);
}

/// What was counted of broken answers, lost records, retries and loops is told under its
/// name.
pub proof fn counts_are_told_under_their_names(
    snapshot: ObservabilityMetricsSnapshot,
    malformed: u64,
    dropped: u64,
)
    ensures
        crate::text::has_part(
            malformed_response_metrics(malformed),
            line_text(
                "llm_guard_proxy_malformed_response_total"@,
                seq![("kind"@, "missing_choices"@)],
                malformed,
            ),
        ),
        crate::text::has_part(
            persistence_drop_metrics(dropped),
            "llm_guard_proxy_persistence_dropped_total"@ + " "@ + decimal(dropped as nat) + "\n"@,
        ),
        crate::text::has_part(
            retry_and_error_metrics(snapshot),
            "llm_guard_proxy_current_retained_retries"@ + " "@ + decimal(
                snapshot.retry_count as nat,
            ) + "\n"@,
        ),
        crate::text::has_part(
            retry_and_error_metrics(snapshot),
            "llm_guard_proxy_current_retained_loop_aborts"@ + " "@ + decimal(
                snapshot.loop_abort_count as nat,
            ) + "\n"@,
        ),
{
    let name = "llm_guard_proxy_malformed_response_total"@;
    let line = line_text(name, seq![("kind"@, "missing_choices"@)], malformed);
    line_is_found(
        header_text(
            name,
            "Non-stream chat completion responses converted to 502 due to a missing or invalid choices field."@,
            "counter"@,
        ),
        line,
    );
    metrics_have_their_line(
        "llm_guard_proxy_persistence_dropped_total"@,
        "Observability/evidence persistence closures dropped because the bounded backlog was full."@,
        "counter"@,
        dropped,
    );
    let retries = plain_metric(
        "llm_guard_proxy_current_retained_retries"@,
        "Currently retained attempts retried or marked with retry reasons."@,
        "gauge"@,
        snapshot.retry_count,
    );
    let aborts = plain_metric(
        "llm_guard_proxy_current_retained_loop_aborts"@,
        "Currently retained loop-guard abort observations."@,
        "gauge"@,
        snapshot.loop_abort_count,
    );
    let rest = rows_metric(
        "llm_guard_proxy_current_retained_upstream_errors"@,
        "Currently retained upstream error observations by bounded error bucket."@,
        snapshot.upstream_error_counts@,
    );
    let retry_line = "llm_guard_proxy_current_retained_retries"@ + " "@ + decimal(
        snapshot.retry_count as nat,
    ) + "\n"@;
    let abort_line = "llm_guard_proxy_current_retained_loop_aborts"@ + " "@ + decimal(
        snapshot.loop_abort_count as nat,
    ) + "\n"@;
    metrics_have_their_line(
        "llm_guard_proxy_current_retained_retries"@,
        "Currently retained attempts retried or marked with retry reasons."@,
        "gauge"@,
        snapshot.retry_count,
    );
    metrics_have_their_line(
        "llm_guard_proxy_current_retained_loop_aborts"@,
        "Currently retained loop-guard abort observations."@,
        "gauge"@,
        snapshot.loop_abort_count,
    );
    crate::text::parts_are_found_in_more(retries, retry_line, aborts);
    crate::text::parts_are_found_in_more(retries + aborts, retry_line, rest);
    parts_are_found_behind(retries, aborts, abort_line);
    crate::text::parts_are_found_in_more(retries + aborts, abort_line, rest);
}

proof fn parts_are_found_behind(before: Seq<char>, text: Seq<char>, part: Seq<char>)
    ensures
        crate::text::has_part(text, part) ==> crate::text::has_part(before + text, part),
{
    if crate::text::has_part(text, part) {
        let at = choose|at: int| crate::text::occurs_at(text, part, at);
        let whole = before + text;
        let there = before.len() + at;
        assert(whole.subrange(there, there + part.len()) =~= text.subrange(at, at + part.len()));
        assert(crate::text::occurs_at(whole, part, there));
    }
}

/// Each row of the requests, and of the modes of the heartbeat, has its line.
pub proof fn rows_have_their_line(snapshot: ObservabilityMetricsSnapshot, at: int)
    ensures
        0 <= at < snapshot.request_counts@.len() ==> crate::text::has_part(
            request_metrics(snapshot),
            line_text(
                "llm_guard_proxy_current_retained_requests"@,
                snapshot.request_counts@[at].sample().0,
                snapshot.request_counts@[at].sample().1,
            ),
        ),
        0 <= at < snapshot.heartbeat_mode_counts@.len() ==> crate::text::has_part(
            heartbeat_metrics(snapshot),
            line_text(
                "llm_guard_proxy_current_retained_heartbeat_modes"@,
                snapshot.heartbeat_mode_counts@[at].sample().0,
                snapshot.heartbeat_mode_counts@[at].sample().1,
            ),
        ),
        0 <= at < snapshot.upstream_error_counts@.len() ==> crate::text::has_part(
            retry_and_error_metrics(snapshot),
            line_text(
                "llm_guard_proxy_current_retained_upstream_errors"@,
                snapshot.upstream_error_counts@[at].sample().0,
                snapshot.upstream_error_counts@[at].sample().1,
            ),
        ),
{
    row_has_its_line(
        "llm_guard_proxy_current_retained_requests"@,
        "Currently retained proxy request rows by bounded lifecycle labels."@,
        snapshot.request_counts@,
        at,
    );
    row_has_its_line(
        "llm_guard_proxy_current_retained_heartbeat_modes"@,
        "Currently retained downstream heartbeat/liveness mode counts."@,
        snapshot.heartbeat_mode_counts@,
        at,
    );
    row_has_its_line(
        "llm_guard_proxy_current_retained_upstream_errors"@,
        "Currently retained upstream error observations by bounded error bucket."@,
        snapshot.upstream_error_counts@,
        at,
    );
    if 0 <= at < snapshot.upstream_error_counts@.len() {
        parts_are_found_behind(
            plain_metric(
                "llm_guard_proxy_current_retained_retries"@,
                "Currently retained attempts retried or marked with retry reasons."@,
                "gauge"@,
                snapshot.retry_count,
            ) + plain_metric(
                "llm_guard_proxy_current_retained_loop_aborts"@,
                "Currently retained loop-guard abort observations."@,
                "gauge"@,
                snapshot.loop_abort_count,
            ),
            rows_metric(
                "llm_guard_proxy_current_retained_upstream_errors"@,
                "Currently retained upstream error observations by bounded error bucket."@,
                snapshot.upstream_error_counts@,
            ),
            line_text(
                "llm_guard_proxy_current_retained_upstream_errors"@,
                snapshot.upstream_error_counts@[at].sample().0,
                snapshot.upstream_error_counts@[at].sample().1,
            ),
        );
    }
}

proof fn row_has_its_line<R: MetricRow>(name: Seq<char>, help: Seq<char>, rows: Seq<R>, at: int)
    ensures
        0 <= at < rows.len() ==> crate::text::has_part(
            rows_metric(name, help, rows),
            line_text(name, rows[at].sample().0, rows[at].sample().1),
        ),
{
    if 0 <= at < rows.len() {
        samples_have_their_line(name, row_samples(rows), at);
        parts_are_found_behind(
            header_text(name, help, "gauge"@),
            samples_text(name, row_samples(rows)),
            line_text(name, rows[at].sample().0, rows[at].sample().1),
        );
    }
}

/// A histogram has a line for each of its buckets, one for all, and its count and its
/// sum.
pub proof fn histograms_have_their_lines(
    name: Seq<char>,
    help: Seq<char>,
    histogram: LatencyHistogram,
    at: int,
)
    ensures
        0 <= at < histogram.buckets@.len() ==> crate::text::has_part(
            histogram_metrics(name, help, histogram),
            line_text(
                name + "_le"@,
                seq![("le"@, decimal(histogram.buckets@[at].0 as nat))],
                histogram.buckets@[at].1,
            ),
        ),
        crate::text::has_part(
            histogram_metrics(name, help, histogram),
            line_text(name + "_le"@, seq![("le"@, "+Inf"@)], histogram.count),
        ),
        crate::text::has_part(
            histogram_metrics(name, help, histogram),
            name + "_observations"@ + " "@ + decimal(histogram.count as nat) + "\n"@,
        ),
        crate::text::has_part(
            histogram_metrics(name, help, histogram),
            name + "_sum_ms"@ + " "@ + decimal(histogram.sum_ms as nat) + "\n"@,
        ),
{
    let le = name + "_le"@;
    let s0 = header_text(
        le,
        "Currently retained "@ + help + " observations less than or equal to the bound."@,
        "gauge"@,
    );
    let s1 = samples_text(le, bucket_samples(histogram.buckets@));
    let s2 = line_text(le, seq![("le"@, "+Inf"@)], histogram.count);
    let s3 = plain_metric(
        name + "_observations"@,
        "Currently retained "@ + help + " observation count."@,
        "gauge"@,
        histogram.count,
    );
    let s4 = plain_metric(
        name + "_sum_ms"@,
        "Currently retained "@ + help + " sum."@,
        "gauge"@,
        histogram.sum_ms,
    );
    lines_are_found(s0, s1, s2, s3, s4, Seq::empty());
    let all = s0 + s1 + s2 + s3 + s4;
    assert(all + Seq::<char>::empty() =~= all);
    if 0 <= at < histogram.buckets@.len() {
        samples_have_their_line(le, bucket_samples(histogram.buckets@), at);
        parts_are_in_the_whole(
            all,
            s1,
            line_text(
                le,
                seq![("le"@, decimal(histogram.buckets@[at].0 as nat))],
                histogram.buckets@[at].1,
            ),
        );
    }
    metrics_have_their_line(
        name + "_observations"@,
        "Currently retained "@ + help + " observation count."@,
        "gauge"@,
        histogram.count,
    );
    parts_are_in_the_whole(
        all,
        s3,
        name + "_observations"@ + " "@ + decimal(histogram.count as nat) + "\n"@,
    );
    metrics_have_their_line(
        name + "_sum_ms"@,
        "Currently retained "@ + help + " sum."@,
        "gauge"@,
        histogram.sum_ms,
    );
    parts_are_in_the_whole(
        all,
        s4,
        name + "_sum_ms"@ + " "@ + decimal(histogram.sum_ms as nat) + "\n"@,
    );
}

proof fn parts_are_in_the_whole(whole: Seq<char>, text: Seq<char>, part: Seq<char>)
    requires
        crate::text::has_part(whole, text),
        crate::text::has_part(text, part),
    ensures
        crate::text::has_part(whole, part),
{
    let at = choose|at: int| crate::text::occurs_at(whole, text, at);
    let within = choose|at: int| crate::text::occurs_at(text, part, at);
    assert(whole.subrange(at, at + text.len()) == text);
    assert(whole.subrange(at + within, at + within + part.len()) =~= whole.subrange(
        at,
        at + text.len(),
    ).subrange(within, within + part.len()));
    assert(crate::text::occurs_at(whole, part, at + within));
}

/// Both latencies are told, each with its own numbers.
pub proof fn latencies_are_told(snapshot: ObservabilityMetricsSnapshot)
    ensures
        crate::text::has_part(
            latency_metrics(snapshot),
            "llm_guard_proxy_current_retained_first_token_latency_ms"@ + "_sum_ms"@ + " "@
                + decimal(snapshot.first_token_latency_ms.sum_ms as nat) + "\n"@,
        ),
        crate::text::has_part(
            latency_metrics(snapshot),
            "llm_guard_proxy_current_retained_total_latency_ms"@ + "_sum_ms"@ + " "@ + decimal(
                snapshot.total_latency_ms.sum_ms as nat,
            ) + "\n"@,
        ),
{
    let first = "llm_guard_proxy_current_retained_first_token_latency_ms"@;
    let second = "llm_guard_proxy_current_retained_total_latency_ms"@;
    let a = histogram_metrics(
        first,
        "first-token latency in milliseconds for shielded attempts"@,
        snapshot.first_token_latency_ms,
    );
    let b = histogram_metrics(
        second,
        "end-to-end request latency in milliseconds"@,
        snapshot.total_latency_ms,
    );
    histograms_have_their_lines(
        first,
        "first-token latency in milliseconds for shielded attempts"@,
        snapshot.first_token_latency_ms,
        0,
    );
    histograms_have_their_lines(
        second,
        "end-to-end request latency in milliseconds"@,
        snapshot.total_latency_ms,
        0,
    );
    crate::text::parts_are_found_in_more(
        a,
        first + "_sum_ms"@ + " "@ + decimal(snapshot.first_token_latency_ms.sum_ms as nat) + "\n"@,
        b,
    );
    parts_are_found_behind(
        a,
        b,
        second + "_sum_ms"@ + " "@ + decimal(snapshot.total_latency_ms.sum_ms as nat) + "\n"@,
    );
}

} // verus!
