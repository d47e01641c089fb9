//! Building the metric data points that a run optionally submits.

use vstd::prelude::*;
use crate::classify::ActivityCounts;
use crate::config::RunConfig;

verus! {

/// One data point to submit to the metrics service: a metric name, the
/// count as its value, the reference instant, and the single dimension
/// `LogGroupName = <group>`. The unit of every point is a count; the
/// service takes the value as a floating-point number, a conversion made
/// at the submission boundary.
pub struct MetricDataPoint {
    pub name: String,
    pub value: u64,
    pub timestamp_ms: u64,
    pub dimension_name: String,
    pub dimension_value: String,
}

/// One batched submission: the namespace to publish under and the three
/// data points.
pub struct MetricBatch {
    pub namespace: String,
    pub points: Vec<MetricDataPoint>,
}

/// What every point of a built batch has in common: the reference instant
/// as its timestamp and the log group as its single dimension.
pub open spec fn point_is_for(p: MetricDataPoint, now_ms: u64, group: Seq<char>) -> bool {
    &&& p.timestamp_ms == now_ms
    &&& p.dimension_name@ == "LogGroupName"@
    &&& p.dimension_value@ == group
}

/// Builds the three data points of one run: one per window, with the fixed
/// per-window metric names, the counts as values, and the log group as the
/// shared dimension.
pub fn build_points(counts: &ActivityCounts, group: &String, now_ms: u64) -> (points: Vec<
    MetricDataPoint,
>)
    ensures
        points@.len() == 3,
        points@[0].name@ == "MonthlyActiveStreams"@,
        points@[0].value == counts.monthly,
        points@[1].name@ == "WeeklyActiveStreams"@,
        points@[1].value == counts.weekly,
        points@[2].name@ == "DailyActiveStreams"@,
        points@[2].value == counts.daily,
        forall|j: int| 0 <= j < 3 ==> point_is_for(#[trigger] points@[j], now_ms, group@),
{
    let mut points: Vec<MetricDataPoint> = Vec::new();
    points.push(MetricDataPoint {
        name: "MonthlyActiveStreams".to_owned(),
        value: counts.monthly as u64,
        timestamp_ms: now_ms,
        dimension_name: "LogGroupName".to_owned(),
        dimension_value: group.clone(),
    });
    points.push(MetricDataPoint {
        name: "WeeklyActiveStreams".to_owned(),
        value: counts.weekly as u64,
        timestamp_ms: now_ms,
        dimension_name: "LogGroupName".to_owned(),
        dimension_value: group.clone(),
    });
    points.push(MetricDataPoint {
        name: "DailyActiveStreams".to_owned(),
        value: counts.daily as u64,
        timestamp_ms: now_ms,
        dimension_name: "LogGroupName".to_owned(),
        dimension_value: group.clone(),
    });
    points
}

/// Decides whether this run submits metrics, and with what. The result is
/// a batch exactly when a namespace was supplied; with the namespace flag
/// absent nothing is submitted under any input. An empty stream list still
/// yields a batch of three zero-valued points when a namespace is present.
pub fn plan_emission(config: &RunConfig, counts: &ActivityCounts, now_ms: u64) -> (r: Option<
    MetricBatch,
>)
    ensures
        (r is Some) <==> (config.namespace is Some),
        r is Some ==> {
            let batch = r->0;
            &&& batch.namespace@ == config.namespace->0@
            &&& batch.points@.len() == 3
            &&& batch.points@[0].name@ == "MonthlyActiveStreams"@
            &&& batch.points@[0].value == counts.monthly
            &&& batch.points@[1].name@ == "WeeklyActiveStreams"@
            &&& batch.points@[1].value == counts.weekly
            &&& batch.points@[2].name@ == "DailyActiveStreams"@
            &&& batch.points@[2].value == counts.daily
            &&& forall|j: int|
                0 <= j < 3 ==> point_is_for(#[trigger] batch.points@[j], now_ms, config.group@)
        },
{
    match &config.namespace {
        Some(namespace) => Some(
            MetricBatch {
                namespace: namespace.clone(),
                points: build_points(counts, &config.group, now_ms),
            },
        ),
        None => None,
    }
}

} // verus!
