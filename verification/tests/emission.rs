use stream_activity::classify::ActivityCounts;
use stream_activity::config::RunConfig;
use stream_activity::metrics::{build_points, plan_emission};

const REFERENCE_MS: u64 = 1706659200000;

fn config(namespace: Option<String>) -> RunConfig {
    RunConfig {
        region: None,
        group: "my-log-group".to_owned(),
        verbose: false,
        profile_name: None,
        namespace,
    }
}

#[test]
fn build_points_fixed_names_and_values() {
    let counts = ActivityCounts { monthly: 12, weekly: 5, daily: 1 };
    let group = "my-log-group".to_owned();
    let points = build_points(&counts, &group, REFERENCE_MS);
    assert_eq!(points.len(), 3);
    assert_eq!(points[0].name, "MonthlyActiveStreams");
    assert_eq!(points[0].value, 12);
    assert_eq!(points[1].name, "WeeklyActiveStreams");
    assert_eq!(points[1].value, 5);
    assert_eq!(points[2].name, "DailyActiveStreams");
    assert_eq!(points[2].value, 1);
    for point in &points {
        assert_eq!(point.timestamp_ms, REFERENCE_MS);
        assert_eq!(point.dimension_name, "LogGroupName");
        assert_eq!(point.dimension_value, "my-log-group");
    }
}

#[test]
fn no_namespace_means_no_emission() {
    let cfg = config(None);
    assert!(!cfg.metrics_enabled());
    let counts = ActivityCounts { monthly: 3, weekly: 2, daily: 1 };
    assert!(plan_emission(&cfg, &counts, REFERENCE_MS).is_none());
}

#[test]
fn namespace_present_emits_even_zero_counts() {
    let cfg = config(Some("Custom/Streams".to_owned()));
    assert!(cfg.metrics_enabled());
    let counts = ActivityCounts { monthly: 0, weekly: 0, daily: 0 };
    let batch = plan_emission(&cfg, &counts, REFERENCE_MS).expect("a namespace enables emission");
    assert_eq!(batch.namespace, "Custom/Streams");
    assert_eq!(batch.points.len(), 3);
    for point in &batch.points {
        assert_eq!(point.value, 0);
        assert_eq!(point.dimension_value, "my-log-group");
    }
}

#[test]
fn planned_batch_carries_the_counts() {
    let cfg = config(Some("Custom/Streams".to_owned()));
    let counts = ActivityCounts { monthly: 7, weekly: 4, daily: 2 };
    let batch = plan_emission(&cfg, &counts, REFERENCE_MS).unwrap();
    assert_eq!(batch.points[0].value, 7);
    assert_eq!(batch.points[1].value, 4);
    assert_eq!(batch.points[2].value, 2);
}
