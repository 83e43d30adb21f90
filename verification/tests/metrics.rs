use azure_eventhub_vector_pipeline::metrics::{
    report_line, MetricField, MetricReading, MetricType, MetricValue, MetricsCollector,
};

#[test]
fn test_metrics_collection() {
    let mut collector = MetricsCollector::new();
    collector.increment(MetricType::MessagesProcessed, 1);
    collector.record_value(MetricType::ProcessingLatency, 100);

    let metric = collector.metric(MetricType::MessagesProcessed);
    assert_eq!(metric.count(), 1);
}

#[test]
fn metric_value_starts_at_zero() {
    let m = MetricValue::new();
    assert_eq!((m.count(), m.sum(), m.max()), (0, 0, 0));
}

#[test]
fn record_value_tracks_sum_count_and_max() {
    let mut c = MetricsCollector::new();
    c.record_value(MetricType::BatchSize, 10);
    c.record_value(MetricType::BatchSize, 40);
    c.record_value(MetricType::BatchSize, 25);
    let m = c.metric(MetricType::BatchSize);
    assert_eq!(m.count(), 3);
    assert_eq!(m.sum(), 75);
    assert_eq!(m.max(), 40);
    // other metrics are untouched
    assert_eq!(c.metric(MetricType::ProcessingLatency).count(), 0);
}

#[test]
fn max_stays_at_zero_for_negative_values() {
    let mut c = MetricsCollector::new();
    c.record_value(MetricType::ProcessingLatency, -5);
    assert_eq!(c.metric(MetricType::ProcessingLatency).max(), 0);
    assert_eq!(c.metric(MetricType::ProcessingLatency).sum(), -5);
}

#[test]
fn increment_adds_to_counter_and_wraps() {
    let mut c = MetricsCollector::new();
    c.increment(MetricType::ErrorCount, u64::MAX);
    c.increment(MetricType::ErrorCount, 2);
    assert_eq!(c.metric(MetricType::ErrorCount).count(), 1);
    c.increment(MetricType::BackpressureCount, 7);
    assert_eq!(c.metric(MetricType::BackpressureCount).count(), 7);
}

#[test]
fn record_wraps_sum() {
    let mut c = MetricsCollector::new();
    c.record_value(MetricType::BatchSize, i64::MAX);
    c.record_value(MetricType::BatchSize, 1);
    assert_eq!(c.metric(MetricType::BatchSize).sum(), i64::MIN);
    assert_eq!(c.metric(MetricType::BatchSize).max(), i64::MAX);
}

fn entries(c: &MetricsCollector, uptime: u64) -> Vec<(String, MetricReading)> {
    c.report(uptime).into_iter().map(|f| (f.name, f.reading)).collect()
}

#[test]
fn report_without_recorded_values() {
    let mut c = MetricsCollector::new();
    c.increment(MetricType::MessagesProcessed, 120);
    c.increment(MetricType::ErrorCount, 2);
    let e = entries(&c, 60);
    assert_eq!(
        e,
        vec![
            ("messages_processed".to_string(), MetricReading::Count(120)),
            ("messages_per_second".to_string(), MetricReading::Count(2)),
            ("error_count".to_string(), MetricReading::Count(2)),
            ("backpressure_count".to_string(), MetricReading::Count(0)),
        ]
    );
}

#[test]
fn report_rate_is_zero_without_uptime() {
    let mut c = MetricsCollector::new();
    c.increment(MetricType::MessagesProcessed, 5);
    let e = entries(&c, 0);
    assert_eq!(e[1], ("messages_per_second".to_string(), MetricReading::Count(0)));
}

#[test]
fn report_with_latency_and_batch_size() {
    let mut c = MetricsCollector::new();
    c.record_value(MetricType::ProcessingLatency, 100);
    c.record_value(MetricType::ProcessingLatency, 50);
    c.record_value(MetricType::BatchSize, 1000);
    let e = entries(&c, 7);
    assert_eq!(
        e,
        vec![
            ("messages_processed".to_string(), MetricReading::Count(0)),
            ("messages_per_second".to_string(), MetricReading::Count(0)),
            ("avg_latency_ms".to_string(), MetricReading::Average { sum: 150, count: 2 }),
            ("max_latency_ms".to_string(), MetricReading::Max(100)),
            ("error_count".to_string(), MetricReading::Count(0)),
            ("backpressure_count".to_string(), MetricReading::Count(0)),
            ("avg_batch_size".to_string(), MetricReading::Average { sum: 1000, count: 1 }),
            ("max_batch_size".to_string(), MetricReading::Max(1000)),
        ]
    );
}

#[test]
fn recording_order_does_not_matter() {
    let mut a = MetricsCollector::new();
    let mut b = MetricsCollector::new();
    a.record_value(MetricType::ProcessingLatency, 30);
    a.record_value(MetricType::ProcessingLatency, -7);
    b.record_value(MetricType::ProcessingLatency, -7);
    b.record_value(MetricType::ProcessingLatency, 30);
    let (ma, mb) = (a.metric(MetricType::ProcessingLatency), b.metric(MetricType::ProcessingLatency));
    assert_eq!((ma.count(), ma.sum(), ma.max()), (mb.count(), mb.sum(), mb.max()));
}

#[test]
fn many_values_any_order() {
    let values = [12i64, -3, 40, 7, 40, 0, 25];
    let mut forward = MetricsCollector::new();
    let mut backward = MetricsCollector::new();
    for v in values.iter() {
        forward.record_value(MetricType::BatchSize, *v);
    }
    for v in values.iter().rev() {
        backward.record_value(MetricType::BatchSize, *v);
    }
    let (f, b) = (forward.metric(MetricType::BatchSize), backward.metric(MetricType::BatchSize));
    assert_eq!((f.count(), f.sum(), f.max()), (7, 121, 40));
    assert_eq!((b.count(), b.sum(), b.max()), (7, 121, 40));
}

#[test]
fn integer_entries_render_as_name_value() {
    let mut c = MetricsCollector::new();
    c.increment(MetricType::MessagesProcessed, 120);
    c.record_value(MetricType::ProcessingLatency, -42);
    c.record_value(MetricType::ProcessingLatency, -7);
    let fields = c.report(60);
    let rendered: Vec<Option<String>> = fields.iter().map(|f| f.render_integer()).collect();
    assert_eq!(rendered[0], Some("messages_processed=120".to_string()));
    assert_eq!(rendered[1], Some("messages_per_second=2".to_string()));
    assert_eq!(rendered[2], None); // the latency average is rendered by the caller
    assert_eq!(rendered[3], Some("max_latency_ms=0".to_string()));
    let m = MetricField { name: "max_latency_ms".to_string(), reading: MetricReading::Max(-9) };
    assert_eq!(m.render_integer(), Some("max_latency_ms=-9".to_string()));
    let m = MetricField { name: "x".to_string(), reading: MetricReading::Max(i64::MIN) };
    assert_eq!(m.render_integer(), Some(format!("x={}", i64::MIN)));
}

#[test]
fn report_line_joins_with_spaces() {
    assert_eq!(report_line(&vec![]), "METRICS ");
    assert_eq!(report_line(&vec!["a=1".to_string()]), "METRICS a=1");
    assert_eq!(
        report_line(&vec!["a=1".to_string(), "b=2.50".to_string(), "c=-3".to_string()]),
        "METRICS a=1 b=2.50 c=-3"
    );
}
