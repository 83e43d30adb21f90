//! Pipeline metrics: per-kind aggregates (count, sum, maximum) and the
//! periodic report drawn from them.

use vstd::prelude::*;
use crate::text::{decimal, push_decimal, push_signed_decimal, signed_decimal};

verus! {

/// The kinds of metrics the pipeline tracks.
#[derive(Debug, Clone, Copy, Hash, PartialEq, Eq, Structural)]
pub enum MetricType {
    MessagesProcessed,
    ProcessingLatency,
    ErrorCount,
    BackpressureCount,
    BatchSize,
}

/// The aggregates of one metric, as plain values.
pub struct MetricValueView {
    pub count: u64,
    pub sum: i64,
    pub max: i64,
}

/// `a + b` wrapped around the `u64` range, as an atomic add does.
pub open spec fn wrap_add_u64(a: u64, b: u64) -> u64 {
    vstd::wrapping::u64_specs::wrapping_add(a, b)
}

/// `a + b` wrapped around the `i64` range, as an atomic add does.
pub open spec fn wrap_add_i64(a: i64, b: i64) -> i64 {
    vstd::wrapping::i64_specs::wrapping_add(a, b)
}

/// The larger of `a` and `b`.
pub open spec fn larger(a: i64, b: i64) -> i64 {
    if b > a {
        b
    } else {
        a
    }
}

/// The aggregates after recording `value`.
pub open spec fn record_step(m: MetricValueView, value: i64) -> MetricValueView {
    MetricValueView {
        count: wrap_add_u64(m.count, 1),
        sum: wrap_add_i64(m.sum, value),
        max: larger(m.max, value),
    }
}

/// The aggregates after adding `value` to the counter.
pub open spec fn increment_step(m: MetricValueView, value: u64) -> MetricValueView {
    MetricValueView { count: wrap_add_u64(m.count, value), ..m }
}

/// The aggregates of one metric: how many values (or the counter), their sum
/// (for averages) and the largest value recorded (starting from 0).
#[derive(Debug)]
pub struct MetricValue {
    count: u64,
    sum: i64,
    max: i64,
}

impl View for MetricValue {
    type V = MetricValueView;

    closed spec fn view(&self) -> MetricValueView {
        MetricValueView { count: self.count, sum: self.sum, max: self.max }
    }
}

impl MetricValue {
    /// Aggregates with nothing recorded: all zero.
    pub fn new() -> (m: Self)
        ensures
            m@ == (MetricValueView { count: 0, sum: 0, max: 0 }),
    {
        MetricValue { count: 0, sum: 0, max: 0 }
    }

    /// The counter, or the number of recorded values.
    pub fn count(&self) -> (c: u64)
        ensures
            c == self@.count,
    {
        self.count
    }

    /// The sum of the recorded values.
    pub fn sum(&self) -> (s: i64)
        ensures
            s == self@.sum,
    {
        self.sum
    }

    /// The largest recorded value (0 when none was larger).
    pub fn max(&self) -> (m: i64)
        ensures
            m == self@.max,
    {
        self.max
    }

    /// Adds `value` to the counter (wrapping around, as the atomic add does).
    pub fn increment(&mut self, value: u64)
        ensures
            final(self)@ == increment_step(old(self)@, value),
    {
        self.count = self.count.wrapping_add(value);
    }

    /// Records one value: it is added to the sum, the count grows by one, and
    /// the maximum is raised to it when it is larger.
    pub fn record(&mut self, value: i64)
        ensures
            final(self)@ == record_step(old(self)@, value),
    {
        self.sum = self.sum.wrapping_add(value);
        self.count = self.count.wrapping_add(1);
        if value > self.max {
            self.max = value;
        }
    }
}

/// One reading of the metrics report.
#[derive(Debug, Clone, Copy, PartialEq, Eq, Structural)]
pub enum MetricReading {
    /// A counter or rate.
    Count(u64),
    /// A largest value.
    Max(i64),
    /// An average: `sum` over `count` values (`count` is never 0).
    Average { sum: i64, count: u64 },
}

/// One `name=value` entry of the metrics report.
#[derive(Debug)]
pub struct MetricField {
    pub name: String,
    pub reading: MetricReading,
}

impl View for MetricField {
    type V = (Seq<char>, MetricReading);

    open spec fn view(&self) -> (Seq<char>, MetricReading) {
        (self.name@, self.reading)
    }
}

/// The text of a reading, for counters, rates and maxima; an average is
/// rendered by the caller.
pub open spec fn reading_text(r: MetricReading) -> Option<Seq<char>> {
    match r {
        MetricReading::Count(n) => Some(decimal(n as nat)),
        MetricReading::Max(m) => Some(signed_decimal(m as int)),
        MetricReading::Average { .. } => None,
    }
}

/// The `name=value` text of an entry whose reading is not an average.
pub open spec fn entry_text(name: Seq<char>, r: MetricReading) -> Option<Seq<char>> {
    match reading_text(r) {
        Some(t) => Some(name + "="@ + t),
        None => None,
    }
}

/// The parts, separated by single spaces.
pub open spec fn joined(parts: Seq<Seq<char>>) -> Seq<char>
    decreases parts.len(),
{
    if parts.len() == 0 {
        Seq::empty()
    } else if parts.len() == 1 {
        parts[0]
    } else {
        joined(parts.drop_last()) + " "@ + parts.last()
    }
}

/// The metrics log line: `METRICS ` followed by the entries' texts, separated
/// by single spaces.
pub open spec fn report_line_text(parts: Seq<Seq<char>>) -> Seq<char> {
    "METRICS "@ + joined(parts)
}

impl MetricField {
    /// The `name=value` text of this entry, or `None` for an average, whose
    /// value the caller renders.
    pub fn render_integer(&self) -> (r: Option<String>)
        ensures
            match r {
                Some(t) => entry_text(self.name@, self.reading) == Some(t@),
                None => entry_text(self.name@, self.reading) is None,
            },
    {
        match self.reading {
            MetricReading::Count(n) => {
                let mut t = self.name.clone();
                t.append("=");
                push_decimal(&mut t, n);
                Some(t)
            },
            MetricReading::Max(m) => {
                let mut t = self.name.clone();
                t.append("=");
                push_signed_decimal(&mut t, m);
                Some(t)
            },
            MetricReading::Average { .. } => None,
        }
    }
}

/// The metrics log line for the rendered entries `parts`.
pub fn report_line(parts: &Vec<String>) -> (line: String)
    ensures
        line@ == report_line_text(parts@.map_values(|p: String| p@)),
{
    let ghost views = parts@.map_values(|p: String| p@);
    let mut line = String::from_str("METRICS ");
    let mut i: usize = 0;
    while i < parts.len()
        invariant
            views == parts@.map_values(|p: String| p@),
            i <= parts.len(),
            line@ == "METRICS "@ + joined(views.take(i as int)),
        decreases parts.len() - i,
    {
        proof {
            assert(views.take(i + 1).drop_last() =~= views.take(i as int));
            assert(views.take(i + 1).last() == parts@[i as int]@);
        }
        if i > 0 {
            line.append(" ");
        }
        line.append(parts[i].as_str());
        proof {
            if i == 0 {
                assert(views.take(1) =~= seq![parts@[0]@]);
                assert(joined(views.take(0)) =~= Seq::<char>::empty());
            }
        }
        i = i + 1;
        proof {
            assert(line@ =~= "METRICS "@ + joined(views.take(i as int)));
        }
    }
    proof {
        assert(views.take(parts.len() as int) =~= views);
    }
    line
}

/// The metrics collector's aggregates, as plain values.
pub struct MetricsCollectorView {
    pub messages_processed: MetricValueView,
    pub processing_latency: MetricValueView,
    pub error_count: MetricValueView,
    pub backpressure_count: MetricValueView,
    pub batch_size: MetricValueView,
}

impl MetricsCollectorView {
    /// The aggregates of metric `t`.
    pub open spec fn metric(self, t: MetricType) -> MetricValueView {
        match t {
            MetricType::MessagesProcessed => self.messages_processed,
            MetricType::ProcessingLatency => self.processing_latency,
            MetricType::ErrorCount => self.error_count,
            MetricType::BackpressureCount => self.backpressure_count,
            MetricType::BatchSize => self.batch_size,
        }
    }

    /// The same aggregates with metric `t` replaced by `v`.
    pub open spec fn with_metric(self, t: MetricType, v: MetricValueView) -> MetricsCollectorView {
        match t {
            MetricType::MessagesProcessed => MetricsCollectorView { messages_processed: v, ..self },
            MetricType::ProcessingLatency => MetricsCollectorView { processing_latency: v, ..self },
            MetricType::ErrorCount => MetricsCollectorView { error_count: v, ..self },
            MetricType::BackpressureCount => MetricsCollectorView { backpressure_count: v, ..self },
            MetricType::BatchSize => MetricsCollectorView { batch_size: v, ..self },
        }
    }
}

/// `count / uptime`, or 0 when no time has passed.
pub open spec fn per_second(count: u64, uptime_secs: u64) -> u64 {
    if uptime_secs == 0 {
        0
    } else {
        count / uptime_secs
    }
}

/// The average and maximum entries of a value metric, present only once a value
/// was recorded.
pub open spec fn stats_entries(m: MetricValueView, avg_name: Seq<char>, max_name: Seq<char>) -> Seq<(Seq<char>, MetricReading)> {
    if m.count > 0 {
        seq![
            (avg_name, MetricReading::Average { sum: m.sum, count: m.count }),
            (max_name, MetricReading::Max(m.max)),
        ]
    } else {
        Seq::empty()
    }
}

/// The report's entries, in order: messages processed and per second, latency
/// average and maximum (once recorded), errors, backpressure, batch size
/// average and maximum (once recorded).
pub open spec fn report_entries(c: MetricsCollectorView, uptime_secs: u64) -> Seq<(Seq<char>, MetricReading)> {
    seq![
        ("messages_processed"@, MetricReading::Count(c.messages_processed.count)),
        ("messages_per_second"@, MetricReading::Count(per_second(c.messages_processed.count, uptime_secs))),
    ]
        + stats_entries(c.processing_latency, "avg_latency_ms"@, "max_latency_ms"@)
        + seq![
        ("error_count"@, MetricReading::Count(c.error_count.count)),
        ("backpressure_count"@, MetricReading::Count(c.backpressure_count.count)),
    ]
        + stats_entries(c.batch_size, "avg_batch_size"@, "max_batch_size"@)
}

/// The aggregates of every metric kind.
#[derive(Debug)]
pub struct MetricsCollector {
    messages_processed: MetricValue,
    processing_latency: MetricValue,
    error_count: MetricValue,
    backpressure_count: MetricValue,
    batch_size: MetricValue,
}

impl View for MetricsCollector {
    type V = MetricsCollectorView;

    closed spec fn view(&self) -> MetricsCollectorView {
        MetricsCollectorView {
            messages_processed: self.messages_processed@,
            processing_latency: self.processing_latency@,
            error_count: self.error_count@,
            backpressure_count: self.backpressure_count@,
            batch_size: self.batch_size@,
        }
    }
}

fn push_entry(fields: &mut Vec<MetricField>, name: &str, reading: MetricReading)
    ensures
        final(fields)@.map_values(|f: MetricField| f@) == old(fields)@.map_values(|f: MetricField| f@).push(
            (name@, reading),
        ),
{
    let ghost before = fields@;
    fields.push(MetricField { name: name.to_owned(), reading });
    proof {
        assert(fields@.map_values(|f: MetricField| f@) =~= before.map_values(|f: MetricField| f@).push(
            (name@, reading),
        ));
    }
}

fn push_stats(fields: &mut Vec<MetricField>, m: &MetricValue, avg_name: &str, max_name: &str)
    ensures
        final(fields)@.map_values(|f: MetricField| f@) == old(fields)@.map_values(|f: MetricField| f@)
            + stats_entries(m@, avg_name@, max_name@),
{
    let ghost before = fields@.map_values(|f: MetricField| f@);
    if m.count() > 0 {
        push_entry(fields, avg_name, MetricReading::Average { sum: m.sum(), count: m.count() });
        push_entry(fields, max_name, MetricReading::Max(m.max()));
        proof {
            assert(fields@.map_values(|f: MetricField| f@) =~= before + stats_entries(m@, avg_name@, max_name@));
        }
    } else {
        proof {
            assert(fields@.map_values(|f: MetricField| f@) =~= before + stats_entries(m@, avg_name@, max_name@));
        }
    }
}

impl Default for MetricsCollector {
    fn default() -> (c: Self)
        ensures
            forall|t: MetricType| #[trigger] c@.metric(t) == (MetricValueView { count: 0, sum: 0, max: 0 }),
    {
        MetricsCollector {
            messages_processed: MetricValue::new(),
            processing_latency: MetricValue::new(),
            error_count: MetricValue::new(),
            backpressure_count: MetricValue::new(),
            batch_size: MetricValue::new(),
        }
    }
}

impl MetricsCollector {
    /// A collector with every metric at zero.
    pub fn new() -> (c: Self)
        ensures
            forall|t: MetricType| #[trigger] c@.metric(t) == (MetricValueView { count: 0, sum: 0, max: 0 }),
            c@ == zero_metrics(),
    {
        let c = Self::default();
        proof {
            assert(c@.metric(MetricType::MessagesProcessed) == zero_metrics().messages_processed);
            assert(c@.metric(MetricType::ProcessingLatency) == zero_metrics().processing_latency);
            assert(c@.metric(MetricType::ErrorCount) == zero_metrics().error_count);
            assert(c@.metric(MetricType::BackpressureCount) == zero_metrics().backpressure_count);
            assert(c@.metric(MetricType::BatchSize) == zero_metrics().batch_size);
        }
        c
    }

    /// The aggregates of metric `t`.
    pub fn metric(&self, t: MetricType) -> (m: &MetricValue)
        ensures
            m@ == self@.metric(t),
    {
        match t {
            MetricType::MessagesProcessed => &self.messages_processed,
            MetricType::ProcessingLatency => &self.processing_latency,
            MetricType::ErrorCount => &self.error_count,
            MetricType::BackpressureCount => &self.backpressure_count,
            MetricType::BatchSize => &self.batch_size,
        }
    }

    /// Adds `value` to the counter of metric `t`; the other metrics stay.
    pub fn increment(&mut self, metric_type: MetricType, value: u64)
        ensures
            final(self)@ == old(self)@.with_metric(metric_type, increment_step(old(self)@.metric(metric_type), value)),
            final(self)@ == apply_op(old(self)@, MetricOp::Increment(metric_type, value)),
    {
        match metric_type {
            MetricType::MessagesProcessed => self.messages_processed.increment(value),
            MetricType::ProcessingLatency => self.processing_latency.increment(value),
            MetricType::ErrorCount => self.error_count.increment(value),
            MetricType::BackpressureCount => self.backpressure_count.increment(value),
            MetricType::BatchSize => self.batch_size.increment(value),
        }
    }

    /// Records `value` for metric `t` (sum, count and maximum); the other
    /// metrics stay.
    pub fn record_value(&mut self, metric_type: MetricType, value: i64)
        ensures
            final(self)@ == old(self)@.with_metric(metric_type, record_step(old(self)@.metric(metric_type), value)),
            final(self)@ == apply_op(old(self)@, MetricOp::Record(metric_type, value)),
    {
        match metric_type {
            MetricType::MessagesProcessed => self.messages_processed.record(value),
            MetricType::ProcessingLatency => self.processing_latency.record(value),
            MetricType::ErrorCount => self.error_count.record(value),
            MetricType::BackpressureCount => self.backpressure_count.record(value),
            MetricType::BatchSize => self.batch_size.record(value),
        }
    }

    /// The entries of the periodic report after `uptime_secs` seconds.
    pub fn report(&self, uptime_secs: u64) -> (fields: Vec<MetricField>)
        ensures
            fields@.map_values(|f: MetricField| f@) == report_entries(self@, uptime_secs),
            fields@.map_values(|f: MetricField| f@).contains(
                ("messages_processed"@, MetricReading::Count(self@.messages_processed.count)),
            ),
            fields@.map_values(|f: MetricField| f@).contains(
                ("error_count"@, MetricReading::Count(self@.error_count.count)),
            ),
            fields@.map_values(|f: MetricField| f@).contains(
                ("backpressure_count"@, MetricReading::Count(self@.backpressure_count.count)),
            ),
    {
        let mut fields: Vec<MetricField> = Vec::new();
        let processed: u64 = self.messages_processed.count();
        let rate: u64 = if uptime_secs == 0 {
            0
        } else {
            processed / uptime_secs
        };
        push_entry(&mut fields, "messages_processed", MetricReading::Count(processed));
        push_entry(&mut fields, "messages_per_second", MetricReading::Count(rate));
        push_stats(&mut fields, &self.processing_latency, "avg_latency_ms", "max_latency_ms");
        push_entry(&mut fields, "error_count", MetricReading::Count(self.error_count.count()));
        push_entry(&mut fields, "backpressure_count", MetricReading::Count(self.backpressure_count.count()));
        push_stats(&mut fields, &self.batch_size, "avg_batch_size", "max_batch_size");
        proof {
            assert(fields@.map_values(|f: MetricField| f@) =~= report_entries(self@, uptime_secs));
            lemma_report_counters(self@, uptime_secs);
        }
        fields
    }
}

/// Recording values is order-independent: two values recorded in either order
/// give the same aggregates, so tasks recording concurrently agree on the result.
pub proof fn lemma_records_commute(m: MetricValueView, x: i64, y: i64)
    ensures
        record_step(record_step(m, x), y) == record_step(record_step(m, y), x),
{
}

/// Increments are order-independent too.
pub proof fn lemma_increments_commute(m: MetricValueView, x: u64, y: u64)
    ensures
        increment_step(increment_step(m, x), y) == increment_step(increment_step(m, y), x),
{
}

/// Updating one metric leaves every other metric as it was.
pub proof fn lemma_other_metrics_unchanged(c: MetricsCollectorView, t: MetricType, v: MetricValueView, u: MetricType)
    ensures
        c.with_metric(t, v).metric(t) == v,
        u != t ==> c.with_metric(t, v).metric(u) == c.metric(u),
{
}

/// `x` brought into the `u64` range by wrapping around.
pub open spec fn wrap_u64(x: int) -> u64 {
    (x % 0x1_0000_0000_0000_0000) as u64
}

/// `x` brought into the `i64` range by wrapping around.
pub open spec fn wrap_i64(x: int) -> i64 {
    ((x + 0x8000_0000_0000_0000) % 0x1_0000_0000_0000_0000 - 0x8000_0000_0000_0000) as i64
}

/// The sum of `vs`.
pub open spec fn sum_of(vs: Seq<i64>) -> int
    decreases vs.len(),
{
    if vs.len() == 0 {
        0
    } else {
        sum_of(vs.drop_last()) + vs.last()
    }
}

/// The largest of `start` and the values of `vs`.
pub open spec fn max_of(start: i64, vs: Seq<i64>) -> i64
    decreases vs.len(),
{
    if vs.len() == 0 {
        start
    } else {
        larger(max_of(start, vs.drop_last()), vs.last())
    }
}

/// The aggregates after recording the values of `vs`, in order.
pub open spec fn record_all(m: MetricValueView, vs: Seq<i64>) -> MetricValueView
    decreases vs.len(),
{
    if vs.len() == 0 {
        m
    } else {
        record_step(record_all(m, vs.drop_last()), vs.last())
    }
}

proof fn lemma_wrap_u64_step(a: int)
    requires
        a >= 0,
    ensures
        wrap_add_u64(wrap_u64(a), 1) == wrap_u64(a + 1),
{
    let m: int = 0x1_0000_0000_0000_0000;
    vstd::arithmetic::div_mod::lemma_fundamental_div_mod(a, m);
    vstd::arithmetic::div_mod::lemma_mod_bound(a, m);
    let q: int = a / m;
    let r: int = a % m;
    if r + 1 < m {
        vstd::arithmetic::div_mod::lemma_fundamental_div_mod_converse(a + 1, m, q, r + 1);
    } else {
        vstd::arithmetic::div_mod::lemma_fundamental_div_mod_converse(a + 1, m, q + 1, 0);
    }
}

proof fn lemma_wrap_i64_step(a: int, v: i64)
    ensures
        wrap_add_i64(wrap_i64(a), v) == wrap_i64(a + v),
{
    let m: int = 0x1_0000_0000_0000_0000;
    let b: int = 0x8000_0000_0000_0000;
    vstd::arithmetic::div_mod::lemma_fundamental_div_mod(a + b, m);
    vstd::arithmetic::div_mod::lemma_mod_bound(a + b, m);
    let q: int = (a + b) / m;
    let r: int = (a + b) % m;
    let y: int = r - b;
    assert(wrap_i64(a) == y);
    let t: int = y + v;
    if t > i64::MAX {
        vstd::arithmetic::div_mod::lemma_fundamental_div_mod_converse(a + v + b, m, q + 1, t - m + b);
    } else if t < i64::MIN {
        vstd::arithmetic::div_mod::lemma_fundamental_div_mod_converse(a + v + b, m, q - 1, t + m + b);
    } else {
        vstd::arithmetic::div_mod::lemma_fundamental_div_mod_converse(a + v + b, m, q, t + b);
    }
}

/// Recording any number of values leaves aggregates that depend only on how
/// many there were, their sum and their maximum, not on their order: the count
/// grows by their number and the sum by their total (both wrapping around), and
/// the maximum is the largest of the old maximum and the values. No update is
/// lost, whatever order the records come in.
pub proof fn lemma_record_all(m: MetricValueView, vs: Seq<i64>)
    ensures
        record_all(m, vs) == (MetricValueView {
            count: wrap_u64(m.count + vs.len()),
            sum: wrap_i64(m.sum + sum_of(vs)),
            max: max_of(m.max, vs),
        }),
    decreases vs.len(),
{
    if vs.len() == 0 {
        let mm: int = 0x1_0000_0000_0000_0000;
        vstd::arithmetic::div_mod::lemma_fundamental_div_mod_converse(m.count as int, mm, 0, m.count as int);
        vstd::arithmetic::div_mod::lemma_fundamental_div_mod_converse(
            m.sum + 0x8000_0000_0000_0000,
            mm,
            0,
            m.sum + 0x8000_0000_0000_0000,
        );
    } else {
        let init = vs.drop_last();
        lemma_record_all(m, init);
        lemma_wrap_u64_step(m.count + init.len());
        lemma_wrap_i64_step(m.sum + sum_of(init), vs.last());
        assert(m.count + init.len() + 1 == m.count + vs.len());
        assert(m.sum + sum_of(init) + vs.last() == m.sum + sum_of(vs));
    }
}

/// A collector with every metric at zero, as `new` makes it.
pub open spec fn zero_metrics() -> MetricsCollectorView {
    let z = MetricValueView { count: 0, sum: 0, max: 0 };
    MetricsCollectorView {
        messages_processed: z,
        processing_latency: z,
        error_count: z,
        backpressure_count: z,
        batch_size: z,
    }
}

/// One update of a collector: `increment` or `record_value`.
pub enum MetricOp {
    Increment(MetricType, u64),
    Record(MetricType, i64),
}

/// The collector after one update, as `increment` and `record_value` state it.
pub open spec fn apply_op(c: MetricsCollectorView, op: MetricOp) -> MetricsCollectorView {
    match op {
        MetricOp::Increment(t, v) => c.with_metric(t, increment_step(c.metric(t), v)),
        MetricOp::Record(t, v) => c.with_metric(t, record_step(c.metric(t), v)),
    }
}

/// The collector after the updates `ops`, in order.
pub open spec fn apply_ops(c: MetricsCollectorView, ops: Seq<MetricOp>) -> MetricsCollectorView
    decreases ops.len(),
{
    if ops.len() == 0 {
        c
    } else {
        apply_op(apply_ops(c, ops.drop_last()), ops.last())
    }
}

/// The values recorded for metric `t` by the updates `ops`, in order.
pub open spec fn recorded(t: MetricType, ops: Seq<MetricOp>) -> Seq<i64>
    decreases ops.len(),
{
    if ops.len() == 0 {
        Seq::empty()
    } else {
        let r = recorded(t, ops.drop_last());
        match ops.last() {
            MetricOp::Record(u, v) => if u == t {
                r.push(v)
            } else {
                r
            },
            MetricOp::Increment(_, _) => r,
        }
    }
}

/// `max_of(start, vs)` is at least `start` and every value of `vs`.
pub proof fn lemma_max_of_bounds(start: i64, vs: Seq<i64>)
    ensures
        max_of(start, vs) >= start,
        forall|i: int| 0 <= i < vs.len() ==> max_of(start, vs) >= #[trigger] vs[i],
        max_of(start, vs) == start || exists|i: int| 0 <= i < vs.len() && max_of(start, vs) == #[trigger] vs[i],
    decreases vs.len(),
{
    if vs.len() > 0 {
        let init = vs.drop_last();
        lemma_max_of_bounds(start, init);
        assert forall|i: int| 0 <= i < vs.len() implies max_of(start, vs) >= #[trigger] vs[i] by {
            if i < init.len() {
                assert(vs[i] == init[i]);
            }
        }
        if max_of(start, vs) != start {
            if max_of(start, vs) == vs.last() {
                assert(vs[vs.len() - 1] == vs.last());
            } else {
                let k = choose|k: int| 0 <= k < init.len() && max_of(start, init) == #[trigger] init[k];
                assert(vs[k] == init[k]);
            }
        }
    }
}

/// In every state a collector reaches from `new` through `increment` and
/// `record_value` calls, each metric's maximum is the largest of 0 and every
/// value recorded for it: it is never below 0, never below a recorded value,
/// and is 0 or one of those values.
pub proof fn lemma_reachable_max(ops: Seq<MetricOp>, t: MetricType)
    ensures
        apply_ops(zero_metrics(), ops).metric(t).max == max_of(0, recorded(t, ops)),
        apply_ops(zero_metrics(), ops).metric(t).max >= 0,
        forall|i: int|
            0 <= i < recorded(t, ops).len() ==> apply_ops(zero_metrics(), ops).metric(t).max >= #[trigger] recorded(
                t,
                ops,
            )[i],
    decreases ops.len(),
{
    if ops.len() > 0 {
        let init = ops.drop_last();
        lemma_reachable_max(init, t);
        let r = recorded(t, init);
        match ops.last() {
            MetricOp::Record(u, v) => {
                if u == t {
                    assert(recorded(t, ops).drop_last() =~= r);
                }
            },
            MetricOp::Increment(_, _) => {},
        }
    }
    lemma_max_of_bounds(0, recorded(t, ops));
}

/// The report carries the counters themselves, whatever the uptime: the
/// processed, error and backpressure entries hold the totals counted so far;
/// only `messages_per_second` divides by the uptime (0 when none has passed).
pub proof fn lemma_report_counters(c: MetricsCollectorView, uptime_secs: u64)
    ensures
        report_entries(c, uptime_secs).contains(("messages_processed"@, MetricReading::Count(c.messages_processed.count))),
        report_entries(c, uptime_secs).contains(("error_count"@, MetricReading::Count(c.error_count.count))),
        report_entries(c, uptime_secs).contains(
            ("backpressure_count"@, MetricReading::Count(c.backpressure_count.count)),
        ),
        report_entries(c, uptime_secs)[1].1 == MetricReading::Count(
            if uptime_secs == 0 {
                0
            } else {
                (c.messages_processed.count / uptime_secs) as u64
            },
        ),
{
    let r = report_entries(c, uptime_secs);
    let k = stats_entries(c.processing_latency, "avg_latency_ms"@, "max_latency_ms"@).len();
    assert(r[0] == ("messages_processed"@, MetricReading::Count(c.messages_processed.count)));
    assert(r[(2 + k) as int] == ("error_count"@, MetricReading::Count(c.error_count.count)));
    assert(r[(3 + k) as int] == ("backpressure_count"@, MetricReading::Count(c.backpressure_count.count)));
}

/// The uptime affects only the rate entry: two reports of the same collector
/// at any two uptimes have the same entries in the same order, except the
/// `messages_per_second` reading.
pub proof fn lemma_report_uptime_only_rate(c: MetricsCollectorView, u1: u64, u2: u64)
    ensures
        report_entries(c, u1).len() == report_entries(c, u2).len(),
        forall|i: int|
            0 <= i < report_entries(c, u1).len() && i != 1 ==> #[trigger] report_entries(c, u1)[i]
                == report_entries(c, u2)[i],
        report_entries(c, u1)[1].0 == report_entries(c, u2)[1].0,
{
}

} // verus!
