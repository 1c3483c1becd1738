//! The metrics collector: per-label request counters and latency histograms,
//! created lazily on first observation and kept for the process lifetime,
//! with a text snapshot encoder.
//!
//! Series are keyed by the request's method, path and status alone, so the
//! number of series is bounded by the distinct combinations of those values,
//! never by per-request data. Durations are carried in whole microseconds;
//! the bucket boundaries are the fixed millisecond values 1, 2.5, 5, 10, 25,
//! 50, 75, 100, 250, 500, 750, 1000, 1250, 1500 and 2000. Counts and sums
//! saturate at the integer's range instead of wrapping.

use vstd::prelude::*;
use vstd::string::StringExecFns;

verus! {

/// How many finite bucket boundaries a histogram has; one more bucket counts
/// every observation.
pub const BUCKET_COUNT: usize = 15;

/// The fixed bucket boundaries, in microseconds, ascending.
pub open spec fn bucket_bound_us(i: int) -> u64 {
    if i == 0 {
        1000
    } else if i == 1 {
        2500
    } else if i == 2 {
        5000
    } else if i == 3 {
        10000
    } else if i == 4 {
        25000
    } else if i == 5 {
        50000
    } else if i == 6 {
        75000
    } else if i == 7 {
        100000
    } else if i == 8 {
        250000
    } else if i == 9 {
        500000
    } else if i == 10 {
        750000
    } else if i == 11 {
        1000000
    } else if i == 12 {
        1250000
    } else if i == 13 {
        1500000
    } else {
        2000000
    }
}

/// The fixed bucket boundary for index `i`, in microseconds.
fn bucket_bound(i: usize) -> (r: u64)
    requires
        i < BUCKET_COUNT,
    ensures
        r == bucket_bound_us(i as int),
{
    match i {
        0 => 1000,
        1 => 2500,
        2 => 5000,
        3 => 10000,
        4 => 25000,
        5 => 50000,
        6 => 75000,
        7 => 100000,
        8 => 250000,
        9 => 500000,
        10 => 750000,
        11 => 1000000,
        12 => 1250000,
        13 => 1500000,
        _ => 2000000,
    }
}

/// `x + 1`, held at the top of the range instead of wrapping.
pub open spec fn sat_inc(x: u64) -> u64 {
    if x == u64::MAX {
        x
    } else {
        (x + 1) as u64
    }
}

/// `a + b`, held at the top of the range instead of wrapping.
pub open spec fn sat_plus(a: u64, b: u64) -> u64 {
    if a + b > u64::MAX {
        u64::MAX
    } else {
        (a + b) as u64
    }
}

/// The label values of one series.
pub struct LabelView {
    pub method: Seq<char>,
    pub path: Seq<char>,
    pub status: u16,
}

/// The state of one histogram: cumulative per-bucket counts, the running sum
/// of observations in microseconds, and the number of observations.
pub struct HistView {
    pub le: Seq<u64>,
    pub sum_us: u64,
    pub count: u64,
}

/// One labeled series: its label, its request counter, and its histogram.
pub struct SeriesView {
    pub label: LabelView,
    pub count: u64,
    pub hist: HistView,
}

/// The whole collector: its series in order of first observation.
pub struct MetricsView {
    pub series: Seq<SeriesView>,
}

/// The key of a metric series: the request's method, route path and final
/// status. Identity is structural: equal names and values mean the same
/// series.
#[derive(Clone, Debug)]
pub struct RequestLabel {
    pub method: String,
    pub path: String,
    pub status: u16,
}

impl View for RequestLabel {
    type V = LabelView;

    open spec fn view(&self) -> LabelView {
        LabelView { method: self.method@, path: self.path@, status: self.status }
    }
}

/// A monotonically increasing request counter.
#[derive(Clone, Debug)]
pub struct CounterSeries {
    value: u64,
}

impl View for CounterSeries {
    type V = u64;

    closed spec fn view(&self) -> u64 {
        self.value
    }
}

impl CounterSeries {
    /// A counter that has counted nothing.
    pub fn new() -> (r: CounterSeries)
        ensures
            r@ == 0,
    {
        CounterSeries { value: 0 }
    }

    /// Counts one more request.
    pub fn inc(&mut self)
        ensures
            final(self)@ == sat_inc(old(self)@),
    {
        self.value = self.value.saturating_add(1);
    }

    /// The number of requests counted.
    pub fn value(&self) -> (r: u64)
        ensures
            r == self@,
    {
        self.value
    }
}

/// A latency histogram over the fixed bucket boundaries.
#[derive(Clone, Debug)]
pub struct HistogramSeries {
    le: Vec<u64>,
    sum_us: u64,
    count: u64,
}

impl View for HistogramSeries {
    type V = HistView;

    closed spec fn view(&self) -> HistView {
        HistView { le: self.le@, sum_us: self.sum_us, count: self.count }
    }
}

/// A histogram's bucket table always covers the fixed boundaries.
pub open spec fn hist_wf(h: HistView) -> bool {
    h.le.len() == BUCKET_COUNT
}

/// The state of a histogram after observing a duration of `us` microseconds:
/// every bucket whose boundary the duration does not exceed grows by one, as
/// do the sum and the observation count.
pub open spec fn observe_spec(h: HistView, us: u64) -> HistView {
    HistView {
        le: Seq::new(
            BUCKET_COUNT as nat,
            |i: int|
                if us <= bucket_bound_us(i) {
                    sat_inc(h.le[i])
                } else {
                    h.le[i]
                },
        ),
        sum_us: sat_plus(h.sum_us, us),
        count: sat_inc(h.count),
    }
}

impl HistogramSeries {
    /// A histogram that has observed nothing.
    pub fn new() -> (r: HistogramSeries)
        ensures
            r@.le =~= Seq::new(BUCKET_COUNT as nat, |i: int| 0u64),
            r@.sum_us == 0,
            r@.count == 0,
            hist_wf(r@),
    {
        let mut le: Vec<u64> = Vec::new();
        let mut i: usize = 0;
        while i < BUCKET_COUNT
            invariant
                i <= BUCKET_COUNT,
                le@.len() == i,
                forall|j: int| 0 <= j < i ==> le@[j] == 0u64,
            decreases BUCKET_COUNT - i,
        {
            le.push(0);
            i = i + 1;
        }
        let r = HistogramSeries { le, sum_us: 0, count: 0 };
        proof {
            assert(r@.le =~= Seq::new(BUCKET_COUNT as nat, |j: int| 0u64));
        }
        r
    }

    /// Observes one duration of `us` microseconds.
    pub fn observe(&mut self, us: u64)
        requires
            hist_wf(old(self)@),
        ensures
            final(self)@ == observe_spec(old(self)@, us),
            hist_wf(final(self)@),
    {
        let mut i: usize = 0;
        while i < BUCKET_COUNT
            invariant
                i <= BUCKET_COUNT,
                self.le@.len() == BUCKET_COUNT,
                self.sum_us == old(self).sum_us,
                self.count == old(self).count,
                forall|j: int|
                    0 <= j < i ==> self.le@[j] == (if us <= bucket_bound_us(j) {
                        sat_inc(old(self)@.le[j])
                    } else {
                        old(self)@.le[j]
                    }),
                forall|j: int| i <= j < BUCKET_COUNT ==> self.le@[j] == old(self)@.le[j],
            decreases BUCKET_COUNT - i,
        {
            if us <= bucket_bound(i) {
                let bumped = self.le[i].saturating_add(1);
                self.le[i] = bumped;
            }
            i = i + 1;
        }
        self.sum_us = self.sum_us.saturating_add(us);
        self.count = self.count.saturating_add(1);
        proof {
            assert(final(self)@.le =~= observe_spec(old(self)@, us).le);
        }
    }

    /// The running sum of observations, in microseconds.
    pub fn sum_us(&self) -> (r: u64)
        ensures
            r == self@.sum_us,
    {
        self.sum_us
    }

    /// The number of observations.
    pub fn count(&self) -> (r: u64)
        ensures
            r == self@.count,
    {
        self.count
    }
}

/// One row of the collector.
struct LabeledSeries {
    label: RequestLabel,
    counter: CounterSeries,
    histogram: HistogramSeries,
}

impl View for LabeledSeries {
    type V = SeriesView;

    closed spec fn view(&self) -> SeriesView {
        SeriesView { label: self.label@, count: self.counter@, hist: self.histogram@ }
    }
}

/// A series as created on first observation for `l`, before that first
/// observation lands.
pub open spec fn empty_series(l: LabelView) -> SeriesView {
    SeriesView {
        label: l,
        count: 0,
        hist: HistView { le: Seq::new(BUCKET_COUNT as nat, |i: int| 0u64), sum_us: 0, count: 0 },
    }
}

/// A series after counting one request that took `us` microseconds.
pub open spec fn bump_series(s: SeriesView, us: u64) -> SeriesView {
    SeriesView { label: s.label, count: sat_inc(s.count), hist: observe_spec(s.hist, us) }
}

/// The first series index holding label `l`, or `-1` if no series does.
pub open spec fn find_label(s: Seq<SeriesView>, l: LabelView) -> int
    decreases s.len(),
{
    if s.len() == 0 {
        -1
    } else if s[0].label == l {
        0
    } else {
        let r = find_label(s.drop_first(), l);
        if r == -1 {
            -1
        } else {
            r + 1
        }
    }
}

/// Whether some series holds label `l`.
pub open spec fn has_label(v: MetricsView, l: LabelView) -> bool {
    exists|i: int| 0 <= i < v.series.len() && #[trigger] v.series[i].label == l
}

/// The series holding label `l`; meaningful when one does.
pub open spec fn series_of(v: MetricsView, l: LabelView) -> SeriesView {
    v.series[find_label(v.series, l)]
}

/// The collector after recording one request: the series for `l` is bumped,
/// and created first if this is `l`'s first observation; no other series
/// changes.
pub open spec fn record_spec(v: MetricsView, l: LabelView, us: u64) -> MetricsView {
    let i = find_label(v.series, l);
    if i >= 0 {
        MetricsView { series: v.series.update(i, bump_series(v.series[i], us)) }
    } else {
        MetricsView { series: v.series.push(bump_series(empty_series(l), us)) }
    }
}

/// Well-formedness of the collector: every histogram covers the fixed
/// boundaries, and no two series share a label.
pub open spec fn view_wf(v: MetricsView) -> bool {
    &&& forall|i: int| 0 <= i < v.series.len() ==> hist_wf(#[trigger] v.series[i].hist)
    &&& forall|i: int, j: int|
        0 <= i < j < v.series.len() ==> v.series[i].label != v.series[j].label
}

proof fn lemma_find_label_present(s: Seq<SeriesView>, l: LabelView, i: int)
    requires
        0 <= i < s.len(),
        s[i].label == l,
        forall|j: int| 0 <= j < i ==> s[j].label != l,
    ensures
        find_label(s, l) == i,
    decreases i,
{
    if i == 0 {
    } else {
        assert(s[0].label != l);
        assert(s.drop_first()[i - 1] == s[i]);
        assert(forall|j: int| 0 <= j < i - 1 ==> s.drop_first()[j] == s[j + 1]);
        lemma_find_label_present(s.drop_first(), l, i - 1);
    }
}

proof fn lemma_find_label_absent(s: Seq<SeriesView>, l: LabelView)
    requires
        forall|j: int| 0 <= j < s.len() ==> s[j].label != l,
    ensures
        find_label(s, l) == -1,
    decreases s.len(),
{
    if s.len() == 0 {
    } else {
        assert(forall|j: int| 0 <= j < s.drop_first().len() ==> s.drop_first()[j] == s[j + 1]);
        lemma_find_label_absent(s.drop_first(), l);
    }
}

proof fn lemma_find_label_props(s: Seq<SeriesView>, l: LabelView)
    ensures
        find_label(s, l) == -1 ==> forall|j: int| 0 <= j < s.len() ==> s[j].label != l,
        find_label(s, l) != -1 ==> 0 <= find_label(s, l) < s.len() && s[find_label(s, l)].label
            == l,
        find_label(s, l) != -1 ==> forall|j: int| 0 <= j < find_label(s, l) ==> s[j].label != l,
    decreases s.len(),
{
    if s.len() == 0 {
    } else {
        lemma_find_label_props(s.drop_first(), l);
        if find_label(s, l) == -1 {
            assert(s[0].label != l);
            assert(find_label(s.drop_first(), l) == -1);
            assert forall|j: int| 0 <= j < s.len() implies s[j].label != l by {
                if j > 0 {
                    assert(s.drop_first()[j - 1] == s[j]);
                }
            }
        } else {
            if s[0].label != l {
                assert(s.drop_first()[find_label(s.drop_first(), l)] == s[find_label(s, l)]);
                assert forall|j: int| 0 <= j < find_label(s, l) implies s[j].label != l by {
                    if j > 0 {
                        assert(s.drop_first()[j - 1] == s[j]);
                    }
                }
            }
        }
    }
}

/// The metrics collector.
pub struct Metrics {
    series: Vec<LabeledSeries>,
}

impl View for Metrics {
    type V = MetricsView;

    closed spec fn view(&self) -> MetricsView {
        MetricsView { series: Seq::new(self.series@.len(), |i: int| self.series@[i]@) }
    }
}

impl Metrics {
    /// Well-formedness of the collector.
    pub open spec fn wf(&self) -> bool {
        view_wf(self@)
    }

    /// A collector with no series yet.
    pub fn new() -> (r: Metrics)
        ensures
            r@.series.len() == 0,
            r.wf(),
    {
        let r = Metrics { series: Vec::new() };
        proof {
            assert(r@.series.len() == 0);
        }
        r
    }

    /// The number of series.
    pub fn series_count(&self) -> (r: usize)
        ensures
            r == self@.series.len(),
    {
        self.series.len()
    }

    /// The first series index holding `label`, if any series does.
    fn find_index(&self, label: &RequestLabel) -> (r: Option<usize>)
        ensures
            r matches Some(i) ==> 0 <= i < self@.series.len() && find_label(self@.series, label@)
                == i as int,
            r is None ==> find_label(self@.series, label@) == -1,
    {
        let n = self.series.len();
        let mut i: usize = 0;
        while i < n
            invariant
                n == self@.series.len(),
                i <= n,
                forall|j: int| 0 <= j < i ==> self@.series[j].label != label@,
            decreases n - i,
        {
            let row = &self.series[i];
            if row.label.status == label.status && crate::text::str_eq(
                row.label.method.as_str(),
                label.method.as_str(),
            ) && crate::text::str_eq(row.label.path.as_str(), label.path.as_str()) {
                proof {
                    assert(self@.series[i as int].label == label@);
                    lemma_find_label_present(self@.series, label@, i as int);
                }
                return Some(i);
            }
            proof {
                assert(self@.series[i as int].label != label@);
            }
            i = i + 1;
        }
        proof {
            lemma_find_label_absent(self@.series, label@);
        }
        None
    }

    /// Records one request under `label`: its counter series and histogram
    /// series are created on first use and bumped; no other series changes.
    pub fn record(&mut self, label: RequestLabel, elapsed_us: u64)
        requires
            old(self).wf(),
        ensures
            final(self).wf(),
            final(self)@ == record_spec(old(self)@, label@, elapsed_us),
    {
        proof {
            lemma_find_label_props(self@.series, label@);
        }
        match self.find_index(&label) {
            Some(i) => {
                let mut row = self.series.remove(i);
                proof {
                    assert(row@ == old(self)@.series[i as int]);
                    assert(hist_wf(old(self)@.series[i as int].hist));
                }
                row.counter.inc();
                row.histogram.observe(elapsed_us);
                self.series.insert(i, row);
                proof {
                    assert(final(self)@.series =~= record_spec(old(self)@, label@, elapsed_us).series);
                    lemma_record_wf(old(self)@, label@, elapsed_us);
                }
            },
            None => {
                let mut row = LabeledSeries {
                    label,
                    counter: CounterSeries::new(),
                    histogram: HistogramSeries::new(),
                };
                row.counter.inc();
                row.histogram.observe(elapsed_us);
                self.series.push(row);
                proof {
                    assert(final(self)@.series =~= record_spec(old(self)@, label@, elapsed_us).series);
                    lemma_record_wf(old(self)@, label@, elapsed_us);
                }
            },
        }
    }

    /// Encodes every registered series as text: the counter family first,
    /// then the histogram family, series in order of first observation. The
    /// result is a function of the collector's state alone, so snapshots
    /// with no recording in between are textually identical.
    pub fn snapshot(&self) -> (r: String)
        requires
            self.wf(),
        ensures
            r@ == snapshot_spec(self@),
    {
        let mut out = String::new();
        out.append("# HELP request_count Number of requests received\n");
        out.append("# TYPE request_count counter\n");
        let ghost counter_base: Seq<char> = out@;
        let n = self.series.len();
        let mut i: usize = 0;
        while i < n
            invariant
                i <= n,
                n == self@.series.len(),
                self.wf(),
                n == self.series@.len(),
                out@ == counter_base + counter_lines_upto(self@, i as int),
            decreases n - i,
        {
            append_counter_line(&mut out, &self.series[i]);
            proof {
                assert(self@.series[i as int] == self.series@[i as int]@);
                assert(out@ =~= counter_base + counter_lines_upto(self@, i as int + 1));
            }
            i = i + 1;
        }
        out.append("# HELP request_duration_ms Request duration\n");
        out.append("# TYPE request_duration_ms histogram\n");
        let ghost hist_base: Seq<char> = out@;
        let mut j: usize = 0;
        while j < n
            invariant
                j <= n,
                n == self@.series.len(),
                self.wf(),
                n == self.series@.len(),
                out@ == hist_base + hist_blocks_upto(self@, j as int),
            decreases n - j,
        {
            proof {
                assert(self@.series[j as int] == self.series@[j as int]@);
                assert(hist_wf(self@.series[j as int].hist));
            }
            append_hist_block(&mut out, &self.series[j]);
            proof {
                assert(out@ =~= hist_base + hist_blocks_upto(self@, j as int + 1));
            }
            j = j + 1;
        }
        out.append("# EOF\n");
        proof {
            assert(out@ =~= snapshot_spec(self@));
        }
        out
    }

    /// The value of the counter series for `label`, if that series exists.
    pub fn counter_value(&self, label: &RequestLabel) -> (r: Option<u64>)
        ensures
            has_label(self@, label@) ==> (r matches Some(c) && c == series_of(self@, label@).count),
            !has_label(self@, label@) ==> r is None,
    {
        proof {
            lemma_find_label_props(self@.series, label@);
            if has_label(self@, label@) {
                let w = choose|i: int|
                    0 <= i < self@.series.len() && #[trigger] self@.series[i].label == label@;
                lemma_find_label_first(self@.series, label@, w);
            }
        }
        match self.find_index(label) {
            Some(i) => Some(self.series[i].counter.value()),
            None => None,
        }
    }

    /// The observation count and running sum, in microseconds, of the
    /// histogram series for `label`, if that series exists.
    pub fn histogram_stats(&self, label: &RequestLabel) -> (r: Option<(u64, u64)>)
        ensures
            has_label(self@, label@) ==> (r matches Some(cs) && cs.0 == series_of(
                self@,
                label@,
            ).hist.count && cs.1 == series_of(self@, label@).hist.sum_us),
            !has_label(self@, label@) ==> r is None,
    {
        proof {
            lemma_find_label_props(self@.series, label@);
            if has_label(self@, label@) {
                let w = choose|i: int|
                    0 <= i < self@.series.len() && #[trigger] self@.series[i].label == label@;
                lemma_find_label_first(self@.series, label@, w);
            }
        }
        match self.find_index(label) {
            Some(i) => Some((self.series[i].histogram.count(), self.series[i].histogram.sum_us())),
            None => None,
        }
    }
}

/// The label pairs of one series as they appear inside braces: values are
/// written verbatim; callers key series by HTTP methods, route paths and
/// statuses, none of which carry quotes.
pub open spec fn label_body(l: LabelView) -> Seq<char> {
    "method=\""@ + l.method + "\",path=\""@ + l.path + "\",status=\""@ + crate::text::dec_str(
        l.status as nat,
    ) + "\""@
}

/// The counter sample line of one series.
pub open spec fn counter_line(s: SeriesView) -> Seq<char> {
    "request_count_total{"@ + label_body(s.label) + "} "@ + crate::text::dec_str(s.count as nat)
        + "\n"@
}

/// The counter sample lines of the first `i` series.
pub open spec fn counter_lines_upto(v: MetricsView, i: int) -> Seq<char>
    decreases i,
{
    if i <= 0 {
        Seq::empty()
    } else {
        counter_lines_upto(v, i - 1) + counter_line(v.series[i - 1])
    }
}

/// The bucket sample line of one series for boundary `i`.
pub open spec fn bucket_line(s: SeriesView, i: int) -> Seq<char> {
    "request_duration_ms_bucket{"@ + label_body(s.label) + ",le=\""@ + crate::text::ms_str(
        bucket_bound_us(i),
    ) + "\"} "@ + crate::text::dec_str(s.hist.le[i] as nat) + "\n"@
}

/// The bucket sample lines of one series for the first `i` boundaries.
pub open spec fn bucket_lines_upto(s: SeriesView, i: int) -> Seq<char>
    decreases i,
{
    if i <= 0 {
        Seq::empty()
    } else {
        bucket_lines_upto(s, i - 1) + bucket_line(s, i - 1)
    }
}

/// The histogram sample lines of one series: the finite buckets, the
/// unbounded bucket, the sum and the observation count.
pub open spec fn hist_block(s: SeriesView) -> Seq<char> {
    bucket_lines_upto(s, BUCKET_COUNT as int) + "request_duration_ms_bucket{"@ + label_body(
        s.label,
    ) + ",le=\"+Inf\"} "@ + crate::text::dec_str(s.hist.count as nat) + "\n"@
        + "request_duration_ms_sum{"@ + label_body(s.label) + "} "@ + crate::text::ms_str(
        s.hist.sum_us,
    ) + "\n"@ + "request_duration_ms_count{"@ + label_body(s.label) + "} "@ + crate::text::dec_str(
        s.hist.count as nat,
    ) + "\n"@
}

/// The histogram sample lines of the first `i` series.
pub open spec fn hist_blocks_upto(v: MetricsView, i: int) -> Seq<char>
    decreases i,
{
    if i <= 0 {
        Seq::empty()
    } else {
        hist_blocks_upto(v, i - 1) + hist_block(v.series[i - 1])
    }
}

/// The whole text snapshot: a function of the collector's state alone, so
/// two snapshots of the same state are textually identical.
pub open spec fn snapshot_spec(v: MetricsView) -> Seq<char> {
    "# HELP request_count Number of requests received\n"@ + "# TYPE request_count counter\n"@
        + counter_lines_upto(v, v.series.len() as int)
        + "# HELP request_duration_ms Request duration\n"@
        + "# TYPE request_duration_ms histogram\n"@ + hist_blocks_upto(v, v.series.len() as int)
        + "# EOF\n"@
}

/// If some index holds `l`, the find is among the indexes holding `l`.
proof fn lemma_find_label_first(s: Seq<SeriesView>, l: LabelView, w: int)
    requires
        0 <= w < s.len(),
        s[w].label == l,
    ensures
        0 <= find_label(s, l) < s.len(),
        s[find_label(s, l)].label == l,
    decreases s.len(),
{
    if s[0].label == l {
    } else {
        assert(s.drop_first()[w - 1] == s[w]);
        lemma_find_label_first(s.drop_first(), l, w - 1);
    }
}

/// Appends the label pairs of one series, inside braces.
fn append_label_body(out: &mut String, label: &RequestLabel)
    ensures
        final(out)@ == old(out)@ + label_body(label@),
{
    out.append("method=\"");
    out.append(label.method.as_str());
    out.append("\",path=\"");
    out.append(label.path.as_str());
    out.append("\",status=\"");
    let status = crate::text::u64_string(label.status as u64);
    out.append(status.as_str());
    out.append("\"");
    proof {
        assert(out@ =~= old(out)@ + label_body(label@));
    }
}

/// Appends the counter sample line of one series.
fn append_counter_line(out: &mut String, row: &LabeledSeries)
    ensures
        final(out)@ == old(out)@ + counter_line(row@),
{
    out.append("request_count_total{");
    append_label_body(out, &row.label);
    out.append("} ");
    let count = crate::text::u64_string(row.counter.value());
    out.append(count.as_str());
    out.append("\n");
    proof {
        assert(out@ =~= old(out)@ + counter_line(row@));
    }
}

/// Appends the histogram sample lines of one series.
fn append_hist_block(out: &mut String, row: &LabeledSeries)
    requires
        hist_wf(row@.hist),
    ensures
        final(out)@ == old(out)@ + hist_block(row@),
{
    let ghost base: Seq<char> = out@;
    let mut i: usize = 0;
    while i < BUCKET_COUNT
        invariant
            i <= BUCKET_COUNT,
            hist_wf(row@.hist),
            out@ == base + bucket_lines_upto(row@, i as int),
        decreases BUCKET_COUNT - i,
    {
        out.append("request_duration_ms_bucket{");
        append_label_body(out, &row.label);
        out.append(",le=\"");
        let bound = crate::text::ms_string(bucket_bound(i));
        out.append(bound.as_str());
        out.append("\"} ");
        let in_bucket = crate::text::u64_string(row.histogram.le[i]);
        out.append(in_bucket.as_str());
        out.append("\n");
        proof {
            assert(out@ =~= base + bucket_lines_upto(row@, i as int + 1));
        }
        i = i + 1;
    }
    out.append("request_duration_ms_bucket{");
    append_label_body(out, &row.label);
    out.append(",le=\"+Inf\"} ");
    let observations = crate::text::u64_string(row.histogram.count());
    out.append(observations.as_str());
    out.append("\n");
    out.append("request_duration_ms_sum{");
    append_label_body(out, &row.label);
    out.append("} ");
    let sum = crate::text::ms_string(row.histogram.sum_us());
    out.append(sum.as_str());
    out.append("\n");
    out.append("request_duration_ms_count{");
    append_label_body(out, &row.label);
    out.append("} ");
    let observations_again = crate::text::u64_string(row.histogram.count());
    out.append(observations_again.as_str());
    out.append("\n");
    proof {
        assert(out@ =~= old(out)@ + hist_block(row@));
    }
}

/// Recording preserves well-formedness.
pub proof fn lemma_record_wf(v: MetricsView, l: LabelView, us: u64)
    requires
        view_wf(v),
    ensures
        view_wf(record_spec(v, l, us)),
{
    lemma_find_label_props(v.series, l);
    let v2 = record_spec(v, l, us);
    assert forall|i: int| 0 <= i < v2.series.len() implies hist_wf(#[trigger] v2.series[i].hist) by {
        if i < v.series.len() {
            assert(hist_wf(v.series[i].hist));
        }
    }
}

/// Each request is recorded against exactly one series, the one for its
/// label: that series is bumped once, created first if this is its label's
/// first observation, and every series with a different label is unchanged.
/// No second observation lands anywhere for the same request.
pub proof fn lemma_record_updates_only_its_series(v: MetricsView, l: LabelView, us: u64)
    requires
        view_wf(v),
    ensures
        has_label(record_spec(v, l, us), l),
        series_of(record_spec(v, l, us), l) == bump_series(
            if has_label(v, l) {
                series_of(v, l)
            } else {
                empty_series(l)
            },
            us,
        ),
        forall|l2: LabelView|
            l2 != l && has_label(v, l2) ==> has_label(record_spec(v, l, us), l2) && series_of(
                record_spec(v, l, us),
                l2,
            ) == series_of(v, l2),
{
    lemma_find_label_props(v.series, l);
    let i = find_label(v.series, l);
    let v2 = record_spec(v, l, us);
    if i >= 0 {
        assert(v.series[i].label == l);
        assert(has_label(v, l));
        lemma_find_label_present(v2.series, l, i);
        assert(v2.series[i] == bump_series(v.series[i], us));
    } else {
        let n = v.series.len() as int;
        assert(v2.series[n].label == l);
        lemma_find_label_present(v2.series, l, n);
        assert(has_label(v2, l)) by {
            assert(v2.series[n].label == l);
        }
    }
    assert forall|l2: LabelView| l2 != l && has_label(v, l2) implies has_label(v2, l2)
        && series_of(v2, l2) == series_of(v, l2) by {
        lemma_find_label_props(v.series, l2);
        let k = choose|k: int| 0 <= k < v.series.len() && #[trigger] v.series[k].label == l2;
        lemma_find_label_first(v.series, l2, k);
        let f = find_label(v.series, l2);
        assert(v2.series[f].label == l2);
        assert forall|j: int| 0 <= j < f implies v2.series[j].label != l2 by {
            assert(v.series[j].label != l2);
        }
        lemma_find_label_present(v2.series, l2, f);
        assert(v2.series[f] == v.series[f]);
    }
}

/// Recording adds the recorded label and nothing else to the label set, and
/// grows the series count only when that label is new.
pub proof fn lemma_record_labels(v: MetricsView, l: LabelView, us: u64)
    requires
        view_wf(v),
    ensures
        forall|l2: LabelView|
            has_label(record_spec(v, l, us), l2) <==> (has_label(v, l2) || l2 == l),
        record_spec(v, l, us).series.len() == if has_label(v, l) {
            v.series.len()
        } else {
            v.series.len() + 1
        },
{
    lemma_find_label_props(v.series, l);
    let i = find_label(v.series, l);
    let v2 = record_spec(v, l, us);
    if i >= 0 {
        assert(v.series[i].label == l);
        assert(has_label(v, l));
        assert forall|l2: LabelView| has_label(v2, l2) <==> (has_label(v, l2) || l2 == l) by {
            if has_label(v2, l2) {
                let w = choose|w: int|
                    0 <= w < v2.series.len() && #[trigger] v2.series[w].label == l2;
                assert(v.series[w].label == l2);
            }
            if has_label(v, l2) {
                let w = choose|w: int|
                    0 <= w < v.series.len() && #[trigger] v.series[w].label == l2;
                assert(v2.series[w].label == l2);
            }
            if l2 == l {
                assert(v2.series[i].label == l2);
            }
        }
    } else {
        assert(!has_label(v, l));
        let n = v.series.len() as int;
        assert forall|l2: LabelView| has_label(v2, l2) <==> (has_label(v, l2) || l2 == l) by {
            assert(v2.series[n].label == l);
            if has_label(v2, l2) {
                let w = choose|w: int|
                    0 <= w < v2.series.len() && #[trigger] v2.series[w].label == l2;
                if w < n {
                    assert(v.series[w].label == l2);
                }
            }
            if has_label(v, l2) {
                let w = choose|w: int|
                    0 <= w < v.series.len() && #[trigger] v.series[w].label == l2;
                assert(v2.series[w].label == l2);
            }
        }
    }
}

/// A collector that has observed nothing.
pub open spec fn empty_view() -> MetricsView {
    MetricsView { series: Seq::empty() }
}

/// The collector after recording a whole sequence of requests, in order.
pub open spec fn record_all(v: MetricsView, rs: Seq<(LabelView, u64)>) -> MetricsView
    decreases rs.len(),
{
    if rs.len() == 0 {
        v
    } else {
        record_all(record_spec(v, rs[0].0, rs[0].1), rs.drop_first())
    }
}

/// The labels of a collector's series, in series order.
pub open spec fn label_seq(v: MetricsView) -> Seq<LabelView> {
    Seq::new(v.series.len(), |i: int| v.series[i].label)
}

/// In a well-formed collector there is one series per distinct label, so the
/// series count equals the label count.
proof fn lemma_series_count_is_label_count(v: MetricsView)
    requires
        view_wf(v),
    ensures
        label_seq(v).to_set().finite(),
        v.series.len() == label_seq(v).to_set().len(),
{
    broadcast use vstd::seq_lib::seq_to_set_is_finite;

    assert(label_seq(v).no_duplicates());
    label_seq(v).unique_seq_to_set();
}

proof fn lemma_record_all_bounded(v: MetricsView, rs: Seq<(LabelView, u64)>, labels: Set<LabelView>)
    requires
        labels.finite(),
        view_wf(v),
        forall|k: int| 0 <= k < rs.len() ==> labels.contains(#[trigger] rs[k].0),
        forall|i: int| 0 <= i < v.series.len() ==> labels.contains(#[trigger] v.series[i].label),
    ensures
        record_all(v, rs).series.len() <= labels.len(),
    decreases rs.len(),
{
    if rs.len() == 0 {
        lemma_series_count_is_label_count(v);
        assert(label_seq(v).to_set().subset_of(labels)) by {
            assert forall|l: LabelView| label_seq(v).to_set().contains(l) implies labels.contains(
                l,
            ) by {
                let w = choose|w: int|
                    0 <= w < label_seq(v).len() && #[trigger] label_seq(v)[w] == l;
                assert(labels.contains(v.series[w].label));
            }
        }
        vstd::set_lib::lemma_len_subset(label_seq(v).to_set(), labels);
    } else {
        let l = rs[0].0;
        let us = rs[0].1;
        let v2 = record_spec(v, l, us);
        lemma_record_wf(v, l, us);
        lemma_record_labels(v, l, us);
        assert forall|i: int| 0 <= i < v2.series.len() implies labels.contains(
            #[trigger] v2.series[i].label,
        ) by {
            let x = v2.series[i].label;
            assert(has_label(v2, x));
            if x == l {
                assert(labels.contains(rs[0].0));
            } else {
                assert(has_label(v, x));
                let w = choose|w: int| 0 <= w < v.series.len() && #[trigger] v.series[w].label == x;
                assert(labels.contains(v.series[w].label));
            }
        }
        assert(forall|k: int|
            0 <= k < rs.drop_first().len() ==> labels.contains(#[trigger] rs.drop_first()[k].0));
        lemma_record_all_bounded(v2, rs.drop_first(), labels);
    }
}

/// However many requests are recorded, the series count is bounded by the
/// number of distinct labels they carry — the distinct method, path and
/// status combinations — never by the number of requests.
pub proof fn lemma_series_growth_bounded(rs: Seq<(LabelView, u64)>, labels: Set<LabelView>)
    requires
        labels.finite(),
        forall|k: int| 0 <= k < rs.len() ==> labels.contains(#[trigger] rs[k].0),
    ensures
        record_all(empty_view(), rs).series.len() <= labels.len(),
{
    lemma_record_all_bounded(empty_view(), rs, labels);
}

/// The labels that can be built from the given methods, paths and statuses.
pub open spec fn label_product(
    methods: Set<Seq<char>>,
    paths: Set<Seq<char>>,
    statuses: Set<u16>,
) -> Set<LabelView> {
    Set::new(
        |l: LabelView|
            methods.contains(l.method) && paths.contains(l.path) && statuses.contains(l.status),
    )
}

proof fn lemma_product_statuses_len(m: Seq<char>, p: Seq<char>, statuses: Set<u16>)
    requires
        statuses.finite(),
    ensures
        label_product(set![m], set![p], statuses).finite(),
        label_product(set![m], set![p], statuses).len() == statuses.len(),
    decreases statuses.len(),
{
    broadcast use vstd::set::group_set_axioms;

    if statuses.len() == 0 {
        assert(label_product(set![m], set![p], statuses) =~= Set::empty());
    } else {
        let s = statuses.choose();
        assert(statuses.contains(s));
        let rest = statuses.remove(s);
        lemma_product_statuses_len(m, p, rest);
        let l = LabelView { method: m, path: p, status: s };
        assert(label_product(set![m], set![p], statuses) =~= label_product(
            set![m],
            set![p],
            rest,
        ).insert(l));
        assert(!label_product(set![m], set![p], rest).contains(l));
    }
}

proof fn lemma_product_paths_len(m: Seq<char>, paths: Set<Seq<char>>, statuses: Set<u16>)
    requires
        paths.finite(),
        statuses.finite(),
    ensures
        label_product(set![m], paths, statuses).finite(),
        label_product(set![m], paths, statuses).len() <= paths.len() * statuses.len(),
    decreases paths.len(),
{
    broadcast use vstd::set::group_set_axioms;

    if paths.len() == 0 {
        assert(label_product(set![m], paths, statuses) =~= Set::empty());
    } else {
        let p = paths.choose();
        assert(paths.contains(p));
        let rest = paths.remove(p);
        lemma_product_paths_len(m, rest, statuses);
        lemma_product_statuses_len(m, p, statuses);
        assert(label_product(set![m], paths, statuses) =~= label_product(
            set![m],
            rest,
            statuses,
        ).union(label_product(set![m], set![p], statuses)));
        vstd::set_lib::lemma_len_union(
            label_product(set![m], rest, statuses),
            label_product(set![m], set![p], statuses),
        );
        assert((paths.len() - 1) * statuses.len() + statuses.len() == paths.len()
            * statuses.len()) by (nonlinear_arith);
    }
}

proof fn lemma_label_product_len(
    methods: Set<Seq<char>>,
    paths: Set<Seq<char>>,
    statuses: Set<u16>,
)
    requires
        methods.finite(),
        paths.finite(),
        statuses.finite(),
    ensures
        label_product(methods, paths, statuses).finite(),
        label_product(methods, paths, statuses).len() <= methods.len() * paths.len()
            * statuses.len(),
    decreases methods.len(),
{
    broadcast use vstd::set::group_set_axioms;

    if methods.len() == 0 {
        assert(label_product(methods, paths, statuses) =~= Set::empty());
    } else {
        let m = methods.choose();
        assert(methods.contains(m));
        let rest = methods.remove(m);
        lemma_label_product_len(rest, paths, statuses);
        lemma_product_paths_len(m, paths, statuses);
        assert(label_product(methods, paths, statuses) =~= label_product(
            rest,
            paths,
            statuses,
        ).union(label_product(set![m], paths, statuses)));
        vstd::set_lib::lemma_len_union(
            label_product(rest, paths, statuses),
            label_product(set![m], paths, statuses),
        );
        let a = methods.len();
        let b = paths.len();
        let c = statuses.len();
        let r1 = label_product(rest, paths, statuses).len();
        let r2 = label_product(set![m], paths, statuses).len();
        let t = label_product(methods, paths, statuses).len();
        assert(t <= a * b * c) by (nonlinear_arith)
            requires
                r1 <= (a - 1) * b * c,
                r2 <= b * c,
                t <= r1 + r2,
                a >= 1,
        ;
    }
}

/// However many requests are recorded, the series count is bounded by the
/// number of distinct methods times the number of distinct paths times the
/// number of distinct statuses the requests carry — never by per-request
/// values.
pub proof fn lemma_series_growth_bounded_by_product(
    rs: Seq<(LabelView, u64)>,
    methods: Set<Seq<char>>,
    paths: Set<Seq<char>>,
    statuses: Set<u16>,
)
    requires
        methods.finite(),
        paths.finite(),
        statuses.finite(),
        forall|k: int|
            0 <= k < rs.len() ==> methods.contains((#[trigger] rs[k].0).method) && paths.contains(
                rs[k].0.path,
            ) && statuses.contains(rs[k].0.status),
    ensures
        record_all(empty_view(), rs).series.len() <= methods.len() * paths.len() * statuses.len(),
{
    lemma_label_product_len(methods, paths, statuses);
    assert(forall|k: int|
        0 <= k < rs.len() ==> label_product(methods, paths, statuses).contains(
            (#[trigger] rs[k].0),
        ));
    lemma_series_growth_bounded(rs, label_product(methods, paths, statuses));
}

/// No series changes for a path no recorded request carries: if no series is
/// keyed by path `p` and a request for a different path is recorded, still
/// no series is keyed by `p`.
pub proof fn lemma_path_stays_unmeasured(v: MetricsView, l: LabelView, us: u64, p: Seq<char>)
    requires
        view_wf(v),
        forall|i: int| 0 <= i < v.series.len() ==> (#[trigger] v.series[i].label).path != p,
        l.path != p,
    ensures
        forall|i: int|
            0 <= i < record_spec(v, l, us).series.len() ==> (#[trigger] record_spec(
                v,
                l,
                us,
            ).series[i].label).path != p,
{
    lemma_find_label_props(v.series, l);
}

} // verus!
