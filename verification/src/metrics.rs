//! The metrics recorder: per route and outcome class a request counter and a
//! latency histogram, and their rendering as exposition text.

use crate::outcome::{class_at, class_from_index, OutcomeClass};
use crate::route::{route_at, route_from_index, Route};
use vstd::prelude::*;
use vstd::string::*;

verus! {

/// The aggregate of one route and outcome class, as a mathematical value.
pub struct SeriesValue {
    /// Requests recorded.
    pub count: nat,
    /// Sum of their elapsed times in milliseconds.
    pub total_millis: nat,
    /// For each bucket, the requests whose elapsed time is at most its bound.
    pub buckets: Seq<nat>,
}

/// One more, unless the counter has reached the largest value it can hold.
pub open spec fn bump(n: nat) -> nat {
    if n < u64::MAX {
        n + 1
    } else {
        n
    }
}

/// The sum, held at the largest value a counter can hold.
pub open spec fn capped_sum(a: nat, b: nat) -> nat {
    if a + b <= u64::MAX {
        a + b
    } else {
        u64::MAX as nat
    }
}

/// The upper bound of a bucket in milliseconds.
pub open spec fn bucket_bound(b: nat) -> nat {
    if b == 0 {
        10
    } else if b == 1 {
        50
    } else if b == 2 {
        250
    } else if b == 3 {
        1000
    } else {
        10000
    }
}

/// The position of the series of a route and an outcome class.
pub open spec fn series_key(route: Route, class: OutcomeClass) -> int {
    (route.rank() * 3 + class.rank()) as int
}

/// The series after one more request with the given elapsed time.
pub open spec fn observe(s: SeriesValue, elapsed: nat) -> SeriesValue {
    SeriesValue {
        count: bump(s.count),
        total_millis: capped_sum(s.total_millis, elapsed),
        buckets: Seq::new(
            5,
            |b: int|
                if elapsed <= bucket_bound(b as nat) {
                    bump(s.buckets[b])
                } else {
                    s.buckets[b]
                },
        ),
    }
}

/// All series after one more request: the series of the route and class has
/// observed it, every other series is as before.
pub open spec fn recorded(
    all: Seq<SeriesValue>,
    route: Route,
    class: OutcomeClass,
    elapsed: nat,
) -> Seq<SeriesValue> {
    all.update(series_key(route, class), observe(all[series_key(route, class)], elapsed))
}

/// The text of a decimal digit.
pub open spec fn digit_text(d: nat) -> Seq<char> {
    if d == 0 {
        "0"@
    } else if d == 1 {
        "1"@
    } else if d == 2 {
        "2"@
    } else if d == 3 {
        "3"@
    } else if d == 4 {
        "4"@
    } else if d == 5 {
        "5"@
    } else if d == 6 {
        "6"@
    } else if d == 7 {
        "7"@
    } else if d == 8 {
        "8"@
    } else {
        "9"@
    }
}

/// A number in decimal, without leading zeros.
pub open spec fn decimal(n: nat) -> Seq<char>
    decreases n,
{
    if n < 10 {
        digit_text(n)
    } else {
        decimal(n / 10) + digit_text(n % 10)
    }
}

/// The labels that name a series.
pub open spec fn labels(route: Route, class: OutcomeClass) -> Seq<char> {
    "route=\""@ + route.label_text() + "\",outcome=\""@ + class.label_text() + "\""@
}

/// The line of the request counter of a series.
pub open spec fn counter_line(route: Route, class: OutcomeClass, count: nat) -> Seq<char> {
    "http_requests_total{"@ + labels(route, class) + "} "@ + decimal(count) + "\n"@
}

/// The line of one finite histogram bucket.
pub open spec fn bucket_line(route: Route, class: OutcomeClass, b: nat, n: nat) -> Seq<char> {
    "http_request_duration_millis_bucket{"@ + labels(route, class) + ",le=\""@ + decimal(
        bucket_bound(b),
    ) + "\"} "@ + decimal(n) + "\n"@
}

/// The lines of the first `upto` buckets, in order.
pub open spec fn bucket_lines(
    route: Route,
    class: OutcomeClass,
    buckets: Seq<nat>,
    upto: nat,
) -> Seq<char>
    decreases upto,
{
    if upto == 0 {
        Seq::empty()
    } else {
        bucket_lines(route, class, buckets, (upto - 1) as nat) + bucket_line(
            route,
            class,
            (upto - 1) as nat,
            buckets[upto - 1],
        )
    }
}

/// The closing lines of a histogram: the unbounded bucket, the sum and the count.
pub open spec fn summary_lines(route: Route, class: OutcomeClass, s: SeriesValue) -> Seq<char> {
    "http_request_duration_millis_bucket{"@ + labels(route, class) + ",le=\"+Inf\"} "@ + decimal(
        s.count,
    ) + "\nhttp_request_duration_millis_sum{"@ + labels(route, class) + "} "@ + decimal(
        s.total_millis,
    ) + "\nhttp_request_duration_millis_count{"@ + labels(route, class) + "} "@ + decimal(s.count)
        + "\n"@
}

/// The text of one series: nothing before its first request, then its
/// counter line, its bucket lines and its closing lines.
pub open spec fn series_text(route: Route, class: OutcomeClass, s: SeriesValue) -> Seq<char> {
    if s.count == 0 {
        Seq::empty()
    } else {
        counter_line(route, class, s.count) + bucket_lines(route, class, s.buckets, 5)
            + summary_lines(route, class, s)
    }
}

/// The text of the first `upto` series, in the order of their keys.
pub open spec fn text_upto(all: Seq<SeriesValue>, upto: nat) -> Seq<char>
    decreases upto,
{
    if upto == 0 {
        Seq::empty()
    } else {
        text_upto(all, (upto - 1) as nat) + series_text(
            route_at((upto - 1) as nat / 3),
            class_at((upto - 1) as nat % 3),
            all[upto - 1],
        )
    }
}

/// The snapshot of all series as exposition text.
pub open spec fn exposition(all: Seq<SeriesValue>) -> Seq<char> {
    text_upto(all, 12)
}

/// Whether `part` stands somewhere in `text` as one piece.
pub open spec fn has_part(text: Seq<char>, part: Seq<char>) -> bool {
    exists|before: Seq<char>, after: Seq<char>| text == before + part + after
}

/// One recorded request counts exactly once: the counter of its route and
/// outcome class grows by one, and every other series stays as it was.
pub proof fn request_counts_exactly_once(
    all: Seq<SeriesValue>,
    route: Route,
    class: OutcomeClass,
    elapsed: nat,
)
    requires
        all.len() == 12,
        all[series_key(route, class)].count < u64::MAX,
    ensures
        recorded(all, route, class, elapsed)[series_key(route, class)].count == all[series_key(
            route,
            class,
        )].count + 1,
        forall|r: Route, c: OutcomeClass|
            r != route || c != class ==> #[trigger] recorded(all, route, class, elapsed)[series_key(
                r,
                c,
            )] == all[series_key(r, c)],
{
}

/// The recorder only grows: recording a request lowers no counter.
pub proof fn counters_never_shrink(
    all: Seq<SeriesValue>,
    route: Route,
    class: OutcomeClass,
    elapsed: nat,
    k: int,
)
    requires
        all.len() == 12,
        0 <= k < 12,
    ensures
        recorded(all, route, class, elapsed)[k].count >= all[k].count,
        recorded(all, route, class, elapsed)[k].total_millis >= all[k].total_millis
            || recorded(all, route, class, elapsed)[k].total_millis == u64::MAX,
{
}

/// The text of every series stands in the exposition text.
pub proof fn series_stands_in_text(all: Seq<SeriesValue>, k: nat, upto: nat)
    requires
        k < upto,
    ensures
        has_part(
            text_upto(all, upto),
            series_text(route_at(k / 3), class_at(k % 3), all[k as int]),
        ),
    decreases upto,
{
    let part = series_text(route_at(k / 3), class_at(k % 3), all[k as int]);
    let front = text_upto(all, (upto - 1) as nat);
    if upto == k + 1 {
        assert(text_upto(all, upto) =~= front + part + Seq::<char>::empty());
    } else {
        series_stands_in_text(all, k, (upto - 1) as nat);
        let (before, after) = choose|before: Seq<char>, after: Seq<char>|
            front == before + part + after;
        let last = series_text(
            route_at((upto - 1) as nat / 3),
            class_at((upto - 1) as nat % 3),
            all[upto - 1],
        );
        assert(text_upto(all, upto) =~= before + part + (after + last));
    }
}

/// After a request was recorded, the exposition text holds the counter line
/// of its route and outcome class, with a value one above the earlier count.
pub proof fn recorded_request_shows_in_text(
    all: Seq<SeriesValue>,
    route: Route,
    class: OutcomeClass,
    elapsed: nat,
)
    requires
        all.len() == 12,
        all[series_key(route, class)].count < u64::MAX,
    ensures
        has_part(
            exposition(recorded(all, route, class, elapsed)),
            counter_line(route, class, all[series_key(route, class)].count + 1),
        ),
{
    let k = series_key(route, class) as nat;
    let now = recorded(all, route, class, elapsed);
    let text = exposition(now);
    let line = counter_line(route, class, all[k as int].count + 1);
    assert(route_at(k / 3) == route);
    assert(class_at(k % 3) == class);
    series_stands_in_text(now, k, 12);
    let block = series_text(route, class, now[k as int]);
    let (before, after) = choose|before: Seq<char>, after: Seq<char>|
        text == before + block + after;
    let rest = bucket_lines(route, class, now[k as int].buckets, 5) + summary_lines(
        route,
        class,
        now[k as int],
    );
    assert(block =~= line + rest);
    assert(text =~= before + line + (rest + after));
}

fn digit_str(d: u64) -> (text: &'static str)
    requires
        d < 10,
    ensures
        text@ == digit_text(d as nat),
{
    if d == 0 {
        "0"
    } else if d == 1 {
        "1"
    } else if d == 2 {
        "2"
    } else if d == 3 {
        "3"
    } else if d == 4 {
        "4"
    } else if d == 5 {
        "5"
    } else if d == 6 {
        "6"
    } else if d == 7 {
        "7"
    } else if d == 8 {
        "8"
    } else {
        "9"
    }
}

/// Writes a number in decimal.
pub fn decimal_text(n: u64) -> (text: String)
    ensures
        text@ == decimal(n as nat),
    decreases n,
{
    if n < 10 {
        String::from_str(digit_str(n))
    } else {
        let mut text = decimal_text(n / 10);
        text.append(digit_str(n % 10));
        text
    }
}

fn bound_of(b: usize) -> (bound: u64)
    ensures
        bound == bucket_bound(b as nat),
{
    if b == 0 {
        10
    } else if b == 1 {
        50
    } else if b == 2 {
        250
    } else if b == 3 {
        1000
    } else {
        10000
    }
}

fn bumped(n: u64) -> (m: u64)
    ensures
        m == bump(n as nat),
{
    if n < u64::MAX {
        n + 1
    } else {
        n
    }
}

fn labels_text(route: Route, class: OutcomeClass) -> (text: String)
    ensures
        text@ == labels(route, class),
{
    let mut text = String::from_str("route=\"");
    text.append(route.label());
    text.append("\",outcome=\"");
    text.append(class.label());
    text.append("\"");
    text
}

/// The process-wide aggregate of all recorded requests. It only grows: no
/// operation takes a recorded request back.
pub struct MetricsRecorder {
    counts: Vec<u64>,
    totals: Vec<u64>,
    buckets: Vec<u64>,
}

impl View for MetricsRecorder {
    type V = Seq<SeriesValue>;

    closed spec fn view(&self) -> Seq<SeriesValue> {
        Seq::new(
            12,
            |k: int|
                SeriesValue {
                    count: self.counts@[k] as nat,
                    total_millis: self.totals@[k] as nat,
                    buckets: Seq::new(5, |b: int| self.buckets@[k * 5 + b] as nat),
                },
        )
    }
}

impl MetricsRecorder {
    /// The recorder holds one series for each route and outcome class.
    #[verifier::type_invariant]
    spec fn wf(&self) -> bool {
        &&& self.counts@.len() == 12
        &&& self.totals@.len() == 12
        &&& self.buckets@.len() == 60
    }

    /// Every recorder holds all twelve series, each with its five buckets.
    pub proof fn holds_all_series(&self)
        ensures
            self@.len() == 12,
            forall|k: int| 0 <= k < 12 ==> (#[trigger] self@[k]).buckets.len() == 5,
    {
    }

    /// A series before its first request.
    pub open spec fn empty_series() -> SeriesValue {
        SeriesValue { count: 0, total_millis: 0, buckets: Seq::new(5, |b: int| 0nat) }
    }

    /// The series of a recorder that has recorded nothing.
    pub open spec fn empty_value() -> Seq<SeriesValue> {
        Seq::new(12, |k: int| Self::empty_series())
    }

    /// A recorder that has recorded nothing.
    pub fn new() -> (r: MetricsRecorder)
        ensures
            r@ == Self::empty_value(),
    {
        let mut counts: Vec<u64> = Vec::new();
        let mut totals: Vec<u64> = Vec::new();
        let mut buckets: Vec<u64> = Vec::new();
        let mut k: usize = 0;
        while k < 12
            invariant
                k <= 12,
                counts@.len() == k,
                totals@.len() == k,
                forall|j: int| 0 <= j < k ==> counts@[j] == 0 && totals@[j] == 0,
            decreases 12 - k,
        {
            counts.push(0);
            totals.push(0);
            k = k + 1;
        }
        let mut b: usize = 0;
        while b < 60
            invariant
                b <= 60,
                buckets@.len() == b,
                forall|j: int| 0 <= j < b ==> buckets@[j] == 0,
            decreases 60 - b,
        {
            buckets.push(0);
            b = b + 1;
        }
        let r = MetricsRecorder { counts, totals, buckets };
        proof {
            assert forall|k: int| 0 <= k < 12 implies r@[k].buckets =~= Self::empty_series().buckets by {
            }
            assert(r@ =~~= Seq::new(12, |k: int| Self::empty_series()));
        }
        r
    }

    /// Records one completed request under its route and outcome class.
    pub fn record(&mut self, route: Route, class: OutcomeClass, elapsed_millis: u64)
        ensures
            final(self)@ == recorded(old(self)@, route, class, elapsed_millis as nat),
    {
        proof {
            use_type_invariant(&*self);
        }
        let ghost before = self@;
        let ghost old_buckets = self.buckets@;
        let ghost old_counts = self.counts@;
        let ghost old_totals = self.totals@;
        let k: usize = route.index() * 3 + class.index();
        let c: u64 = self.counts[k];
        let next: u64 = bumped(c);
        self.counts[k] = next;
        let t: u64 = self.totals[k];
        let sum: u64 = if t > u64::MAX - elapsed_millis {
            u64::MAX
        } else {
            t + elapsed_millis
        };
        self.totals[k] = sum;
        let mut b: usize = 0;
        while b < 5
            invariant
                b <= 5,
                k < 12,
                self.buckets@.len() == 60,
                old_buckets.len() == 60,
                old_counts.len() == 12,
                old_totals.len() == 12,
                self.counts@ == old_counts.update(k as int, bump(c as nat) as u64),
                self.totals@ == old_totals.update(k as int, sum),
                forall|j: int|
                    0 <= j < 60 ==> #[trigger] self.buckets@[j] == if k * 5 <= j < k * 5 + b
                        && elapsed_millis <= bucket_bound((j - k * 5) as nat) {
                        bump(old_buckets[j] as nat)
                    } else {
                        old_buckets[j] as nat
                    },
            decreases 5 - b,
        {
            if elapsed_millis <= bound_of(b) {
                let n: u64 = self.buckets[k * 5 + b];
                let more: u64 = bumped(n);
                self.buckets[k * 5 + b] = more;
            }
            b = b + 1;
        }
        proof {
            let after = self@;
            let want = recorded(before, route, class, elapsed_millis as nat);
            assert(after.len() == want.len());
            assert forall|i: int| 0 <= i < 12 implies after[i] == want[i] by {
                assert(after[i].buckets =~= want[i].buckets) by {
                    assert forall|x: int| 0 <= x < 5 implies after[i].buckets[x]
                        == want[i].buckets[x] by {
                        assert(after[i].buckets[x] == self.buckets@[i * 5 + x] as nat);
                        assert(before[i].buckets[x] == old_buckets[i * 5 + x] as nat);
                    }
                }
            }
            assert(after =~= want);
        }
    }

    /// The requests recorded under a route and outcome class.
    pub fn count(&self, route: Route, class: OutcomeClass) -> (n: u64)
        ensures
            n == self@[series_key(route, class)].count,
    {
        proof {
            use_type_invariant(self);
        }
        self.counts[route.index() * 3 + class.index()]
    }

    /// The sum of the elapsed times recorded under a route and outcome class.
    pub fn total_millis(&self, route: Route, class: OutcomeClass) -> (n: u64)
        ensures
            n == self@[series_key(route, class)].total_millis,
    {
        proof {
            use_type_invariant(self);
        }
        self.totals[route.index() * 3 + class.index()]
    }

    /// The requests of a route and outcome class that fell into a bucket, or
    /// `None` where the series has no bucket of that number.
    pub fn bucket(&self, route: Route, class: OutcomeClass, b: usize) -> (n: Option<u64>)
        ensures
            n.is_some() <==> b < 5,
            b < 5 ==> n.unwrap() == self@[series_key(route, class)].buckets[b as int],
    {
        proof {
            use_type_invariant(self);
        }
        if b < 5 {
            Some(self.buckets[(route.index() * 3 + class.index()) * 5 + b])
        } else {
            None
        }
    }

    fn series_block(&self, k: usize) -> (text: String)
        requires
            k < 12,
        ensures
            text@ == series_text(route_at(k as nat / 3), class_at(k as nat % 3), self@[k as int]),
    {
        proof {
            use_type_invariant(self);
        }
        let route = route_from_index(k / 3);
        let class = class_from_index(k % 3);
        let count: u64 = self.counts[k];
        if count == 0 {
            return String::new();
        }
        let names = labels_text(route, class);
        let count_text = decimal_text(count);
        let mut text = String::from_str("http_requests_total{");
        text.append(names.as_str());
        text.append("} ");
        text.append(count_text.as_str());
        text.append("\n");
        let mut lines = String::new();
        let mut b: usize = 0;
        while b < 5
            invariant
                b <= 5,
                k < 12,
                self.buckets@.len() == 60,
                names@ == labels(route, class),
                lines@ == bucket_lines(route, class, self@[k as int].buckets, b as nat),
            decreases 5 - b,
        {
            let mut line = String::from_str("http_request_duration_millis_bucket{");
            line.append(names.as_str());
            line.append(",le=\"");
            line.append(decimal_text(bound_of(b)).as_str());
            line.append("\"} ");
            line.append(decimal_text(self.buckets[k * 5 + b]).as_str());
            line.append("\n");
            lines.append(line.as_str());
            b = b + 1;
        }
        text.append(lines.as_str());
        let mut tail = String::from_str("http_request_duration_millis_bucket{");
        tail.append(names.as_str());
        tail.append(",le=\"+Inf\"} ");
        tail.append(count_text.as_str());
        tail.append("\nhttp_request_duration_millis_sum{");
        tail.append(names.as_str());
        tail.append("} ");
        tail.append(decimal_text(self.totals[k]).as_str());
        tail.append("\nhttp_request_duration_millis_count{");
        tail.append(names.as_str());
        tail.append("} ");
        tail.append(count_text.as_str());
        tail.append("\n");
        text.append(tail.as_str());
        text
    }

    /// Renders the snapshot of all series as exposition text. The recorder is
    /// only read.
    pub fn render(&self) -> (text: String)
        ensures
            text@ == exposition(self@),
    {
        let mut text = String::new();
        let mut k: usize = 0;
        while k < 12
            invariant
                k <= 12,
                text@ == text_upto(self@, k as nat),
            decreases 12 - k,
        {
            let block = self.series_block(k);
            text.append(block.as_str());
            k = k + 1;
        }
        text
    }
}

} // verus!
