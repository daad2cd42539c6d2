//! Trace correlation: identifiers, the inbound trace-context header and the
//! span of a request.

use vstd::prelude::*;

verus! {

/// The identifier of a trace: 128 bits, never zero.
#[derive(Clone, Copy, Debug)]
pub struct TraceId {
    raw: u128,
}

/// The identifier of a span: 64 bits, never zero.
#[derive(Clone, Copy, Debug)]
pub struct SpanId {
    raw: u64,
}

impl TraceId {
    #[verifier::type_invariant]
    spec fn is_set(self) -> bool {
        self.raw != 0
    }

    /// The identifier as a number.
    pub closed spec fn value(self) -> u128 {
        self.raw
    }

    /// Makes an identifier of a number; zero is no identifier.
    pub fn new(raw: u128) -> (id: Option<TraceId>)
        ensures
            id.is_some() <==> raw != 0,
            id.is_some() ==> id.unwrap().value() == raw,
    {
        if raw == 0 {
            None
        } else {
            Some(TraceId { raw })
        }
    }

    /// The identifier as a number, which is not zero.
    pub fn get(&self) -> (raw: u128)
        ensures
            raw == self.value(),
            raw != 0,
    {
        proof {
            use_type_invariant(self);
        }
        self.raw
    }

    /// The identifier as text: 32 lower-case hexadecimal digits.
    pub fn text(&self) -> (text: String)
        ensures
            text@ == lower_hex(self.value() as nat, 32),
            text@.len() == 32,
    {
        proof {
            lower_hex_has_width(self.value() as nat, 32);
        }
        trace_id_text(self.raw)
    }
}

impl SpanId {
    #[verifier::type_invariant]
    spec fn is_set(self) -> bool {
        self.raw != 0
    }

    /// The identifier as a number.
    pub closed spec fn value(self) -> u64 {
        self.raw
    }

    /// Makes an identifier of a number; zero is no identifier.
    pub fn new(raw: u64) -> (id: Option<SpanId>)
        ensures
            id.is_some() <==> raw != 0,
            id.is_some() ==> id.unwrap().value() == raw,
    {
        if raw == 0 {
            None
        } else {
            Some(SpanId { raw })
        }
    }

    /// The identifier as a number, which is not zero.
    pub fn get(&self) -> (raw: u64)
        ensures
            raw == self.value(),
            raw != 0,
    {
        proof {
            use_type_invariant(self);
        }
        self.raw
    }
}

/// The hexadecimal digit for a value below 16, in lower case.
pub open spec fn hex_char(d: nat) -> char {
    if d == 0 {
        '0'
    } else if d == 1 {
        '1'
    } else if d == 2 {
        '2'
    } else if d == 3 {
        '3'
    } else if d == 4 {
        '4'
    } else if d == 5 {
        '5'
    } else if d == 6 {
        '6'
    } else if d == 7 {
        '7'
    } else if d == 8 {
        '8'
    } else if d == 9 {
        '9'
    } else if d == 10 {
        'a'
    } else if d == 11 {
        'b'
    } else if d == 12 {
        'c'
    } else if d == 13 {
        'd'
    } else if d == 14 {
        'e'
    } else {
        'f'
    }
}

/// The last `width` hexadecimal digits of a number, most significant first,
/// padded with zeros on the left.
pub open spec fn lower_hex(n: nat, width: nat) -> Seq<char>
    decreases width,
{
    if width == 0 {
        Seq::empty()
    } else {
        lower_hex(n / 16, (width - 1) as nat).push(hex_char(n % 16))
    }
}

/// The text has exactly `width` digits.
pub proof fn lower_hex_has_width(n: nat, width: nat)
    ensures
        lower_hex(n, width).len() == width,
    decreases width,
{
    if width > 0 {
        lower_hex_has_width(n / 16, (width - 1) as nat);
    }
}

/// Formats a trace identifier with `opentelemetry::TraceId`'s `Display`, which
/// writes the 128-bit number with `{:032x}`: lower-case hexadecimal, padded
/// with zeros to 32 digits.
#[verifier::external_body]
fn trace_id_text(raw: u128) -> (text: String)
    ensures
        text@ == lower_hex(raw as nat, 32),
{
    format!("{}", opentelemetry::TraceId::from(raw))
}

/// The value of a lower-case hexadecimal digit, if the byte is one.
pub open spec fn hex_digit(b: u8) -> Option<nat> {
    if 0x30 <= b <= 0x39 {
        Some((b - 0x30) as nat)
    } else if 0x61 <= b <= 0x66 {
        Some((b - 0x61 + 10) as nat)
    } else {
        None
    }
}

/// Whether every byte is a lower-case hexadecimal digit.
pub open spec fn is_lower_hex(s: Seq<u8>) -> bool {
    forall|i: int| 0 <= i < s.len() ==> (#[trigger] hex_digit(s[i])).is_some()
}

/// The number that a run of hexadecimal digits writes, most significant first.
pub open spec fn hex_value(s: Seq<u8>) -> nat
    decreases s.len(),
{
    if s.len() == 0 {
        0
    } else {
        hex_value(s.drop_last()) * 16 + hex_digit(s.last()).unwrap_or(0)
    }
}

/// 16 to the power `k`.
pub open spec fn pow16(k: nat) -> nat
    decreases k,
{
    if k == 0 {
        1
    } else {
        16 * pow16((k - 1) as nat)
    }
}

proof fn pow16_grows(a: nat, b: nat)
    requires
        a <= b,
    ensures
        pow16(a) <= pow16(b),
    decreases b,
{
    if a < b {
        pow16_grows(a, (b - 1) as nat);
    }
}

proof fn pow16_of_31()
    ensures
        pow16(31) == 0x1000_0000_0000_0000_0000_0000_0000_0000nat,
{
    reveal_with_fuel(pow16, 32);
}

/// Reads the hexadecimal number written in `bytes[from..to]`.
fn read_hex(bytes: &[u8], from: usize, to: usize) -> (value: Option<u128>)
    requires
        from <= to <= bytes@.len(),
        to - from <= 32,
    ensures
        value.is_some() <==> is_lower_hex(bytes@.subrange(from as int, to as int)),
        value.is_some() ==> value.unwrap() == hex_value(bytes@.subrange(from as int, to as int)),
{
    let mut acc: u128 = 0;
    let mut i: usize = from;
    while i < to
        invariant
            from <= i <= to <= bytes@.len(),
            to - from <= 32,
            is_lower_hex(bytes@.subrange(from as int, i as int)),
            acc == hex_value(bytes@.subrange(from as int, i as int)),
            acc < pow16((i - from) as nat),
        decreases to - i,
    {
        let b: u8 = bytes[i];
        let d: u8 = if 0x30 <= b && b <= 0x39 {
            b - 0x30
        } else if 0x61 <= b && b <= 0x66 {
            b - 0x61 + 10
        } else {
            proof {
                let whole = bytes@.subrange(from as int, to as int);
                assert(whole[i - from] == b);
                assert(hex_digit(whole[i - from]).is_none());
            }
            return None;
        };
        proof {
            let before = bytes@.subrange(from as int, i as int);
            let after = bytes@.subrange(from as int, i + 1);
            assert(after.drop_last() =~= before);
            assert(after.last() == b);
            assert(hex_digit(b) == Some(d as nat));
            assert forall|j: int| 0 <= j < after.len() implies (#[trigger] hex_digit(
                after[j],
            )).is_some() by {
                if j < before.len() {
                    assert(after[j] == before[j]);
                }
            }
            pow16_grows((i - from) as nat, 31);
            pow16_of_31();
            reveal_with_fuel(pow16, 2);
        }
        acc = acc * 16 + (d as u128);
        i = i + 1;
    }
    Some(acc)
}

/// What an inbound trace-context header carries.
#[derive(Clone, Copy, Debug)]
pub struct TraceContext {
    pub trace_id: TraceId,
    pub span_id: SpanId,
    pub sampled: bool,
}

/// A trace context as plain numbers.
pub struct ContextValue {
    pub trace_id: nat,
    pub span_id: nat,
    pub sampled: bool,
}

impl TraceContext {
    /// The context as plain numbers.
    pub open spec fn value(self) -> ContextValue {
        ContextValue {
            trace_id: self.trace_id.value() as nat,
            span_id: self.span_id.value() as nat,
            sampled: self.sampled,
        }
    }
}

/// Whether a header value is a trace context: 55 bytes, the version `00`, a
/// trace identifier of 32 digits, a span identifier of 16 digits and flags of
/// 2 digits, joined by `-`, all digits lower-case hexadecimal, and neither
/// identifier zero.
pub open spec fn is_trace_context(h: Seq<u8>) -> bool {
    &&& h.len() == 55
    &&& h[0] == 0x30
    &&& h[1] == 0x30
    &&& h[2] == 0x2d
    &&& h[35] == 0x2d
    &&& h[52] == 0x2d
    &&& is_lower_hex(h.subrange(3, 35))
    &&& is_lower_hex(h.subrange(36, 52))
    &&& is_lower_hex(h.subrange(53, 55))
    &&& hex_value(h.subrange(3, 35)) != 0
    &&& hex_value(h.subrange(36, 52)) != 0
}

/// The context that a header value carries, if it is one. The lowest bit of
/// the flags says whether the trace is sampled.
pub open spec fn context_of(h: Seq<u8>) -> Option<ContextValue> {
    if is_trace_context(h) {
        Some(
            ContextValue {
                trace_id: hex_value(h.subrange(3, 35)),
                span_id: hex_value(h.subrange(36, 52)),
                sampled: hex_value(h.subrange(53, 55)) % 2 == 1,
            },
        )
    } else {
        None
    }
}

/// The context that a request carries: that of its header value, if it has
/// one and the value is a context.
pub open spec fn context_of_header(header: Option<Seq<u8>>) -> Option<ContextValue> {
    match header {
        Some(h) => context_of(h),
        None => None,
    }
}

/// The bytes of an optional header value.
pub open spec fn header_bytes(header: Option<&[u8]>) -> Option<Seq<u8>> {
    match header {
        Some(h) => Some(h@),
        None => None,
    }
}

/// Reads an inbound trace-context header. A value that is not a well-formed
/// context gives `None`.
pub fn parse_trace_context(header: &[u8]) -> (context: Option<TraceContext>)
    ensures
        context.is_some() <==> is_trace_context(header@),
        context.is_some() ==> Some(context.unwrap().value()) == context_of(header@),
{
    if header.len() != 55 {
        return None;
    }
    if header[0] != 0x30 || header[1] != 0x30 || header[2] != 0x2d || header[35] != 0x2d
        || header[52] != 0x2d {
        return None;
    }
    let trace = match read_hex(header, 3, 35) {
        Some(v) => v,
        None => {
            return None;
        },
    };
    let span = match read_hex(header, 36, 52) {
        Some(v) => v,
        None => {
            return None;
        },
    };
    let flags = match read_hex(header, 53, 55) {
        Some(v) => v,
        None => {
            return None;
        },
    };
    proof {
        hex_value_is_bounded(header@.subrange(36, 52));
        reveal_with_fuel(pow16, 17);
    }
    let span: u64 = span as u64;
    let trace_id = match TraceId::new(trace) {
        Some(id) => id,
        None => {
            return None;
        },
    };
    let span_id = match SpanId::new(span) {
        Some(id) => id,
        None => {
            return None;
        },
    };
    Some(TraceContext { trace_id, span_id, sampled: flags % 2 == 1 })
}

/// A run of `k` digits writes a number below 16 to the power `k`.
pub proof fn hex_value_is_bounded(s: Seq<u8>)
    requires
        is_lower_hex(s),
    ensures
        hex_value(s) < pow16(s.len()),
    decreases s.len(),
{
    if s.len() > 0 {
        let front = s.drop_last();
        assert forall|j: int| 0 <= j < front.len() implies (#[trigger] hex_digit(
            front[j],
        )).is_some() by {
            assert(front[j] == s[j]);
        }
        hex_value_is_bounded(front);
        assert(hex_digit(s.last()).is_some());
    }
}

/// The bytes of a text of hexadecimal digits.
pub open spec fn digit_bytes(text: Seq<char>) -> Seq<u8> {
    text.map_values(|c: char| c as u8)
}

/// A number that fits in `width` digits is read back from its text.
pub proof fn hex_text_reads_back(n: nat, width: nat)
    requires
        n < pow16(width),
    ensures
        is_lower_hex(digit_bytes(lower_hex(n, width))),
        hex_value(digit_bytes(lower_hex(n, width))) == n,
    decreases width,
{
    let bytes = digit_bytes(lower_hex(n, width));
    if width == 0 {
        assert(bytes.len() == 0);
    } else {
        let front = lower_hex(n / 16, (width - 1) as nat);
        hex_text_reads_back(n / 16, (width - 1) as nat);
        lower_hex_has_width(n / 16, (width - 1) as nat);
        let last = hex_char(n % 16) as u8;
        assert(bytes =~= digit_bytes(front).push(last));
        assert(bytes.drop_last() =~= digit_bytes(front));
        assert(bytes.last() == last);
        assert(hex_digit(last) == Some(n % 16));
        assert forall|i: int| 0 <= i < bytes.len() implies (#[trigger] hex_digit(
            bytes[i],
        )).is_some() by {
            if i < bytes.len() - 1 {
                assert(bytes[i] == digit_bytes(front)[i]);
            }
        }
    }
}

/// A run of lower-case digits is the text of the number that it writes.
pub proof fn hex_digits_write_back(s: Seq<u8>)
    requires
        is_lower_hex(s),
    ensures
        digit_bytes(lower_hex(hex_value(s), s.len())) == s,
    decreases s.len(),
{
    let text = lower_hex(hex_value(s), s.len());
    lower_hex_has_width(hex_value(s), s.len());
    if s.len() == 0 {
        assert(digit_bytes(text) =~= s);
    } else {
        let front = s.drop_last();
        assert forall|j: int| 0 <= j < front.len() implies (#[trigger] hex_digit(
            front[j],
        )).is_some() by {
            assert(front[j] == s[j]);
        }
        hex_digits_write_back(front);
        assert(hex_digit(s.last()).is_some());
        let d = hex_digit(s.last()).unwrap();
        assert(hex_value(s) / 16 == hex_value(front));
        assert(hex_value(s) % 16 == d);
        assert(hex_char(d) as u8 == s.last());
        assert(text == lower_hex(hex_value(front), front.len()).push(hex_char(d)));
        assert(digit_bytes(text) =~= digit_bytes(lower_hex(hex_value(front), front.len())).push(
            s.last(),
        ));
        assert(digit_bytes(text) =~= s);
    }
}

/// Two trace identifiers have the same text only if they are the same. So
/// the text of an identifier, which is never zero, is never the text of zero.
pub proof fn trace_text_names_one_trace(a: u128, b: u128)
    requires
        lower_hex(a as nat, 32) == lower_hex(b as nat, 32),
    ensures
        a == b,
{
    pow16_of_31();
    reveal_with_fuel(pow16, 2);
    hex_text_reads_back(a as nat, 32);
    hex_text_reads_back(b as nat, 32);
}

/// A request that carries a well-formed trace context is answered with the
/// trace identifier of that context: the text handed back is, digit for
/// digit, the identifier that the header holds.
pub proof fn inbound_trace_id_is_returned(h: Seq<u8>)
    requires
        is_trace_context(h),
    ensures
        digit_bytes(lower_hex(context_of(h).unwrap().trace_id, 32)) == h.subrange(3, 35),
{
    hex_digits_write_back(h.subrange(3, 35));
}

/// The span of one request.
#[derive(Clone, Copy, Debug)]
pub struct Span {
    trace_id: TraceId,
    span_id: SpanId,
    parent: Option<SpanId>,
    sampled: bool,
    started_millis: u64,
}

/// A span that has ended. A span ends by being turned into this value, so it
/// cannot end twice.
#[derive(Clone, Copy, Debug)]
pub struct ClosedSpan {
    pub trace_id: TraceId,
    pub span_id: SpanId,
    pub parent: Option<SpanId>,
    pub sampled: bool,
    pub started_millis: u64,
    pub elapsed_millis: u64,
}

impl Span {
    /// The identifier of the trace that the span belongs to.
    pub closed spec fn trace(self) -> u128 {
        self.trace_id.value()
    }

    /// The identifier of the span itself.
    pub closed spec fn id(self) -> u64 {
        self.span_id.value()
    }

    /// The span identifier of the parent, or `None` for a root span.
    pub closed spec fn parent_id(self) -> Option<u64> {
        match self.parent {
            Some(p) => Some(p.value()),
            None => None,
        }
    }

    /// Whether the span is meant to be exported.
    pub closed spec fn is_sampled(self) -> bool {
        self.sampled
    }

    /// The reading of the clock at which the span was opened, in milliseconds.
    pub closed spec fn started(self) -> u64 {
        self.started_millis
    }

    /// Whether the span starts a trace of its own.
    pub open spec fn is_root(self) -> bool {
        self.parent_id().is_none()
    }

    /// Whether this is the span that a request opens, given the value of its
    /// trace-context header, if it has one, the fresh identifiers and the
    /// clock. With a well-formed context the span is a child in the context's
    /// trace; otherwise it is the root of the fresh trace.
    pub open spec fn opened_for(
        self,
        header: Option<Seq<u8>>,
        fresh_trace: u128,
        fresh_span: u64,
        started_millis: u64,
    ) -> bool {
        &&& self.id() == fresh_span
        &&& self.started() == started_millis
        &&& self.trace() != 0
        &&& match context_of_header(header) {
            Some(c) => {
                &&& self.trace() == c.trace_id
                &&& self.parent_id().is_some()
                &&& self.parent_id().unwrap() == c.span_id
                &&& self.is_sampled() == c.sampled
            },
            None => {
                &&& self.trace() == fresh_trace
                &&& self.is_root()
                &&& self.is_sampled()
            },
        }
    }

    /// Whether `closed` is this span, ended at a reading of the clock.
    pub open spec fn ended_as(self, closed: ClosedSpan, ended_millis: u64) -> bool {
        &&& closed.trace_id.value() == self.trace()
        &&& closed.span_id.value() == self.id()
        &&& closed.parent.is_some() == self.parent_id().is_some()
        &&& closed.parent.is_some() ==> closed.parent.unwrap().value() == self.parent_id().unwrap()
        &&& closed.sampled == self.is_sampled()
        &&& closed.started_millis == self.started()
        &&& closed.elapsed_millis == if ended_millis >= self.started() {
            (ended_millis - self.started()) as u64
        } else {
            0
        }
    }

    /// Opens the span of a request. With a parent context the span joins the
    /// parent's trace as a child; without one it is the root of the fresh
    /// trace. Either way the fresh span identifier names it.
    pub fn start(
        parent: Option<TraceContext>,
        fresh_trace: TraceId,
        fresh_span: SpanId,
        started_millis: u64,
    ) -> (span: Span)
        ensures
            span.id() == fresh_span.value(),
            span.started() == started_millis,
            span.trace() != 0,
            match parent {
                Some(c) => span.trace() == c.trace_id.value() && span.parent_id() == Some(
                    c.span_id.value(),
                ) && span.is_sampled() == c.sampled,
                None => span.trace() == fresh_trace.value() && span.is_root()
                    && span.is_sampled(),
            },
    {
        proof {
            use_type_invariant(fresh_trace);
        }
        match parent {
            Some(c) => {
                proof {
                    use_type_invariant(c.trace_id);
                }
                Span {
                    trace_id: c.trace_id,
                    span_id: fresh_span,
                    parent: Some(c.span_id),
                    sampled: c.sampled,
                    started_millis,
                }
            },
            None => Span {
                trace_id: fresh_trace,
                span_id: fresh_span,
                parent: None,
                sampled: true,
                started_millis,
            },
        }
    }

    /// Opens the span of a request from the raw header value, if the request
    /// has one. A value that is no well-formed context counts as no parent.
    pub fn for_request(
        header: Option<&[u8]>,
        fresh_trace: TraceId,
        fresh_span: SpanId,
        started_millis: u64,
    ) -> (span: Span)
        ensures
            span.opened_for(
                header_bytes(header),
                fresh_trace.value(),
                fresh_span.value(),
                started_millis,
            ),
    {
        let parent = match header {
            Some(h) => parse_trace_context(h),
            None => None,
        };
        Span::start(parent, fresh_trace, fresh_span, started_millis)
    }

    /// The identifier of the trace that the span belongs to.
    pub fn trace_id(&self) -> (id: TraceId)
        ensures
            id.value() == self.trace(),
    {
        self.trace_id
    }

    /// The identifier of the span itself.
    pub fn span_id(&self) -> (id: SpanId)
        ensures
            id.value() == self.id(),
    {
        self.span_id
    }

    /// The span identifier of the parent, or `None` for a root span.
    pub fn parent(&self) -> (p: Option<SpanId>)
        ensures
            p.is_some() == self.parent_id().is_some(),
            p.is_some() ==> p.unwrap().value() == self.parent_id().unwrap(),
    {
        self.parent
    }

    /// Whether the span is meant to be exported.
    pub fn sampled(&self) -> (s: bool)
        ensures
            s == self.is_sampled(),
    {
        self.sampled
    }

    /// The reading of the clock at which the span was opened.
    pub fn started_millis(&self) -> (t: u64)
        ensures
            t == self.started(),
    {
        self.started_millis
    }

    /// The trace identifier as it is handed back to the caller: 32 lower-case
    /// hexadecimal digits, never all zero and never empty.
    pub fn trace_id_text(&self) -> (text: String)
        ensures
            text@ == lower_hex(self.trace() as nat, 32),
            text@.len() == 32,
            self.trace() != 0,
    {
        proof {
            use_type_invariant(self.trace_id);
        }
        self.trace_id.text()
    }

    /// Ends the span at a reading of the clock. The clock may have gone
    /// backwards: the elapsed time is then zero.
    pub fn close(self, ended_millis: u64) -> (closed: ClosedSpan)
        ensures
            self.ended_as(closed, ended_millis),
    {
        let elapsed: u64 = if ended_millis >= self.started_millis {
            ended_millis - self.started_millis
        } else {
            0
        };
        ClosedSpan {
            trace_id: self.trace_id,
            span_id: self.span_id,
            parent: self.parent,
            sampled: self.sampled,
            started_millis: self.started_millis,
            elapsed_millis: elapsed,
        }
    }
}

} // verus!
