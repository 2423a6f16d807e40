use crate::text::decimal;
use vstd::prelude::*;

verus! {

/// The counters and gauges of the daemon.  A counter that has reached the
/// largest number that it can hold starts again from zero.
#[derive(Clone, Copy, Debug, Default, PartialEq, Eq, Structural)]
pub struct Metrics {
    pub span_writes_total: u64,
    pub span_reads_total: u64,
    pub trace_writes_total: u64,
    pub trace_reads_total: u64,
    pub sse_connections_total: u64,
    pub api_requests_total: u64,
    pub api_errors_total: u64,
    pub sse_connections_active: u64,
    pub span_count: u64,
    pub trace_count: u64,
    pub span_write_latency_sum_us: u64,
    pub span_write_latency_count: u64,
    pub api_latency_sum_us: u64,
    pub api_latency_count: u64,
}

/// The sum of two counts, starting again from zero past the largest.
pub open spec fn wrap_add(a: u64, b: u64) -> u64 {
    if a + b > u64::MAX {
        (a + b - u64::MAX - 1) as u64
    } else {
        (a + b) as u64
    }
}

/// One less than a count, and the largest count below zero.
pub open spec fn wrap_dec(a: u64) -> u64 {
    if a == 0 {
        u64::MAX
    } else {
        (a - 1) as u64
    }
}

fn bump(a: u64, b: u64) -> (r: u64)
    ensures
        r == wrap_add(a, b),
{
    if a > u64::MAX - b {
        a - (u64::MAX - b) - 1
    } else {
        a + b
    }
}

/// Ten to the power of `places`.
pub open spec fn pow10(places: nat) -> nat
    decreases places,
{
    if places == 0 {
        1
    } else {
        10 * pow10((places - 1) as nat)
    }
}

/// `n` in at least `places` decimal digits, with zeros in front.
pub open spec fn padded(n: nat, places: nat) -> Seq<char>
    decreases places,
{
    if places == 0 {
        Seq::empty()
    } else {
        padded(n / 10, (places - 1) as nat).push(crate::text::digit_char((n % 10) as int))
    }
}

/// The number `scaled / 10^places`, written with `places` digits after
/// the point.
pub open spec fn fixed_point(scaled: nat, places: nat) -> Seq<char> {
    decimal(scaled / pow10(places)) + seq!['.'] + padded(scaled % pow10(places), places)
}

/// The quotient `num / den`, rounded to the nearest whole number, a half
/// rounded up; zero where `den` is zero.
pub open spec fn rounded_div(num: nat, den: nat) -> nat {
    if den == 0 {
        0
    } else {
        (2 * num + den) / (2 * den)
    }
}

/// A mean latency in milliseconds with three digits after the point, from
/// a sum in microseconds and a count: zero where nothing was counted.
pub open spec fn mean_ms(sum_us: u64, count: u64) -> Seq<char> {
    fixed_point(rounded_div(sum_us as nat, count as nat), 3)
}

/// A rate with six digits after the point: zero where nothing was
/// counted.
pub open spec fn rate(part: u64, whole: u64) -> Seq<char> {
    fixed_point(rounded_div(part as nat * 1_000_000, whole as nat), 6)
}

/// One metric in the text format of Prometheus: its help, its type and
/// its value, a line each.
pub open spec fn metric_block(
    name: Seq<char>,
    help: Seq<char>,
    kind: Seq<char>,
    value: Seq<char>,
) -> Seq<char> {
    "# HELP "@ + name + " "@ + help + "\n"@ + "# TYPE "@ + name + " "@ + kind + "\n"@ + name
        + " "@ + value + "\n"@
}

fn push_str(out: &mut Vec<char>, s: &str)
    ensures
        final(out)@ == old(out)@ + s@,
{
    let chars = crate::text::to_chars(s);
    crate::text::append(out, &chars);
}

fn push_metric(out: &mut Vec<char>, name: &str, help: &str, kind: &str, value: &Vec<char>)
    ensures
        final(out)@ == old(out)@ + metric_block(name@, help@, kind@, value@),
{
    let ghost before = out@;
    push_str(out, "# HELP ");
    push_str(out, name);
    push_str(out, " ");
    push_str(out, help);
    push_str(out, "\n");
    push_str(out, "# TYPE ");
    push_str(out, name);
    push_str(out, " ");
    push_str(out, kind);
    push_str(out, "\n");
    push_str(out, name);
    push_str(out, " ");
    crate::text::append(out, value);
    push_str(out, "\n");
    assert(out@ =~= before + metric_block(name@, help@, kind@, value@));
}

fn number(n: u64) -> (v: Vec<char>)
    ensures
        v@ == decimal(n as nat),
{
    let mut v: Vec<char> = Vec::new();
    crate::text::push_decimal(&mut v, n as u128);
    v
}

fn push_padded(out: &mut Vec<char>, n: u128, places: u32)
    ensures
        final(out)@ == old(out)@ + padded(n as nat, places as nat),
    decreases places,
{
    if places > 0 {
        push_padded(out, n / 10, places - 1);
        let d = (n % 10) as u64;
        let c = if d == 0 {
            '0'
        } else if d == 1 {
            '1'
        } else if d == 2 {
            '2'
        } else if d == 3 {
            '3'
        } else if d == 4 {
            '4'
        } else if d == 5 {
            '5'
        } else if d == 6 {
            '6'
        } else if d == 7 {
            '7'
        } else if d == 8 {
            '8'
        } else {
            '9'
        };
        out.push(c);
        assert(out@ =~= old(out)@ + padded(n as nat, places as nat));
    } else {
        assert(out@ =~= old(out)@ + padded(n as nat, places as nat));
    }
}

/// The number `scaled / unit`, where `unit` is ten to the power of
/// `places`, written with `places` digits after the point.
pub(crate) fn fixed(scaled: u128, places: u32, unit: u128) -> (v: Vec<char>)
    requires
        unit == pow10(places as nat),
        unit > 0,
    ensures
        v@ == fixed_point(scaled as nat, places as nat),
{
    let mut v: Vec<char> = Vec::new();
    crate::text::push_decimal(&mut v, scaled / unit);
    v.push('.');
    push_padded(&mut v, scaled % unit, places);
    assert(v@ =~= fixed_point(scaled as nat, places as nat));
    v
}

fn divide(num: u128, den: u64) -> (q: u128)
    requires
        num <= 0xffff_ffff_ffff_ffff * 1_000_000,
    ensures
        q == rounded_div(num as nat, den as nat),
{
    if den == 0 {
        0
    } else {
        (2 * num + den as u128) / (2 * den as u128)
    }
}

proof fn lemma_pow10()
    ensures
        pow10(3) == 1000,
        pow10(6) == 1_000_000,
{
    reveal_with_fuel(pow10, 7);
}

impl Metrics {
    /// Every counter and gauge at zero.
    pub fn new() -> (m: Metrics)
        ensures
            m == (Metrics {
                span_writes_total: 0,
                span_reads_total: 0,
                trace_writes_total: 0,
                trace_reads_total: 0,
                sse_connections_total: 0,
                api_requests_total: 0,
                api_errors_total: 0,
                sse_connections_active: 0,
                span_count: 0,
                trace_count: 0,
                span_write_latency_sum_us: 0,
                span_write_latency_count: 0,
                api_latency_sum_us: 0,
                api_latency_count: 0,
            }),
    {
        Metrics {
            span_writes_total: 0,
            span_reads_total: 0,
            trace_writes_total: 0,
            trace_reads_total: 0,
            sse_connections_total: 0,
            api_requests_total: 0,
            api_errors_total: 0,
            sse_connections_active: 0,
            span_count: 0,
            trace_count: 0,
            span_write_latency_sum_us: 0,
            span_write_latency_count: 0,
            api_latency_sum_us: 0,
            api_latency_count: 0,
        }
    }

    /// Counts the write of a span that took `duration_us` microseconds.
    pub fn record_span_write(&mut self, duration_us: u64)
        ensures
            *final(self) == (Metrics {
                span_writes_total: wrap_add(old(self).span_writes_total, 1),
                span_write_latency_sum_us: wrap_add(
                    old(self).span_write_latency_sum_us,
                    duration_us,
                ),
                span_write_latency_count: wrap_add(old(self).span_write_latency_count, 1),
                ..*old(self)
            }),
    {
        self.span_writes_total = bump(self.span_writes_total, 1);
        self.span_write_latency_sum_us = bump(self.span_write_latency_sum_us, duration_us);
        self.span_write_latency_count = bump(self.span_write_latency_count, 1);
    }

    /// Counts the read of a span.
    pub fn record_span_read(&mut self)
        ensures
            *final(self) == (Metrics {
                span_reads_total: wrap_add(old(self).span_reads_total, 1),
                ..*old(self)
            }),
    {
        self.span_reads_total = bump(self.span_reads_total, 1);
    }

    /// Counts the write of a trace.
    pub fn record_trace_write(&mut self)
        ensures
            *final(self) == (Metrics {
                trace_writes_total: wrap_add(old(self).trace_writes_total, 1),
                ..*old(self)
            }),
    {
        self.trace_writes_total = bump(self.trace_writes_total, 1);
    }

    /// Counts a request that took `duration_us` microseconds, and an error
    /// where it ended in one.
    pub fn record_api_request(&mut self, duration_us: u64, is_error: bool)
        ensures
            *final(self) == (Metrics {
                api_requests_total: wrap_add(old(self).api_requests_total, 1),
                api_errors_total: if is_error {
                    wrap_add(old(self).api_errors_total, 1)
                } else {
                    old(self).api_errors_total
                },
                api_latency_sum_us: wrap_add(old(self).api_latency_sum_us, duration_us),
                api_latency_count: wrap_add(old(self).api_latency_count, 1),
                ..*old(self)
            }),
    {
        self.api_requests_total = bump(self.api_requests_total, 1);
        if is_error {
            self.api_errors_total = bump(self.api_errors_total, 1);
        }
        self.api_latency_sum_us = bump(self.api_latency_sum_us, duration_us);
        self.api_latency_count = bump(self.api_latency_count, 1);
    }

    /// Counts a subscriber that came.
    pub fn sse_connect(&mut self)
        ensures
            *final(self) == (Metrics {
                sse_connections_total: wrap_add(old(self).sse_connections_total, 1),
                sse_connections_active: wrap_add(old(self).sse_connections_active, 1),
                ..*old(self)
            }),
    {
        self.sse_connections_total = bump(self.sse_connections_total, 1);
        self.sse_connections_active = bump(self.sse_connections_active, 1);
    }

    /// Counts a subscriber that left.
    pub fn sse_disconnect(&mut self)
        ensures
            *final(self) == (Metrics {
                sse_connections_active: wrap_dec(old(self).sse_connections_active),
                ..*old(self)
            }),
    {
        self.sse_connections_active = if self.sse_connections_active == 0 {
            u64::MAX
        } else {
            self.sse_connections_active - 1
        };
    }

    /// Sets the numbers of spans and traces.
    pub fn update_counts(&mut self, spans: u64, traces: u64)
        ensures
            *final(self) == (Metrics { span_count: spans, trace_count: traces, ..*old(self) }),
    {
        self.span_count = spans;
        self.trace_count = traces;
    }

    /// The metrics in the text format of Prometheus.
    pub open spec fn prometheus_text(self) -> Seq<char> {
        metric_block(
            "llmfs_span_writes_total"@,
            "Total number of span write operations"@,
            "counter"@,
            decimal(self.span_writes_total as nat),
        ) + metric_block(
            "llmfs_span_reads_total"@,
            "Total number of span read operations"@,
            "counter"@,
            decimal(self.span_reads_total as nat),
        ) + metric_block(
            "llmfs_trace_writes_total"@,
            "Total number of trace write operations"@,
            "counter"@,
            decimal(self.trace_writes_total as nat),
        ) + metric_block(
            "llmfs_api_requests_total"@,
            "Total number of API requests"@,
            "counter"@,
            decimal(self.api_requests_total as nat),
        ) + metric_block(
            "llmfs_api_errors_total"@,
            "Total number of API errors"@,
            "counter"@,
            decimal(self.api_errors_total as nat),
        ) + metric_block(
            "llmfs_sse_connections_total"@,
            "Total SSE connections (cumulative)"@,
            "counter"@,
            decimal(self.sse_connections_total as nat),
        ) + metric_block(
            "llmfs_sse_connections_active"@,
            "Current active SSE connections"@,
            "gauge"@,
            decimal(self.sse_connections_active as nat),
        ) + metric_block(
            "llmfs_span_count"@,
            "Current number of spans in storage"@,
            "gauge"@,
            decimal(self.span_count as nat),
        ) + metric_block(
            "llmfs_trace_count"@,
            "Current number of traces in storage"@,
            "gauge"@,
            decimal(self.trace_count as nat),
        ) + metric_block(
            "llmfs_span_write_latency_ms"@,
            "Average span write latency in milliseconds"@,
            "gauge"@,
            mean_ms(self.span_write_latency_sum_us, self.span_write_latency_count),
        ) + metric_block(
            "llmfs_api_latency_ms"@,
            "Average API latency in milliseconds"@,
            "gauge"@,
            mean_ms(self.api_latency_sum_us, self.api_latency_count),
        ) + metric_block(
            "llmfs_error_rate"@,
            "Current API error rate (0-1)"@,
            "gauge"@,
            rate(self.api_errors_total, self.api_requests_total),
        )
    }

    /// The metrics in the text format of Prometheus: each counter and
    /// gauge, the two mean latencies in milliseconds, and the rate of
    /// errors among the requests.
    pub fn export_prometheus(&self) -> (s: String)
        ensures
            s@ == self.prometheus_text(),
    {
        proof {
            lemma_pow10();
        }
        let mut out: Vec<char> = Vec::new();
        push_metric(
            &mut out,
            "llmfs_span_writes_total",
            "Total number of span write operations",
            "counter",
            &number(self.span_writes_total),
        );
        push_metric(
            &mut out,
            "llmfs_span_reads_total",
            "Total number of span read operations",
            "counter",
            &number(self.span_reads_total),
        );
        push_metric(
            &mut out,
            "llmfs_trace_writes_total",
            "Total number of trace write operations",
            "counter",
            &number(self.trace_writes_total),
        );
        push_metric(
            &mut out,
            "llmfs_api_requests_total",
            "Total number of API requests",
            "counter",
            &number(self.api_requests_total),
        );
        push_metric(
            &mut out,
            "llmfs_api_errors_total",
            "Total number of API errors",
            "counter",
            &number(self.api_errors_total),
        );
        push_metric(
            &mut out,
            "llmfs_sse_connections_total",
            "Total SSE connections (cumulative)",
            "counter",
            &number(self.sse_connections_total),
        );
        push_metric(
            &mut out,
            "llmfs_sse_connections_active",
            "Current active SSE connections",
            "gauge",
            &number(self.sse_connections_active),
        );
        push_metric(
            &mut out,
            "llmfs_span_count",
            "Current number of spans in storage",
            "gauge",
            &number(self.span_count),
        );
        push_metric(
            &mut out,
            "llmfs_trace_count",
            "Current number of traces in storage",
            "gauge",
            &number(self.trace_count),
        );
        let write_mean = fixed(
            divide(self.span_write_latency_sum_us as u128, self.span_write_latency_count),
            3,
            1000,
        );
        push_metric(
            &mut out,
            "llmfs_span_write_latency_ms",
            "Average span write latency in milliseconds",
            "gauge",
            &write_mean,
        );
        let api_mean = fixed(divide(self.api_latency_sum_us as u128, self.api_latency_count), 3, 1000);
        push_metric(
            &mut out,
            "llmfs_api_latency_ms",
            "Average API latency in milliseconds",
            "gauge",
            &api_mean,
        );
        let error_rate = fixed(
            divide(self.api_errors_total as u128 * 1_000_000, self.api_requests_total),
            6,
            1_000_000,
        );
        push_metric(
            &mut out,
            "llmfs_error_rate",
            "Current API error rate (0-1)",
            "gauge",
            &error_rate,
        );
        assert(out@ =~= self.prometheus_text());
        crate::text::from_chars(&out)
    }
}

/// `std::time::Instant`, of which nothing is known here.
#[verifier::external_type_specification]
#[verifier::external_body]
pub struct ExInstant(std::time::Instant);

/// Calls `Instant::now`.  Trusted; nothing is claimed of the instant.
#[verifier::external_body]
fn instant_now() -> std::time::Instant {
    std::time::Instant::now()
}

/// Calls `Instant::elapsed`.  Trusted; nothing is claimed of the time
/// that has passed.
#[verifier::external_body]
fn elapsed_since(start: &std::time::Instant) -> core::time::Duration {
    start.elapsed()
}

/// Measures how long something takes.
pub struct Timer {
    start: std::time::Instant,
}

impl Timer {
    /// A timer that starts now.
    pub fn start() -> Timer {
        Timer { start: instant_now() }
    }

    /// The time since the timer started.
    pub fn elapsed(&self) -> core::time::Duration {
        elapsed_since(&self.start)
    }
}

} // verus!
