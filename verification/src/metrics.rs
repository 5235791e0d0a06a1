//! Request metrics: which requests are counted, the counter they are counted
//! in, and the text a scrape is answered with.
//!
//! The counters themselves are Prometheus's. What this module adds is the
//! rule that decides whether a request is counted, and it is that rule the
//! contracts pin down.

use vstd::prelude::*;
use crate::router::route_of;
use crate::text::{chars_of, has_prefix, starts_with};

verus! {

/// Name of the counter of handled requests.
pub const REQUEST_TOTAL_NAME: &'static str = "http_request_total";

/// Help text of the counter of handled requests.
pub const REQUEST_TOTAL_HELP: &'static str = "HTTP requests handled";

/// Name of the histogram of request durations.
pub const REQUEST_DURATION_NAME: &'static str = "http_request_duration_seconds";

/// Help text of the histogram of request durations.
pub const REQUEST_DURATION_HELP: &'static str = "HTTP requests duration";

/// Label under which the request method is counted.
pub const METHOD_LABEL: &'static str = "method";

/// Label under which the response status is counted.
pub const STATUS_LABEL: &'static str = "status";

/// Seconds between two samplings of the process's own resource usage.
pub const PROCESS_SAMPLING_INTERVAL_SECS: u64 = 60;

/// Upper bounds of the latency buckets, in milliseconds.
pub open spec fn latency_bounds_ms() -> Seq<u64> {
    seq![
        5u64,
        10u64,
        25u64,
        50u64,
        75u64,
        100u64,
        250u64,
        500u64,
        750u64,
        1000u64,
        2500u64,
        5000u64,
        7500u64,
        10000u64,
        25000u64,
        50000u64,
        100000u64,
    ]
}

/// Upper bounds of the latency buckets, in milliseconds and in increasing
/// order.
pub fn latency_buckets_ms() -> (bounds: Vec<u64>)
    ensures
        bounds@ == latency_bounds_ms(),
        forall|i: int, j: int| 0 <= i < j < bounds@.len() ==> bounds@[i] < bounds@[j],
{
    let bounds: Vec<u64> = vec![
        5,
        10,
        25,
        50,
        75,
        100,
        250,
        500,
        750,
        1000,
        2500,
        5000,
        7500,
        10000,
        25000,
        50000,
        100000,
    ];
    bounds
}

/// Whether requests for `path` are left out of the request metrics: the
/// scrape endpoint and the health check must not inflate what they report.
pub open spec fn is_exempt(path: Seq<char>) -> bool {
    has_prefix(path, "/metrics"@) || has_prefix(path, "/health"@)
}

/// Whether requests for `path` are left out of the request metrics.
pub fn exempt_from_metrics(path: &str) -> (exempt: bool)
    ensures
        exempt == is_exempt(path@),
{
    let chars = chars_of(path);
    let metrics = chars_of("/metrics");
    let health = chars_of("/health");
    starts_with(&chars, &metrics) || starts_with(&chars, &health)
}

/// The counter of handled requests, one count for each pair of method and
/// status.
///
/// It holds a `prometheus::IntCounterVec` made with exactly two labels.
/// Verus sees nothing inside; what it holds is named by [`request_count`].
#[verifier::external_body]
pub struct RequestCounter {
    inner: prometheus::IntCounterVec,
}

/// An error reported by Prometheus.
#[verifier::external_type_specification]
#[verifier::external_body]
pub struct ExPrometheusError(prometheus::Error);

/// A family of metrics as the registry hands it to an encoder.
#[verifier::external_type_specification]
#[verifier::external_body]
pub struct ExMetricFamily(prometheus::proto::MetricFamily);

/// How many requests `counter` has counted for `method` and `status`, the
/// status written in decimal as its label is.
pub uninterp spec fn request_count(counter: RequestCounter, method: Seq<char>, status: u16) -> u64;

/// The name, the help text and the two label names that `counter` was made
/// with, in that order. Under these a scrape shows its counts.
pub uninterp spec fn made_with(counter: RequestCounter) -> (
    Seq<char>,
    Seq<char>,
    Seq<char>,
    Seq<char>,
);

/// Whether the default registry has taken `counter` in, so that a scrape
/// shows its counts.
pub uninterp spec fn is_registered(counter: RequestCounter) -> bool;

/// Whether a family of metrics is of the untyped kind, which the text
/// encoder cannot write.
pub uninterp spec fn is_untyped(family: prometheus::proto::MetricFamily) -> bool;

/// What the text encoder makes of a list of families none of which is
/// untyped: their text, or `None` where it reports an error.
pub uninterp spec fn text_encoding(families: Seq<prometheus::proto::MetricFamily>) -> Option<
    Seq<char>,
>;

/// Whether an untyped family is among `families`.
pub open spec fn has_untyped(families: Seq<prometheus::proto::MetricFamily>) -> bool {
    exists|i: int| 0 <= i < families.len() && is_untyped(#[trigger] families[i])
}

/// The count that follows `n` in a counter of 64 bits.
pub open spec fn next_count(n: u64) -> u64 {
    if n == u64::MAX {
        0
    } else {
        (n + 1) as u64
    }
}

/// `prometheus::IntCounterVec::new` on `prometheus::Opts::new(name, help)`
/// with the two given label names. Prometheus checks the names and may
/// refuse them. A counter it returns is made with what was given and has
/// counted nothing yet.
#[verifier::external_body]
fn new_request_counter(name: &str, help: &str, first_label: &str, second_label: &str) -> (r: Result<
    RequestCounter,
    prometheus::Error,
>)
    ensures
        r matches Ok(counter) ==> made_with(counter) == (
            name@,
            help@,
            first_label@,
            second_label@,
        ),
        r matches Ok(counter) ==> forall|method: Seq<char>, status: u16|
            request_count(counter, method, status) == 0,
{
    match prometheus::IntCounterVec::new(
        prometheus::Opts::new(name, help),
        &[first_label, second_label],
    ) {
        Ok(inner) => Ok(RequestCounter { inner }),
        Err(e) => Err(e),
    }
}

/// `prometheus::register` on a handle to the counter. Whether the default
/// registry accepts it depends on what the process has registered before;
/// where it does, the counter is registered. Either way the counter is made
/// with what it was made with, and its counts are as they were.
#[verifier::external_body]
fn register_request_counter(counter: &mut RequestCounter) -> (r: Result<(), prometheus::Error>)
    ensures
        r is Ok ==> is_registered(*final(counter)),
        made_with(*final(counter)) == made_with(*old(counter)),
        forall|method: Seq<char>, status: u16| #[trigger]
            request_count(*final(counter), method, status) == request_count(
                *old(counter),
                method,
                status,
            ),
{
    prometheus::register(Box::new(counter.inner.clone()))
}

/// `with_label_values(..).inc()` on the counter: the count for `method` and
/// `status` goes up by one, and wraps to zero after the largest count. The
/// call cannot fail, as the counter has two labels and is given two values.
/// Prometheus keeps the counts by a hash of the label values, so another
/// pair may share the count: each other count stays, or goes up by one as
/// well. What the counter was made with and whether it is registered stay.
#[verifier::external_body]
fn increment(counter: &mut RequestCounter, method: &str, status: u16)
    ensures
        request_count(*final(counter), method@, status) == next_count(
            request_count(*old(counter), method@, status),
        ),
        forall|other: Seq<char>, code: u16|
            {
                let after = #[trigger] request_count(*final(counter), other, code);
                let before = request_count(*old(counter), other, code);
                after == before || after == next_count(before)
            },
        made_with(*final(counter)) == made_with(*old(counter)),
        is_registered(*final(counter)) == is_registered(*old(counter)),
{
    counter.inner.with_label_values(&[method, &format!("{}", status)]).inc()
}

/// `with_label_values(..).get()` on the counter: the count for `method` and
/// `status`.
#[verifier::external_body]
fn current_count(counter: &RequestCounter, method: &str, status: u16) -> (n: u64)
    ensures
        n == request_count(*counter, method@, status),
{
    counter.inner.with_label_values(&[method, &format!("{}", status)]).get()
}

/// `prometheus::gather`: the families of every collector in the default
/// registry, as they stand when called.
#[verifier::external_body]
fn gather_families() -> Vec<prometheus::proto::MetricFamily> {
    prometheus::gather()
}

/// `MetricFamily::get_field_type`, asked whether it is the untyped kind.
#[verifier::external_body]
fn family_is_untyped(family: &prometheus::proto::MetricFamily) -> (untyped: bool)
    ensures
        untyped == is_untyped(*family),
{
    match family.get_field_type() {
        prometheus::proto::MetricType::UNTYPED => true,
        prometheus::proto::MetricType::COUNTER => false,
        prometheus::proto::MetricType::GAUGE => false,
        prometheus::proto::MetricType::SUMMARY => false,
        prometheus::proto::MetricType::HISTOGRAM => false,
    }
}

/// `prometheus::TextEncoder::encode_to_string`: the families in the text
/// exposition format, which is a function of the families alone. The encoder
/// stops the process on an untyped family, so none may be among them; it
/// reports a family without a name or without a metric as an error.
#[verifier::external_body]
fn encode_text(families: &Vec<prometheus::proto::MetricFamily>) -> (r: Result<
    String,
    prometheus::Error,
>)
    requires
        !has_untyped(families@),
    ensures
        match r {
            Ok(text) => text_encoding(families@) == Some(text@),
            Err(_) => text_encoding(families@) is None,
        },
{
    prometheus::TextEncoder::new().encode_to_string(families)
}

/// Why the metrics could not be set up or rendered.
#[derive(Debug)]
pub enum MetricsError {
    /// Prometheus refused to create the request counter.
    Create(prometheus::Error),
    /// The default registry refused the request counter.
    Register(prometheus::Error),
    /// A collector reported a family that has no text form.
    UntypedFamily,
    /// The encoder failed.
    Encode(prometheus::Error),
}

/// The request metrics of the process.
pub struct RequestMetrics {
    total: RequestCounter,
}

impl RequestMetrics {
    /// How many requests have been counted for `method` and `status`.
    pub closed spec fn count(&self, method: Seq<char>, status: u16) -> u64 {
        request_count(self.total, method, status)
    }

    /// Whether the default registry has taken the counter in.
    pub closed spec fn registered(&self) -> bool {
        is_registered(self.total)
    }

    /// The name, the help text and the two label names of the counter, in
    /// that order.
    pub closed spec fn identity(&self) -> (Seq<char>, Seq<char>, Seq<char>, Seq<char>) {
        made_with(self.total)
    }

    /// Takes note of a handled request. A request for an exempt path changes
    /// nothing; any other adds one to the count of its method and status.
    /// Each other count stays as it was, or goes up by one where Prometheus
    /// keeps it together with the one counted. The result says whether the
    /// request was counted, and with it whether its latency is to be
    /// observed.
    pub fn record(&mut self, method: &str, path: &str, status: u16) -> (counted: bool)
        ensures
            counted == !is_exempt(path@),
            !counted ==> *final(self) == *old(self),
            counted ==> final(self).count(method@, status) == next_count(
                old(self).count(method@, status),
            ),
            forall|other: Seq<char>, code: u16|
                {
                    let after = #[trigger] final(self).count(other, code);
                    let before = old(self).count(other, code);
                    after == before || after == next_count(before)
                },
            final(self).registered() == old(self).registered(),
            final(self).identity() == old(self).identity(),
    {
        if exempt_from_metrics(path) {
            return false;
        }
        increment(&mut self.total, method, status);
        true
    }

    /// The number of requests counted so far for `method` and `status`.
    pub fn requests(&self, method: &str, status: u16) -> (n: u64)
        ensures
            n == self.count(method@, status),
    {
        current_count(&self.total, method, status)
    }
}

/// Creates the counter of handled requests and registers it with the
/// default registry. A counter that comes back is registered, goes by the
/// fixed name, help text and labels, and has counted nothing yet.
pub fn request_metrics() -> (r: Result<RequestMetrics, MetricsError>)
    ensures
        r matches Ok(metrics) ==> metrics.registered() && metrics.identity() == (
            REQUEST_TOTAL_NAME@,
            REQUEST_TOTAL_HELP@,
            METHOD_LABEL@,
            STATUS_LABEL@,
        ),
        r matches Ok(metrics) ==> forall|method: Seq<char>, status: u16|
            metrics.count(method, status) == 0,
        r matches Err(e) ==> e is Create || e is Register,
{
    let mut total = match new_request_counter(
        REQUEST_TOTAL_NAME,
        REQUEST_TOTAL_HELP,
        METHOD_LABEL,
        STATUS_LABEL,
    ) {
        Ok(total) => total,
        Err(e) => {
            return Err(MetricsError::Create(e));
        },
    };
    match register_request_counter(&mut total) {
        Ok(()) => Ok(RequestMetrics { total }),
        Err(e) => Err(MetricsError::Register(e)),
    }
}

/// Renders families of metrics in the text exposition format. An untyped
/// family has no text form and is reported as such; otherwise the result is
/// the encoder's, text or error.
pub fn render_families(families: &Vec<prometheus::proto::MetricFamily>) -> (r: Result<
    String,
    MetricsError,
>)
    ensures
        has_untyped(families@) ==> r matches Err(MetricsError::UntypedFamily),
        !has_untyped(families@) ==> match text_encoding(families@) {
            Some(text) => r matches Ok(rendered) && rendered@ == text,
            None => r matches Err(MetricsError::Encode(_)),
        },
{
    let mut i: usize = 0;
    while i < families.len()
        invariant
            i <= families.len(),
            forall|j: int| 0 <= j < i ==> !is_untyped(#[trigger] families@[j]),
        decreases families.len() - i,
    {
        if family_is_untyped(&families[i]) {
            return Err(MetricsError::UntypedFamily);
        }
        i += 1;
    }
    match encode_text(families) {
        Ok(text) => Ok(text),
        Err(e) => Err(MetricsError::Encode(e)),
    }
}

/// Whether `r` is what rendering `families` gives: the report of an untyped
/// family where one is among them, and otherwise the encoder's text for
/// them, or its error.
pub open spec fn is_rendering_of(
    families: Seq<prometheus::proto::MetricFamily>,
    r: Result<String, MetricsError>,
) -> bool {
    if has_untyped(families) {
        r matches Err(MetricsError::UntypedFamily)
    } else {
        match text_encoding(families) {
            Some(text) => r matches Ok(rendered) && rendered@ == text,
            None => r matches Err(MetricsError::Encode(_)),
        }
    }
}

/// Renders every metric of the default registry, as it stands now, in the
/// text exposition format. Which families the registry holds is the
/// registry's to say; the result is the rendering of those it handed over.
pub fn generate_metrics() -> (r: Result<String, MetricsError>)
    ensures
        exists|families: Seq<prometheus::proto::MetricFamily>| #[trigger]
            is_rendering_of(families, r),
        r matches Err(e) ==> e is UntypedFamily || e is Encode,
{
    let families = gather_families();
    let r = render_families(&families);
    assert(is_rendering_of(families@, r));
    r
}

/// The body a scrape is answered with: the rendered text, or nothing at all
/// when rendering failed. A scrape never fails for that reason.
pub fn metrics_body(rendered: Result<String, MetricsError>) -> (body: String)
    ensures
        body@ == match rendered {
            Ok(text) => text@,
            Err(_) => Seq::<char>::empty(),
        },
{
    match rendered {
        Ok(text) => text,
        Err(_) => String::new(),
    }
}

/// Requests that reach the health check or the scrape are never counted.
pub proof fn lemma_operational_routes_are_exempt(method: Seq<char>, path: Seq<char>)
    requires
        route_of(method, path) is Health || route_of(method, path) is Metrics,
    ensures
        is_exempt(path),
{
    assert(path.subrange(0, path.len() as int) =~= path);
}

/// Requests that reach the version or one of the three API routes are
/// always counted.
pub proof fn lemma_api_routes_are_counted(method: Seq<char>, path: Seq<char>)
    requires
        route_of(method, path) is Version || route_of(method, path) is Topic || route_of(
            method,
            path,
        ) is User || route_of(method, path) is Search,
    ensures
        !is_exempt(path),
{
    reveal_strlit("/metrics");
    reveal_strlit("/health");
    reveal_strlit("/version");
    reveal_strlit("/api/topic/");
    reveal_strlit("/api/user/");
    reveal_strlit("/api/search/");
    if has_prefix(path, "/metrics"@) {
        assert(path.subrange(0, 8)[1] == 'm');
    }
    if has_prefix(path, "/health"@) {
        assert(path.subrange(0, 7)[1] == 'h');
    }
    if has_prefix(path, "/api/topic/"@) {
        assert(path.subrange(0, 11)[1] == 'a');
    }
    if has_prefix(path, "/api/user/"@) {
        assert(path.subrange(0, 10)[1] == 'a');
    }
    if has_prefix(path, "/api/search/"@) {
        assert(path.subrange(0, 12)[1] == 'a');
    }
}

} // verus!
