//! The finite vocabulary of provider telemetry: metric names, tag keys and
//! values, and the bounded failure projection that may reach a client. Raw
//! provider diagnostics never enter any of them.

use vstd::prelude::*;

use crate::decimal::{decimal, push_decimal};

verus! {

/// How a provider request delivers its response.
#[derive(Clone, Copy, Debug, PartialEq, Eq, Structural)]
pub enum ProviderMode {
    Buffered,
    Stream,
}

pub open spec fn mode_text(mode: ProviderMode) -> Seq<char> {
    match mode {
        ProviderMode::Buffered => "buffered"@,
        ProviderMode::Stream => "stream"@,
    }
}

impl ProviderMode {
    pub fn as_str(self) -> (s: &'static str)
        ensures
            s@ == mode_text(self),
    {
        match self {
            ProviderMode::Buffered => "buffered",
            ProviderMode::Stream => "stream",
        }
    }
}

/// What became of a failed provider attempt.
#[derive(Clone, Copy, Debug, PartialEq, Eq, Structural)]
pub enum RetryDisposition {
    RetryScheduled,
    RetryExhausted,
    NonRetryable,
    PartialOutputVisible,
}

pub open spec fn disposition_text(d: RetryDisposition) -> Seq<char> {
    match d {
        RetryDisposition::RetryScheduled => "retry_scheduled"@,
        RetryDisposition::RetryExhausted => "retry_exhausted"@,
        RetryDisposition::NonRetryable => "non_retryable"@,
        RetryDisposition::PartialOutputVisible => "partial_output_visible"@,
    }
}

impl RetryDisposition {
    pub fn as_str(self) -> (s: &'static str)
        ensures
            s@ == disposition_text(self),
    {
        match self {
            RetryDisposition::RetryScheduled => "retry_scheduled",
            RetryDisposition::RetryExhausted => "retry_exhausted",
            RetryDisposition::NonRetryable => "non_retryable",
            RetryDisposition::PartialOutputVisible => "partial_output_visible",
        }
    }
}

/// The disposition of a failed attempt: scheduled when the retry policy
/// retries it, exhausted when its category is retryable but no attempt is
/// left, and non-retryable otherwise.
pub fn retry_disposition(retryable: bool, category_retryable: bool) -> (d: RetryDisposition)
    ensures
        d == if retryable {
            RetryDisposition::RetryScheduled
        } else if category_retryable {
            RetryDisposition::RetryExhausted
        } else {
            RetryDisposition::NonRetryable
        },
{
    if retryable {
        RetryDisposition::RetryScheduled
    } else if category_retryable {
        RetryDisposition::RetryExhausted
    } else {
        RetryDisposition::NonRetryable
    }
}

/// The provider metrics that can be recorded.
#[derive(Clone, Copy, Debug, PartialEq, Eq, Structural)]
pub enum ProviderMetric {
    ProviderAttemptTotal,
    ProviderRetryTotal,
    ProviderRetryDelayMs,
    ProviderGenerationMs,
    ProviderRateLimitedTotal,
    RateLimitNotificationFailureTotal,
}

pub open spec fn metric_name(m: ProviderMetric) -> Seq<char> {
    match m {
        ProviderMetric::ProviderAttemptTotal => "vtcode.acp.provider_attempt_total"@,
        ProviderMetric::ProviderRetryTotal => "vtcode.acp.provider_retry_total"@,
        ProviderMetric::ProviderRetryDelayMs => "vtcode.acp.provider_retry_delay_ms"@,
        ProviderMetric::ProviderGenerationMs => "vtcode.acp.provider_generation_ms"@,
        ProviderMetric::ProviderRateLimitedTotal => "vtcode.acp.provider_rate_limited_total"@,
        ProviderMetric::RateLimitNotificationFailureTotal =>
            "vtcode.acp.rate_limit_notification_failure_total"@,
    }
}

impl ProviderMetric {
    /// The metric's name.
    pub fn name(self) -> (s: &'static str)
        ensures
            s@ == metric_name(self),
    {
        match self {
            ProviderMetric::ProviderAttemptTotal => "vtcode.acp.provider_attempt_total",
            ProviderMetric::ProviderRetryTotal => "vtcode.acp.provider_retry_total",
            ProviderMetric::ProviderRetryDelayMs => "vtcode.acp.provider_retry_delay_ms",
            ProviderMetric::ProviderGenerationMs => "vtcode.acp.provider_generation_ms",
            ProviderMetric::ProviderRateLimitedTotal => "vtcode.acp.provider_rate_limited_total",
            ProviderMetric::RateLimitNotificationFailureTotal =>
                "vtcode.acp.rate_limit_notification_failure_total",
        }
    }
}

/// Distinct metrics have distinct names.
pub proof fn law_metric_names_are_distinct(a: ProviderMetric, b: ProviderMetric)
    requires
        a != b,
    ensures
        metric_name(a) != metric_name(b),
{
    reveal_strlit("vtcode.acp.provider_attempt_total");
    reveal_strlit("vtcode.acp.provider_retry_total");
    reveal_strlit("vtcode.acp.provider_retry_delay_ms");
    reveal_strlit("vtcode.acp.provider_generation_ms");
    reveal_strlit("vtcode.acp.provider_rate_limited_total");
    reveal_strlit("vtcode.acp.rate_limit_notification_failure_total");
    let x = metric_name(a);
    let y = metric_name(b);
    if x.len() == y.len() {
        assert(x[20] != y[20]);
    }
}

/// The tags recorded with a metric.
#[derive(Debug)]
pub struct ProviderMetricTags {
    pub mode: Option<ProviderMode>,
    /// The provider class's label.
    pub provider_class: String,
    /// The failure category's label, for failures.
    pub error_category: Option<String>,
    pub retry_disposition: Option<RetryDisposition>,
}

/// The tag pairs of `tags`, in the order mode, provider class, error
/// category and retry disposition, each present only when its value is.
pub open spec fn tag_pairs(
    mode: Option<ProviderMode>,
    provider_class: Seq<char>,
    error_category: Option<Seq<char>>,
    retry_disposition: Option<RetryDisposition>,
) -> Seq<(Seq<char>, Seq<char>)> {
    (match mode {
        Some(m) => seq![("mode"@, mode_text(m))],
        None => Seq::empty(),
    }) + seq![("provider_class"@, provider_class)] + (match error_category {
        Some(c) => seq![("error_category"@, c)],
        None => Seq::empty(),
    }) + (match retry_disposition {
        Some(d) => seq![("retry_disposition"@, disposition_text(d))],
        None => Seq::empty(),
    })
}

/// The views of a list of string pairs.
pub open spec fn pair_views(pairs: Seq<(String, String)>) -> Seq<(Seq<char>, Seq<char>)> {
    pairs.map_values(|p: (String, String)| (p.0@, p.1@))
}

impl ProviderMetricTags {
    /// The tags as key and value pairs; no key occurs twice.
    pub fn into_pairs(self) -> (r: Vec<(String, String)>)
        ensures
            pair_views(r@) == tag_pairs(
                self.mode,
                self.provider_class@,
                match self.error_category {
                    Some(c) => Some(c@),
                    None => None,
                },
                self.retry_disposition,
            ),
    {
        let ghost category_view: Option<Seq<char>> = match &self.error_category {
            Some(c) => Some(c@),
            None => None,
        };
        let ghost class_view = self.provider_class@;
        let mut pairs: Vec<(String, String)> = Vec::new();
        if let Some(mode) = self.mode {
            pairs.push((String::from_str("mode"), String::from_str(mode.as_str())));
        }
        let ghost first = pairs@;
        pairs.push((String::from_str("provider_class"), self.provider_class));
        let ghost second = pairs@;
        let error_category = self.error_category;
        if let Some(category) = error_category {
            pairs.push((String::from_str("error_category"), category));
        }
        let ghost third = pairs@;
        if let Some(disposition) = self.retry_disposition {
            pairs.push(
                (String::from_str("retry_disposition"), String::from_str(disposition.as_str())),
            );
        }
        proof {
            let m = match self.mode {
                Some(m) => seq![("mode"@, mode_text(m))],
                None => Seq::<(Seq<char>, Seq<char>)>::empty(),
            };
            let c = match category_view {
                Some(c) => seq![("error_category"@, c)],
                None => Seq::<(Seq<char>, Seq<char>)>::empty(),
            };
            let d = match self.retry_disposition {
                Some(d) => seq![("retry_disposition"@, disposition_text(d))],
                None => Seq::<(Seq<char>, Seq<char>)>::empty(),
            };
            assert(pair_views(first) =~= m);
            assert(pair_views(second) =~= m + seq![("provider_class"@, class_view)]);
            assert(pair_views(third) =~= m + seq![("provider_class"@, class_view)] + c);
            assert(pair_views(pairs@) =~= m + seq![("provider_class"@, class_view)] + c + d);
        }
        pairs
    }
}

/// The failure detail that may reach a client: a category label and the
/// HTTP status, never the provider's own diagnostics.
#[derive(Debug)]
pub struct SafeProviderProjection {
    category: String,
    status: Option<u16>,
}

impl View for SafeProviderProjection {
    type V = (Seq<char>, Option<u16>);

    closed spec fn view(&self) -> (Seq<char>, Option<u16>) {
        (self.category@, self.status)
    }
}

/// The message a client sees for a projected failure.
pub open spec fn client_message_text(category: Seq<char>, status: Option<u16>) -> Seq<char> {
    match status {
        Some(s) => "Provider failure category: "@ + category + " (HTTP status "@ + decimal(
            s as nat,
        ) + ")."@,
        None => "Provider failure category: "@ + category + seq!['.'],
    }
}

impl SafeProviderProjection {
    /// The projection of a failure in category `category` with HTTP status
    /// `status`.
    pub fn new(category: String, status: Option<u16>) -> (p: SafeProviderProjection)
        ensures
            p@ == (category@, status),
    {
        SafeProviderProjection { category, status }
    }

    pub fn category(&self) -> (s: &str)
        ensures
            s@ == self@.0,
    {
        self.category.as_str()
    }

    pub fn status(&self) -> (s: Option<u16>)
        ensures
            s == self@.1,
    {
        self.status
    }

    /// The message a client sees: the category, and the HTTP status when
    /// there is one.
    pub fn client_message(&self) -> (s: String)
        ensures
            s@ == client_message_text(self@.0, self@.1),
    {
        let mut s = String::from_str("Provider failure category: ");
        s.append(self.category.as_str());
        match self.status {
            Some(status) => {
                s.append(" (HTTP status ");
                push_decimal(&mut s, status as u64);
                s.append(").");
            },
            None => {
                s.append(".");
                proof {
                    reveal_strlit(".");
                }
            },
        }
        s
    }
}

} // verus!
