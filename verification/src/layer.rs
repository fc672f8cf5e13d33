//! Decision logic of the composite instrumentation layer.
//!
//! A composite layer fans one stream of instrumentation callbacks out to up
//! to three per-kind consumers (logs, trace, metrics). Lifecycle callbacks
//! carry no answer, so fanning them out needs no logic; the decision-bearing
//! queries do, and that logic lives here, over plain values. Each query takes
//! one answer per kind, `None` standing for a kind that is not enabled.

use vstd::prelude::*;

verus! {

/// How interested a consumer is in a callsite: `Never < Sometimes < Always`.
#[derive(Clone, Copy, PartialEq, Eq, Structural, Debug)]
pub enum Interest {
    /// The consumer never wants events from this callsite.
    Never,
    /// The consumer decides per event.
    Sometimes,
    /// The consumer always wants events from this callsite.
    Always,
}

impl Interest {
    /// Position in the interest lattice: `Never < Sometimes < Always`.
    pub open spec fn rank(self) -> int {
        match self {
            Interest::Never => 0,
            Interest::Sometimes => 1,
            Interest::Always => 2,
        }
    }

    /// Least upper bound in the interest lattice.
    pub open spec fn join(self, other: Interest) -> Interest {
        if other.rank() > self.rank() {
            other
        } else {
            self
        }
    }
}

/// Upgrades the running `interest` to `new_interest` when the latter is more
/// specific, so that folding over all consumers yields their join.
pub fn apply_new_interest(interest: &mut Interest, new_interest: Interest)
    ensures
        *final(interest) == old(interest).join(new_interest),
{
    let upgrade = match (*interest, new_interest) {
        (Interest::Never, Interest::Sometimes) => true,
        (Interest::Never, Interest::Always) => true,
        (Interest::Sometimes, Interest::Always) => true,
        _ => false,
    };
    if upgrade {
        *interest = new_interest;
    }
}

/// Folds one consumer's answer (absent consumers answer nothing) into the
/// running interest.
pub open spec fn join_opt(current: Interest, answer: Option<Interest>) -> Interest {
    match answer {
        Some(i) => current.join(i),
        None => current,
    }
}

/// The composite callsite interest: the join of every active consumer's
/// answer, starting from `Never`.
pub open spec fn composite_interest(
    trace: Option<Interest>,
    logs: Option<Interest>,
    metrics: Option<Interest>,
) -> Interest {
    join_opt(join_opt(join_opt(Interest::Never, trace), logs), metrics)
}

/// Combines per-kind callsite-interest answers into the composite's answer.
pub fn register_callsite_interest(
    trace: Option<Interest>,
    logs: Option<Interest>,
    metrics: Option<Interest>,
) -> (r: Interest)
    ensures
        r == composite_interest(trace, logs, metrics),
{
    let mut interest = Interest::Never;
    if let Some(new_interest) = trace {
        apply_new_interest(&mut interest, new_interest);
    }
    if let Some(new_interest) = logs {
        apply_new_interest(&mut interest, new_interest);
    }
    if let Some(new_interest) = metrics {
        apply_new_interest(&mut interest, new_interest);
    }
    interest
}

/// The composite interest equals the most permissive answer of any active
/// consumer under the ordering `Never < Sometimes < Always`: it bounds every
/// answer from above, and it is `Never` or one of the answers.
pub proof fn lemma_composite_interest_is_max(
    trace: Option<Interest>,
    logs: Option<Interest>,
    metrics: Option<Interest>,
)
    ensures
        trace matches Some(i) ==> i.rank() <= composite_interest(trace, logs, metrics).rank(),
        logs matches Some(i) ==> i.rank() <= composite_interest(trace, logs, metrics).rank(),
        metrics matches Some(i) ==> i.rank() <= composite_interest(trace, logs, metrics).rank(),
        composite_interest(trace, logs, metrics) == Interest::Never || Some(
            composite_interest(trace, logs, metrics),
        ) == trace || Some(composite_interest(trace, logs, metrics)) == logs || Some(
            composite_interest(trace, logs, metrics),
        ) == metrics,
{
}

/// The composite interest does not depend on the order the consumers are
/// asked in: exchanging any two answers leaves the result as it was.
pub proof fn lemma_composite_interest_order_independent(
    trace: Option<Interest>,
    logs: Option<Interest>,
    metrics: Option<Interest>,
)
    ensures
        composite_interest(trace, logs, metrics) == composite_interest(logs, trace, metrics),
        composite_interest(trace, logs, metrics) == composite_interest(trace, metrics, logs),
{
}

/// True when every active consumer reports true; an absent consumer adds no
/// constraint, so with no active consumers the composite is enabled.
pub open spec fn composite_enabled(
    trace: Option<bool>,
    logs: Option<bool>,
    metrics: Option<bool>,
) -> bool {
    (trace matches Some(e) ==> e) && (logs matches Some(e) ==> e) && (metrics matches Some(e)
        ==> e)
}

/// Combines per-kind enablement answers, for callsite-scoped and
/// event-scoped checks alike: the logical AND over the active consumers.
pub fn combine_enabled(trace: Option<bool>, logs: Option<bool>, metrics: Option<bool>) -> (r:
    bool)
    ensures
        r == composite_enabled(trace, logs, metrics),
{
    let mut is_enabled = true;
    if let Some(e) = trace {
        is_enabled = is_enabled && e;
    }
    if let Some(e) = logs {
        is_enabled = is_enabled && e;
    }
    if let Some(e) = metrics {
        is_enabled = is_enabled && e;
    }
    is_enabled
}

/// Verbosity ceiling a consumer may report, `Off` excluding everything and
/// `Trace` excluding nothing: `Off < Error < Warn < Info < Debug < Trace`.
#[derive(Clone, Copy, PartialEq, Eq, Structural, Debug)]
pub enum LevelFilter {
    /// No events at all.
    Off,
    /// Errors only.
    Error,
    /// Warnings and errors.
    Warn,
    /// Informational events and above.
    Info,
    /// Debug events and above.
    Debug,
    /// Everything.
    Trace,
}

impl LevelFilter {
    /// Position in the verbosity order, `Off` lowest.
    pub open spec fn rank(self) -> int {
        match self {
            LevelFilter::Off => 0,
            LevelFilter::Error => 1,
            LevelFilter::Warn => 2,
            LevelFilter::Info => 3,
            LevelFilter::Debug => 4,
            LevelFilter::Trace => 5,
        }
    }

    /// The tighter (less verbose) of two filters.
    pub open spec fn tighter(self, other: LevelFilter) -> LevelFilter {
        if self.rank() <= other.rank() {
            self
        } else {
            other
        }
    }

    fn rank_value(&self) -> (r: u8)
        ensures
            r as int == self.rank(),
    {
        match self {
            LevelFilter::Off => 0,
            LevelFilter::Error => 1,
            LevelFilter::Warn => 2,
            LevelFilter::Info => 3,
            LevelFilter::Debug => 4,
            LevelFilter::Trace => 5,
        }
    }
}

/// Folds one consumer's level hint into the running bound. The outer `Option`
/// is the consumer's presence, the inner one its hint.
pub open spec fn fold_hint(
    current: Option<LevelFilter>,
    answer: Option<Option<LevelFilter>>,
) -> Option<LevelFilter> {
    match answer {
        Some(Some(h)) => match current {
            Some(c) => Some(c.tighter(h)),
            None => Some(h),
        },
        _ => current,
    }
}

/// The composite level hint. Rule (the per-consumer behaviour leaves room
/// here, so the choice is documented): the tightest hint among the active
/// consumers that report one; a consumer that reports no hint is simply left
/// out of the minimum, and when no active consumer reports a hint the
/// composite reports none.
pub open spec fn composite_level_hint(
    trace: Option<Option<LevelFilter>>,
    logs: Option<Option<LevelFilter>>,
    metrics: Option<Option<LevelFilter>>,
) -> Option<LevelFilter> {
    fold_hint(fold_hint(fold_hint(None, trace), logs), metrics)
}

/// Combines per-kind level hints into the composite's hint; see
/// [`composite_level_hint`] for the combination rule.
pub fn max_level_hint(
    trace: Option<Option<LevelFilter>>,
    logs: Option<Option<LevelFilter>>,
    metrics: Option<Option<LevelFilter>>,
) -> (r: Option<LevelFilter>)
    ensures
        r == composite_level_hint(trace, logs, metrics),
{
    let mut level: Option<LevelFilter> = None;
    level = fold_hint_level(level, trace);
    level = fold_hint_level(level, logs);
    level = fold_hint_level(level, metrics);
    level
}

fn fold_hint_level(current: Option<LevelFilter>, answer: Option<Option<LevelFilter>>) -> (r:
    Option<LevelFilter>)
    ensures
        r == fold_hint(current, answer),
{
    match answer {
        Some(Some(h)) => match current {
            Some(c) => if c.rank_value() <= h.rank_value() {
                Some(c)
            } else {
                Some(h)
            },
            None => Some(h),
        },
        _ => current,
    }
}

/// The composite level hint does not depend on the order the consumers are
/// asked in: exchanging any two answers leaves the result as it was.
pub proof fn lemma_composite_hint_order_independent(
    trace: Option<Option<LevelFilter>>,
    logs: Option<Option<LevelFilter>>,
    metrics: Option<Option<LevelFilter>>,
)
    ensures
        composite_level_hint(trace, logs, metrics) == composite_level_hint(logs, trace, metrics),
        composite_level_hint(trace, logs, metrics) == composite_level_hint(trace, metrics, logs),
{
}

/// The composite level hint is the minimum over the hints that active
/// consumers actually report: it is present exactly when some active consumer
/// reports a hint, it bounds every reported hint from below, and it is one of
/// the reported hints.
pub proof fn lemma_composite_hint_is_min(
    trace: Option<Option<LevelFilter>>,
    logs: Option<Option<LevelFilter>>,
    metrics: Option<Option<LevelFilter>>,
)
    ensures
        composite_level_hint(trace, logs, metrics) is Some <==> (trace matches Some(Some(_))
            || logs matches Some(Some(_)) || metrics matches Some(Some(_))),
        trace matches Some(Some(h)) ==> composite_level_hint(
            trace,
            logs,
            metrics,
        )->0.rank() <= h.rank(),
        logs matches Some(Some(h)) ==> composite_level_hint(
            trace,
            logs,
            metrics,
        )->0.rank() <= h.rank(),
        metrics matches Some(Some(h)) ==> composite_level_hint(
            trace,
            logs,
            metrics,
        )->0.rank() <= h.rank(),
        composite_level_hint(trace, logs, metrics) matches Some(h) ==> (trace == Some(
            Some(h),
        ) || logs == Some(Some(h)) || metrics == Some(Some(h))),
{
}

} // verus!
