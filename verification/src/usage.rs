//! Token accounting of one logical agent turn, and its cost.
use crate::pricing;
use crate::pricing::{CostStatus, EstimatedUsdCost, PricingSnapshot, Usage};
use vstd::prelude::*;

verus! {

/// Token counts of a turn, summed over its provider operations.
#[derive(Clone, Copy, Debug, PartialEq, Eq, Structural)]
pub struct TurnUsageCounts {
    /// All input tokens.
    pub input_tokens: u64,
    /// Input tokens read from the prompt cache.
    pub cached_input_tokens: u64,
    /// Input tokens newly written to the prompt cache.
    pub cache_write_input_tokens: u64,
    /// All output tokens.
    pub output_tokens: u64,
    /// Output tokens spent on reasoning.
    pub reasoning_output_tokens: u64,
    /// The provider's own total.
    pub total_tokens: u64,
    /// Whether the provider reported usage for every operation.
    pub reported: bool,
}

/// The sum of two counts, or the largest count where the sum does not fit.
pub open spec fn capped_count(a: u64, b: u64) -> u64 {
    pricing::capped_sum(a, b)
}

impl TurnUsageCounts {
    /// Counts before any provider operation.
    pub open spec fn zero() -> TurnUsageCounts {
        TurnUsageCounts {
            input_tokens: 0,
            cached_input_tokens: 0,
            cache_write_input_tokens: 0,
            output_tokens: 0,
            reasoning_output_tokens: 0,
            total_tokens: 0,
            reported: true,
        }
    }

    /// Counts after one more provider operation.
    pub open spec fn plus(self, usage: Option<Usage>) -> TurnUsageCounts {
        match usage {
            Some(usage) => TurnUsageCounts {
                input_tokens: capped_count(self.input_tokens, usage.input_tokens),
                cached_input_tokens: capped_count(self.cached_input_tokens, usage.cached()),
                cache_write_input_tokens: capped_count(
                    self.cache_write_input_tokens,
                    usage.cache_write(),
                ),
                output_tokens: capped_count(self.output_tokens, usage.output_tokens),
                reasoning_output_tokens: capped_count(
                    self.reasoning_output_tokens,
                    usage.reasoning(),
                ),
                total_tokens: capped_count(self.total_tokens, usage.total_tokens),
                reported: self.reported,
            },
            None => TurnUsageCounts { reported: false, ..self },
        }
    }

    /// Counts of the operations behind two counts.
    pub open spec fn joined(self, other: TurnUsageCounts) -> TurnUsageCounts {
        TurnUsageCounts {
            input_tokens: capped_count(self.input_tokens, other.input_tokens),
            cached_input_tokens: capped_count(self.cached_input_tokens, other.cached_input_tokens),
            cache_write_input_tokens: capped_count(
                self.cache_write_input_tokens,
                other.cache_write_input_tokens,
            ),
            output_tokens: capped_count(self.output_tokens, other.output_tokens),
            reasoning_output_tokens: capped_count(
                self.reasoning_output_tokens,
                other.reasoning_output_tokens,
            ),
            total_tokens: capped_count(self.total_tokens, other.total_tokens),
            reported: self.reported && other.reported,
        }
    }

    /// Counts the operations behind two counts.
    pub fn join(self, other: TurnUsageCounts) -> (r: Self)
        ensures
            r == self.joined(other),
    {
        TurnUsageCounts {
            input_tokens: self.input_tokens.saturating_add(other.input_tokens),
            cached_input_tokens: self.cached_input_tokens.saturating_add(
                other.cached_input_tokens,
            ),
            cache_write_input_tokens: self.cache_write_input_tokens.saturating_add(
                other.cache_write_input_tokens,
            ),
            output_tokens: self.output_tokens.saturating_add(other.output_tokens),
            reasoning_output_tokens: self.reasoning_output_tokens.saturating_add(
                other.reasoning_output_tokens,
            ),
            total_tokens: self.total_tokens.saturating_add(other.total_tokens),
            reported: self.reported && other.reported,
        }
    }

    /// Starts counting.
    pub fn new() -> (r: Self)
        ensures
            r == TurnUsageCounts::zero(),
    {
        TurnUsageCounts {
            input_tokens: 0,
            cached_input_tokens: 0,
            cache_write_input_tokens: 0,
            output_tokens: 0,
            reasoning_output_tokens: 0,
            total_tokens: 0,
            reported: true,
        }
    }

    /// Counts one provider operation. An omitted usage record leaves the sums
    /// as they are and marks the turn as not fully reported.
    pub fn add_operation(&mut self, usage: Option<&Usage>)
        ensures
            *final(self) == old(self).plus(
                match usage {
                    Some(usage) => Some(*usage),
                    None => None,
                },
            ),
    {
        match usage {
            Some(usage) => {
                self.input_tokens = self.input_tokens.saturating_add(usage.input_tokens);
                self.cached_input_tokens =
                self.cached_input_tokens.saturating_add(usage.cached_input_tokens());
                self.cache_write_input_tokens =
                self.cache_write_input_tokens.saturating_add(usage.cache_write_input_tokens());
                self.output_tokens = self.output_tokens.saturating_add(usage.output_tokens);
                self.reasoning_output_tokens =
                self.reasoning_output_tokens.saturating_add(usage.reasoning_output_tokens());
                self.total_tokens = self.total_tokens.saturating_add(usage.total_tokens);
            },
            None => {
                self.reported = false;
            },
        }
    }
}

/// What a turn's usage states.
pub struct TurnUsageView {
    /// Token counts.
    pub input_tokens: u64,
    /// Input tokens read from the prompt cache.
    pub cached_input_tokens: u64,
    /// Input tokens newly written to the prompt cache.
    pub cache_write_input_tokens: u64,
    /// All output tokens.
    pub output_tokens: u64,
    /// Output tokens spent on reasoning.
    pub reasoning_output_tokens: u64,
    /// The provider's own total.
    pub total_tokens: u64,
    /// The local estimate.
    pub estimated_cost: Option<pricing::CostView>,
    /// Why an estimate is present or absent.
    pub cost_status: CostStatus,
}

/// The usage owed for counts under an optional pricing snapshot.
pub open spec fn usage_of(
    counts: TurnUsageCounts,
    pricing: Option<pricing::PricingView>,
) -> TurnUsageView {
    TurnUsageView {
        input_tokens: counts.input_tokens,
        cached_input_tokens: counts.cached_input_tokens,
        cache_write_input_tokens: counts.cache_write_input_tokens,
        output_tokens: counts.output_tokens,
        reasoning_output_tokens: counts.reasoning_output_tokens,
        total_tokens: counts.total_tokens,
        estimated_cost: match pricing {
            Some(pricing) if counts.reported => Some(
                pricing::cost_of(
                    pricing,
                    counts.input_tokens,
                    counts.cached_input_tokens,
                    counts.cache_write_input_tokens,
                    counts.output_tokens,
                ),
            ),
            _ => None,
        },
        cost_status: match pricing {
            None => CostStatus::PricingNotConfigured,
            Some(_) => if counts.reported {
                CostStatus::EstimatedFromUsage
            } else {
                CostStatus::UsageNotReported
            },
        },
    }
}

/// An estimate is present exactly when the status says that it is: a missing
/// usage record or missing pricing never turns into a zero estimate.
pub proof fn law_estimate_present_iff_status_says_so(
    counts: TurnUsageCounts,
    pricing: Option<pricing::PricingView>,
)
    ensures
        usage_of(counts, pricing).estimated_cost is Some <==> usage_of(counts, pricing).cost_status
            == CostStatus::EstimatedFromUsage,
        usage_of(counts, pricing).estimated_cost is Some <==> pricing is Some && counts.reported,
{
}

/// One operation whose usage was not reported leaves the whole turn without an
/// estimate, whatever was reported before and after it.
pub proof fn law_unreported_operation_prevents_estimate(
    counts: TurnUsageCounts,
    later: Option<Usage>,
    pricing: pricing::PricingView,
)
    ensures
        usage_of(counts.plus(None), Some(pricing)).cost_status == CostStatus::UsageNotReported,
        usage_of(counts.plus(None).plus(later), Some(pricing)).cost_status
            == CostStatus::UsageNotReported,
{
}

/// What a turn is charged for does not depend on which of its operations was
/// the warmup: counts that are kept apart add up to those of all operations.
pub proof fn law_counts_kept_apart_add_up(
    counts: TurnUsageCounts,
    apart: TurnUsageCounts,
    usage: Option<Usage>,
)
    ensures
        counts.plus(usage).joined(apart) == counts.joined(apart).plus(usage),
        counts.joined(apart.plus(usage)) == counts.joined(apart).plus(usage),
        counts.joined(TurnUsageCounts::zero()) == counts,
{
}

/// Exact token accounting for every provider call in one logical agent turn.
///
/// Cache-read and cache-write tokens are subsets of input tokens. Reasoning
/// tokens are a subset of output tokens.
#[derive(Debug, PartialEq, Eq)]
pub struct TurnUsage {
    counts: TurnUsageCounts,
    estimated_cost: Option<Box<EstimatedUsdCost>>,
    cost_status: CostStatus,
}

impl View for TurnUsage {
    type V = TurnUsageView;

    closed spec fn view(&self) -> TurnUsageView {
        TurnUsageView {
            input_tokens: self.counts.input_tokens,
            cached_input_tokens: self.counts.cached_input_tokens,
            cache_write_input_tokens: self.counts.cache_write_input_tokens,
            output_tokens: self.counts.output_tokens,
            reasoning_output_tokens: self.counts.reasoning_output_tokens,
            total_tokens: self.counts.total_tokens,
            estimated_cost: match self.estimated_cost {
                Some(cost) => Some(cost@),
                None => None,
            },
            cost_status: self.cost_status,
        }
    }
}

impl Clone for TurnUsage {
    fn clone(&self) -> (r: Self)
        ensures
            r@ == self@,
    {
        let estimated_cost = match &self.estimated_cost {
            Some(cost) => Some(Box::new((**cost).clone())),
            None => None,
        };
        TurnUsage { counts: self.counts, estimated_cost, cost_status: self.cost_status }
    }
}

impl TurnUsage {
    /// Prices the counts of a turn.
    pub fn from_counts(counts: TurnUsageCounts, pricing: Option<&PricingSnapshot>) -> (r: Self)
        ensures
            r@ == usage_of(
                counts,
                match pricing {
                    Some(pricing) => Some(pricing@),
                    None => None,
                },
            ),
    {
        match pricing {
            Some(pricing) => {
                if counts.reported {
                    let cost = pricing.estimate_tokens(
                        counts.input_tokens,
                        counts.cached_input_tokens,
                        counts.cache_write_input_tokens,
                        counts.output_tokens,
                    );
                    TurnUsage {
                        counts,
                        estimated_cost: Some(Box::new(cost)),
                        cost_status: CostStatus::EstimatedFromUsage,
                    }
                } else {
                    TurnUsage {
                        counts,
                        estimated_cost: None,
                        cost_status: CostStatus::UsageNotReported,
                    }
                }
            },
            None => TurnUsage {
                counts,
                estimated_cost: None,
                cost_status: CostStatus::PricingNotConfigured,
            },
        }
    }

    /// Returns all input tokens billed or reported by the provider.
    pub fn input_tokens(&self) -> (r: u64)
        ensures
            r == self@.input_tokens,
    {
        self.counts.input_tokens
    }

    /// Returns input tokens served from the provider's prompt cache.
    pub fn cached_input_tokens(&self) -> (r: u64)
        ensures
            r == self@.cached_input_tokens,
    {
        self.counts.cached_input_tokens
    }

    /// Returns input tokens newly written into the provider's prompt cache.
    pub fn cache_write_input_tokens(&self) -> (r: u64)
        ensures
            r == self@.cache_write_input_tokens,
    {
        self.counts.cache_write_input_tokens
    }

    /// Returns all output tokens billed or reported by the provider.
    pub fn output_tokens(&self) -> (r: u64)
        ensures
            r == self@.output_tokens,
    {
        self.counts.output_tokens
    }

    /// Returns reasoning tokens included within [`Self::output_tokens`].
    pub fn reasoning_output_tokens(&self) -> (r: u64)
        ensures
            r == self@.reasoning_output_tokens,
    {
        self.counts.reasoning_output_tokens
    }

    /// Returns the provider-reported total token count.
    pub fn total_tokens(&self) -> (r: u64)
        ensures
            r == self@.total_tokens,
    {
        self.counts.total_tokens
    }

    /// Returns the local USD estimate when a pricing snapshot was configured
    /// and usage was reported.
    pub fn estimated_cost(&self) -> (r: Option<&EstimatedUsdCost>)
        ensures
            match r {
                Some(cost) => self@.estimated_cost == Some(cost@),
                None => self@.estimated_cost is None,
            },
    {
        match &self.estimated_cost {
            Some(cost) => Some(&**cost),
            None => None,
        }
    }

    /// Returns why an estimate is present or unavailable.
    pub fn cost_status(&self) -> (r: CostStatus)
        ensures
            r == self@.cost_status,
    {
        self.cost_status
    }
}

/// Processing tier that an operation is billed at.
#[derive(Clone, Copy, Debug, PartialEq, Eq, Structural)]
pub enum ServiceTier {
    /// Ordinary processing.
    Standard,
    /// Priority processing.
    Priority,
}

impl ServiceTier {
    /// The tier that fast mode selects.
    pub open spec fn selected(fast_mode: bool) -> ServiceTier {
        if fast_mode {
            ServiceTier::Priority
        } else {
            ServiceTier::Standard
        }
    }

    /// Returns the tier that fast mode selects.
    pub fn for_fast_mode(fast_mode: bool) -> (r: ServiceTier)
        ensures
            r == ServiceTier::selected(fast_mode),
    {
        if fast_mode {
            ServiceTier::Priority
        } else {
            ServiceTier::Standard
        }
    }
}

/// Pricing of the two processing tiers.
pub struct ServicePricing {
    /// Rates of ordinary processing.
    pub standard: PricingSnapshot,
    /// Rates of priority processing.
    pub priority: PricingSnapshot,
}

impl ServicePricing {
    /// The rates of a tier.
    pub open spec fn rates_of(self, tier: ServiceTier) -> pricing::PricingView {
        match tier {
            ServiceTier::Standard => self.standard@,
            ServiceTier::Priority => self.priority@,
        }
    }

    /// Returns the rates of a tier.
    pub fn for_tier(&self, tier: ServiceTier) -> (r: &PricingSnapshot)
        ensures
            r@ == self.rates_of(tier),
    {
        match tier {
            ServiceTier::Standard => &self.standard,
            ServiceTier::Priority => &self.priority,
        }
    }
}

/// Estimates the cost of one completed response at the tier that it was
/// requested with. A response without a usage record has no estimate.
pub fn estimate_cost(usage: Option<&Usage>, fast_mode: bool, rates: &ServicePricing) -> (r: (
    Option<EstimatedUsdCost>,
    CostStatus,
))
    ensures
        match usage {
            Some(usage) => {
                &&& r.0 is Some
                &&& r.0->0@ == pricing::cost_of(
                    rates.rates_of(ServiceTier::selected(fast_mode)),
                    usage.input_tokens,
                    usage.cached(),
                    usage.cache_write(),
                    usage.output_tokens,
                )
                &&& r.1 == CostStatus::EstimatedFromUsage
            },
            None => r.0 is None && r.1 == CostStatus::UsageNotReported,
        },
{
    match usage {
        Some(usage) => {
            let tier = ServiceTier::for_fast_mode(fast_mode);
            (Some(rates.for_tier(tier).estimate(usage)), CostStatus::EstimatedFromUsage)
        },
        None => (None, CostStatus::UsageNotReported),
    }
}

/// A reported operation adds each of its token classes to the counts of that
/// class, up to the largest number, and keeps whether everything was reported;
/// one without a usage record changes no count.
pub proof fn law_operations_are_counted_by_class(counts: TurnUsageCounts, usage: Usage)
    ensures
        ({
            let after = counts.plus(Some(usage));
            &&& after.input_tokens == added(counts.input_tokens, usage.input_tokens)
            &&& after.output_tokens == added(counts.output_tokens, usage.output_tokens)
            &&& after.total_tokens == added(counts.total_tokens, usage.total_tokens)
            &&& after.cached_input_tokens == match usage.input_tokens_details {
                Some(details) => added(counts.cached_input_tokens, details.cached_tokens),
                None => counts.cached_input_tokens as int,
            }
            &&& after.cache_write_input_tokens == match usage.input_tokens_details {
                Some(details) => added(counts.cache_write_input_tokens, details.cache_write_tokens),
                None => counts.cache_write_input_tokens as int,
            }
            &&& after.reasoning_output_tokens == match usage.output_tokens_details {
                Some(details) => added(counts.reasoning_output_tokens, details.reasoning_tokens),
                None => counts.reasoning_output_tokens as int,
            }
            &&& after.reported == counts.reported
        }),
        ({
            let after = counts.plus(None);
            &&& !after.reported
            &&& after == (TurnUsageCounts { reported: false, ..counts })
        }),
        TurnUsageCounts::zero().plus(Some(usage)).total_tokens == usage.total_tokens,
        TurnUsageCounts::zero().reported,
{
}

/// A sum of two counts, up to the largest number.
pub open spec fn added(a: u64, b: u64) -> int {
    if a + b <= u64::MAX {
        a + b
    } else {
        u64::MAX as int
    }
}

/// Counts that are joined are added class by class, in either order, and are
/// reported in full only where both are.
pub proof fn law_joined_counts_are_sums(one: TurnUsageCounts, other: TurnUsageCounts)
    ensures
        ({
            let both = one.joined(other);
            &&& both == other.joined(one)
            &&& both.input_tokens == added(one.input_tokens, other.input_tokens)
            &&& both.cached_input_tokens == added(one.cached_input_tokens, other.cached_input_tokens)
            &&& both.cache_write_input_tokens == added(
                one.cache_write_input_tokens,
                other.cache_write_input_tokens,
            )
            &&& both.output_tokens == added(one.output_tokens, other.output_tokens)
            &&& both.reasoning_output_tokens == added(
                one.reasoning_output_tokens,
                other.reasoning_output_tokens,
            )
            &&& both.total_tokens == added(one.total_tokens, other.total_tokens)
            &&& both.reported <==> one.reported && other.reported
        }),
{
}

/// Priced usage states the counts that it was made from, and its estimate is
/// that of the given rates on those counts.
pub proof fn law_priced_usage_states_its_counts(
    counts: TurnUsageCounts,
    pricing: pricing::PricingView,
)
    ensures
        ({
            let usage = usage_of(counts, Some(pricing));
            &&& usage.input_tokens == counts.input_tokens
            &&& usage.cached_input_tokens == counts.cached_input_tokens
            &&& usage.cache_write_input_tokens == counts.cache_write_input_tokens
            &&& usage.output_tokens == counts.output_tokens
            &&& usage.reasoning_output_tokens == counts.reasoning_output_tokens
            &&& usage.total_tokens == counts.total_tokens
            &&& counts.reported ==> usage.estimated_cost == Some(
                pricing::cost_of(
                    pricing,
                    counts.input_tokens,
                    counts.cached_input_tokens,
                    counts.cache_write_input_tokens,
                    counts.output_tokens,
                ),
            )
            &&& !counts.reported ==> usage.cost_status == CostStatus::UsageNotReported
            &&& usage_of(counts, None).cost_status == CostStatus::PricingNotConfigured
            &&& usage_of(counts, None).total_tokens == counts.total_tokens
        }),
{
}

/// Fast mode is billed at the priority tier, and ordinary processing at the
/// standard tier.
pub proof fn law_fast_mode_is_billed_as_priority(rates: ServicePricing)
    ensures
        rates.rates_of(ServiceTier::selected(true)) == rates.priority@,
        rates.rates_of(ServiceTier::selected(false)) == rates.standard@,
{
}

} // verus!
