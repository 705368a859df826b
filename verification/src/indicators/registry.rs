//! The five indicator categories and their weights.

use vstd::prelude::*;

verus! {

/// The category an indicator belongs to.
#[derive(Debug, Clone, Copy, PartialEq, Eq, Hash, Structural)]
pub enum IndicatorCategory {
    Momentum,
    Trend,
    Volatility,
    Volume,
    Perp,
}

/// What every indicator says of itself.
pub trait Indicator {
    /// The category this indicator belongs to.
    fn category(&self) -> IndicatorCategory;

    /// The name of the indicator.
    fn name(&self) -> &'static str;
}

/// The weight of a category in hundredths.
pub open spec fn weight_pct_of(category: IndicatorCategory) -> nat {
    match category {
        IndicatorCategory::Momentum => 25,
        IndicatorCategory::Trend => 30,
        IndicatorCategory::Volatility => 15,
        IndicatorCategory::Volume => 15,
        IndicatorCategory::Perp => 15,
    }
}

/// The five categories in their listed order.
pub open spec fn categories() -> Seq<IndicatorCategory> {
    seq![
        IndicatorCategory::Momentum,
        IndicatorCategory::Trend,
        IndicatorCategory::Volatility,
        IndicatorCategory::Volume,
        IndicatorCategory::Perp,
    ]
}

/// Organizes the indicators by category.
pub struct IndicatorRegistry;

impl IndicatorRegistry {
    /// The weight of a category, in hundredths of the whole.
    pub fn category_weight(category: IndicatorCategory) -> (weight_pct: u32)
        ensures
            weight_pct == weight_pct_of(category),
    {
        match category {
            IndicatorCategory::Momentum => 25,
            IndicatorCategory::Trend => 30,
            IndicatorCategory::Volatility => 15,
            IndicatorCategory::Volume => 15,
            IndicatorCategory::Perp => 15,
        }
    }

    /// All categories, each once.
    pub fn all_categories() -> (all: Vec<IndicatorCategory>)
        ensures
            all@ == categories(),
    {
        let all = vec![
            IndicatorCategory::Momentum,
            IndicatorCategory::Trend,
            IndicatorCategory::Volatility,
            IndicatorCategory::Volume,
            IndicatorCategory::Perp,
        ];
        assert(all@ =~= categories());
        all
    }
}

/// The listed categories are all there are, none is listed twice, and
/// their weights sum to the whole.
pub proof fn lemma_categories_complete()
    ensures
        forall|category: IndicatorCategory| categories().contains(category),
        categories().no_duplicates(),
        weight_pct_of(categories()[0]) + weight_pct_of(categories()[1]) + weight_pct_of(
            categories()[2],
        ) + weight_pct_of(categories()[3]) + weight_pct_of(categories()[4]) == 100,
{
    assert forall|category: IndicatorCategory| categories().contains(category) by {
        let i: int = match category {
            IndicatorCategory::Momentum => 0,
            IndicatorCategory::Trend => 1,
            IndicatorCategory::Volatility => 2,
            IndicatorCategory::Volume => 3,
            IndicatorCategory::Perp => 4,
        };
        assert(categories()[i] == category);
    }
}

} // verus!
