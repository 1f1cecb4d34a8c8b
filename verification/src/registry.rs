//! Registries of feature names and their categories, for discovery and
//! validation.
//!
//! A registry is an explicit value: it is built once and handed to whoever
//! reads it.  It records every registration in order and answers all of its
//! queries from that record.  Nothing is ever removed.

use vstd::prelude::*;
use vstd::string::*;
use crate::interface::FeatureCategory;
use crate::text::str_eq;

verus! {

/// One registration: a name and the category it was registered under.
pub type Registration = (Seq<char>, FeatureCategory);

/// The category that `name` was last registered under, if it ever was.
pub open spec fn category_in(history: Seq<Registration>, name: Seq<char>) -> Option<
    FeatureCategory,
>
    decreases history.len(),
{
    if history.len() == 0 {
        None
    } else if history.last().0 == name {
        Some(history.last().1)
    } else {
        category_in(history.drop_last(), name)
    }
}

/// The names registered under `category`, one per registration, in order.
pub open spec fn names_in_category(history: Seq<Registration>, category: FeatureCategory) -> Seq<
    Seq<char>,
>
    decreases history.len(),
{
    if history.len() == 0 {
        Seq::empty()
    } else if history.last().1 == category {
        names_in_category(history.drop_last(), category).push(history.last().0)
    } else {
        names_in_category(history.drop_last(), category)
    }
}

/// The distinct names ever registered, each where it was first registered.
pub open spec fn known_names(history: Seq<Registration>) -> Seq<Seq<char>>
    decreases history.len(),
{
    if history.len() == 0 {
        Seq::empty()
    } else {
        let earlier = known_names(history.drop_last());
        if earlier.contains(history.last().0) {
            earlier
        } else {
            earlier.push(history.last().0)
        }
    }
}

/// The character sequences of a run of names, in order.
pub open spec fn text_views(names: Seq<String>) -> Seq<Seq<char>> {
    Seq::new(names.len(), |i: int| names[i]@)
}

/// A name is among the known names exactly when it has a category, and no
/// known name is listed twice.
pub proof fn lemma_known_names(history: Seq<Registration>)
    ensures
        forall|name: Seq<char>|
            known_names(history).contains(name) <==> #[trigger] category_in(history, name) is Some,
        known_names(history).no_duplicates(),
    decreases history.len(),
{
    if history.len() > 0 {
        let front = history.drop_last();
        let earlier = known_names(front);
        let last = history.last().0;
        let now = known_names(history);
        lemma_known_names(front);
        assert forall|name: Seq<char>| now.contains(name) <==> #[trigger] category_in(
            history,
            name,
        ) is Some by {
            assert(earlier.contains(name) <==> category_in(front, name) is Some);
            if earlier.contains(last) {
                assert(now == earlier);
            } else {
                assert(now == earlier.push(last));
                assert(now[earlier.len() as int] == last);
                if earlier.contains(name) {
                    let k = choose|k: int| 0 <= k < earlier.len() && earlier[k] == name;
                    assert(now[k] == name);
                }
                if now.contains(name) && name != last {
                    let k = choose|k: int| 0 <= k < now.len() && now[k] == name;
                    assert(k < earlier.len());
                    assert(earlier[k] == name);
                }
            }
        }
        if !earlier.contains(last) {
            assert forall|i: int, j: int| 0 <= i < now.len() && 0 <= j < now.len() && i != j implies now[i]
                != now[j] by {
                if i < earlier.len() && j < earlier.len() {
                    assert(earlier[i] != earlier[j]);
                } else if i < earlier.len() {
                    assert(earlier[i] == now[i]);
                } else {
                    assert(earlier[j] == now[j]);
                }
            }
        }
    }
}

/// Registering a name makes it known under that category and puts it last in
/// the category's list; what other names are registered under stays as it
/// was.
pub proof fn lemma_register(history: Seq<Registration>, name: Seq<char>, category: FeatureCategory)
    ensures
        category_in(history.push((name, category)), name) == Some(category),
        known_names(history.push((name, category))).contains(name),
        names_in_category(history.push((name, category)), category) == names_in_category(
            history,
            category,
        ).push(name),
        forall|other: Seq<char>|
            other != name ==> #[trigger] category_in(history.push((name, category)), other)
                == category_in(history, other),
        forall|other: FeatureCategory|
            other != category ==> #[trigger] names_in_category(
                history.push((name, category)),
                other,
            ) == names_in_category(history, other),
{
    let after = history.push((name, category));
    assert(after.drop_last() =~= history);
    assert(after.last() == (name, category));
    lemma_known_names(after);
}

/// A record of which features exist and how they are categorised.
#[derive(Debug)]
pub struct FeatureRegistry {
    registrations: Vec<(String, FeatureCategory)>,
}

impl FeatureRegistry {
    /// Every registration made so far, in order.
    pub closed spec fn history(&self) -> Seq<Registration> {
        Seq::new(
            self.registrations@.len(),
            |i: int| (self.registrations@[i].0@, self.registrations@[i].1),
        )
    }

    /// A registry with nothing registered.
    pub fn new() -> (r: FeatureRegistry)
        ensures
            r.history() == Seq::<Registration>::empty(),
    {
        let r = FeatureRegistry { registrations: Vec::new() };
        proof {
            assert(r.history() =~= Seq::<Registration>::empty());
        }
        r
    }

    /// Registers `name` under `category`.  A name registered again takes the
    /// new category and is listed under both.
    pub fn register_feature(&mut self, name: &str, category: FeatureCategory)
        ensures
            final(self).history() == old(self).history().push((name@, category)),
    {
        self.registrations.push((name.to_owned(), category));
        proof {
            assert(self.history() =~= old(self).history().push((name@, category)));
        }
    }

    /// The distinct registered names, each where it was first registered.
    pub fn list_features(&self) -> (r: Vec<String>)
        ensures
            text_views(r@) == known_names(self.history()),
    {
        let ghost history = self.history();
        let mut names: Vec<String> = Vec::new();
        let mut i: usize = 0;
        while i < self.registrations.len()
            invariant
                i <= self.registrations@.len(),
                history == self.history(),
                text_views(names@) =~= known_names(history.take(i as int)),
            decreases self.registrations@.len() - i,
        {
            proof {
                assert(history.take(i as int + 1).drop_last() =~= history.take(i as int));
                assert(history.take(i as int + 1).last() == history[i as int]);
            }
            let candidate: &String = &self.registrations[i].0;
            if !contains_text(&names, candidate.as_str()) {
                names.push(candidate.clone());
            }
            i = i + 1;
        }
        proof {
            assert(history.take(i as int) =~= history);
        }
        names
    }

    /// The names registered under `category`, one per registration, in
    /// order; empty when nothing was registered under it.
    pub fn list_by_category(&self, category: FeatureCategory) -> (r: Vec<String>)
        ensures
            text_views(r@) == names_in_category(self.history(), category),
    {
        let ghost history = self.history();
        let mut names: Vec<String> = Vec::new();
        let mut i: usize = 0;
        while i < self.registrations.len()
            invariant
                i <= self.registrations@.len(),
                history == self.history(),
                text_views(names@) =~= names_in_category(history.take(i as int), category),
            decreases self.registrations@.len() - i,
        {
            proof {
                assert(history.take(i as int + 1).drop_last() =~= history.take(i as int));
                assert(history.take(i as int + 1).last() == history[i as int]);
            }
            if self.registrations[i].1 == category {
                names.push(self.registrations[i].0.clone());
            }
            i = i + 1;
        }
        proof {
            assert(history.take(i as int) =~= history);
        }
        names
    }

    /// Whether `name` was ever registered.
    pub fn feature_exists(&self, name: &str) -> (b: bool)
        ensures
            b == category_in(self.history(), name@) is Some,
    {
        self.get_category(name).is_some()
    }

    /// The category that `name` was last registered under.
    pub fn get_category(&self, name: &str) -> (r: Option<FeatureCategory>)
        ensures
            r == category_in(self.history(), name@),
    {
        let ghost history = self.history();
        let mut i: usize = self.registrations.len();
        proof {
            assert(history.take(i as int) =~= history);
        }
        while i > 0
            invariant
                i <= self.registrations@.len(),
                history == self.history(),
                category_in(history, name@) == category_in(history.take(i as int), name@),
            decreases i,
        {
            proof {
                assert(history.take(i as int).drop_last() =~= history.take(i as int - 1));
                assert(history.take(i as int).last() == history[i as int - 1]);
            }
            i = i - 1;
            if str_eq(self.registrations[i].0.as_str(), name) {
                return Some(self.registrations[i].1);
            }
        }
        None
    }
}

impl Default for FeatureRegistry {
    fn default() -> (r: FeatureRegistry)
        ensures
            r.history() == Seq::<Registration>::empty(),
    {
        FeatureRegistry::new()
    }
}

/// Whether a run of names holds `name`.
fn contains_text(names: &Vec<String>, name: &str) -> (b: bool)
    ensures
        b == text_views(names@).contains(name@),
{
    let ghost views = text_views(names@);
    let mut i: usize = 0;
    while i < names.len()
        invariant
            i <= names@.len(),
            views == text_views(names@),
            forall|k: int| 0 <= k < i ==> views[k] != name@,
        decreases names@.len() - i,
    {
        if str_eq(names[i].as_str(), name) {
            assert(views[i as int] == name@);
            return true;
        }
        i = i + 1;
    }
    false
}

/// The registrations of the order-book registry, in order.
pub open spec fn orderbook_registrations() -> Seq<Registration> {
    seq![
        ("spread"@, FeatureCategory::Spread),
        ("midprice"@, FeatureCategory::Price),
        ("w_midprice"@, FeatureCategory::Price),
        ("microprice"@, FeatureCategory::Price),
        ("vwap"@, FeatureCategory::Volume),
        ("imb"@, FeatureCategory::Imbalance),
        ("tav"@, FeatureCategory::Volume),
    ]
}

/// The registry of the order-book features.
pub fn orderbook_features() -> (r: FeatureRegistry)
    ensures
        r.history() == orderbook_registrations(),
{
    let mut registry = FeatureRegistry::new();
    registry.register_feature("spread", FeatureCategory::Spread);
    registry.register_feature("midprice", FeatureCategory::Price);
    registry.register_feature("w_midprice", FeatureCategory::Price);
    registry.register_feature("microprice", FeatureCategory::Price);
    registry.register_feature("vwap", FeatureCategory::Volume);
    registry.register_feature("imb", FeatureCategory::Imbalance);
    registry.register_feature("tav", FeatureCategory::Volume);
    proof {
        assert(registry.history() =~= orderbook_registrations());
    }
    registry
}

/// The registrations of the trade registry, in order.
pub open spec fn trade_registrations() -> Seq<Registration> {
    seq![
        ("trade_intensity"@, FeatureCategory::Flow),
        ("trade_direction_imbalance"@, FeatureCategory::Flow),
    ]
}

/// The registry of the trade-flow features.
pub fn trade_features() -> (r: FeatureRegistry)
    ensures
        r.history() == trade_registrations(),
{
    let mut registry = FeatureRegistry::new();
    registry.register_feature("trade_intensity", FeatureCategory::Flow);
    registry.register_feature("trade_direction_imbalance", FeatureCategory::Flow);
    proof {
        assert(registry.history() =~= trade_registrations());
    }
    registry
}

/// The registrations of the liquidation registry, in order.
pub open spec fn liquidation_registrations() -> Seq<Registration> {
    seq![
        ("liquidation_pressure"@, FeatureCategory::Flow),
        ("liquidation_imbalance"@, FeatureCategory::Imbalance),
    ]
}

/// The registry of the liquidation features.
pub fn liquidation_features() -> (r: FeatureRegistry)
    ensures
        r.history() == liquidation_registrations(),
{
    let mut registry = FeatureRegistry::new();
    registry.register_feature("liquidation_pressure", FeatureCategory::Flow);
    registry.register_feature("liquidation_imbalance", FeatureCategory::Imbalance);
    proof {
        assert(registry.history() =~= liquidation_registrations());
    }
    registry
}

/// The registrations of the market registry, in order.
pub open spec fn market_registrations() -> Seq<Registration> {
    seq![
        ("funding_rate"@, FeatureCategory::Flow),
        ("oi_change"@, FeatureCategory::Volume),
        ("price_impact"@, FeatureCategory::Liquidity),
        ("trade_flow_toxicity"@, FeatureCategory::Flow),
    ]
}

/// The registry of the features that read funding, open interest or a whole
/// snapshot.
pub fn market_features() -> (r: FeatureRegistry)
    ensures
        r.history() == market_registrations(),
{
    let mut registry = FeatureRegistry::new();
    registry.register_feature("funding_rate", FeatureCategory::Flow);
    registry.register_feature("oi_change", FeatureCategory::Volume);
    registry.register_feature("price_impact", FeatureCategory::Liquidity);
    registry.register_feature("trade_flow_toxicity", FeatureCategory::Flow);
    proof {
        assert(registry.history() =~= market_registrations());
    }
    registry
}

} // verus!
