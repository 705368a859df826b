//! Keys of subscriptions, and the set of those that are active.

use vstd::prelude::*;

verus! {

/// What identifies a subscription: its type and, for candles, the coin and
/// the interval.
#[derive(Debug, Clone, PartialEq, Eq, Hash)]
pub struct SubscriptionKey {
    pub sub_type: String,
    pub coin: Option<String>,
    pub interval: Option<String>,
}

/// A key as a mathematical value.
pub struct SubscriptionKeyView {
    pub sub_type: Seq<char>,
    pub coin: Option<Seq<char>>,
    pub interval: Option<Seq<char>>,
}

/// An optional text as a mathematical value.
pub open spec fn optional_text(text: Option<String>) -> Option<Seq<char>> {
    match text {
        Some(t) => Some(t@),
        None => None,
    }
}

impl View for SubscriptionKey {
    type V = SubscriptionKeyView;

    open spec fn view(&self) -> SubscriptionKeyView {
        SubscriptionKeyView {
            sub_type: self.sub_type@,
            coin: optional_text(self.coin),
            interval: optional_text(self.interval),
        }
    }
}

/// Whether two optional texts are both absent or both the same text.
fn same_optional_text(a: &Option<String>, b: &Option<String>) -> (same: bool)
    ensures
        same == (optional_text(*a) == optional_text(*b)),
{
    match (a, b) {
        (None, None) => true,
        (Some(x), Some(y)) => *x == *y,
        _ => false,
    }
}

impl SubscriptionKey {
    /// The key of the candle subscription for a coin and an interval.
    pub fn candle(coin: &str, interval: &str) -> (key: Self)
        ensures
            key.sub_type@ == "candle"@,
            key.coin matches Some(c) && c@ == coin@,
            key.interval matches Some(i) && i@ == interval@,
    {
        SubscriptionKey {
            sub_type: String::from_str("candle"),
            coin: Some(String::from_str(coin)),
            interval: Some(String::from_str(interval)),
        }
    }

    /// The key of the subscription to all mid prices.
    pub fn all_mids() -> (key: Self)
        ensures
            key.sub_type@ == "allMids"@,
            key.coin is None,
            key.interval is None,
    {
        SubscriptionKey { sub_type: String::from_str("allMids"), coin: None, interval: None }
    }

    /// Whether two keys identify the same subscription.
    pub fn same(&self, other: &SubscriptionKey) -> (same: bool)
        ensures
            same == (self@ == other@),
    {
        self.sub_type == other.sub_type && same_optional_text(&self.coin, &other.coin)
            && same_optional_text(&self.interval, &other.interval)
    }
}

/// The subscriptions that are active, each once.
pub struct SubscriptionManager {
    active: Vec<SubscriptionKey>,
}

impl View for SubscriptionManager {
    type V = Set<SubscriptionKeyView>;

    closed spec fn view(&self) -> Set<SubscriptionKeyView> {
        Set::new(|key: SubscriptionKeyView| self.holds(key))
    }
}

impl SubscriptionManager {
    /// No key is held twice.
    pub closed spec fn wf(self) -> bool {
        forall|i: int, j: int|
            0 <= i < j < self.active@.len() ==> (#[trigger] self.active@[i])@
                != (#[trigger] self.active@[j])@
    }

    /// Some held key has this value.
    spec fn holds(self, key: SubscriptionKeyView) -> bool {
        exists|i: int| 0 <= i < self.active@.len() && (#[trigger] self.active@[i])@ == key
    }

    /// With no subscription active.
    pub fn new() -> (manager: Self)
        ensures
            manager.wf(),
            manager@ == Set::<SubscriptionKeyView>::empty(),
    {
        let manager = SubscriptionManager { active: Vec::new() };
        assert(manager@ =~= Set::<SubscriptionKeyView>::empty());
        manager
    }

    /// Where a key is held, if it is.
    fn position(&self, key: &SubscriptionKey) -> (found: Option<usize>)
        ensures
            match found {
                Some(i) => i < self.active@.len() && self.active@[i as int]@ == key@,
                None => !self.holds(key@),
            },
    {
        let mut i: usize = 0;
        while i < self.active.len()
            invariant
                i <= self.active@.len(),
                forall|j: int| 0 <= j < i ==> (#[trigger] self.active@[j])@ != key@,
            decreases self.active@.len() - i,
        {
            if self.active[i].same(key) {
                return Some(i);
            }
            i = i + 1;
        }
        None
    }

    /// Makes a subscription active. One that already is stays so, once.
    pub fn add(&mut self, key: SubscriptionKey)
        requires
            old(self).wf(),
        ensures
            final(self).wf(),
            final(self)@ == old(self)@.insert(key@),
    {
        if self.position(&key).is_none() {
            let ghost before = self.active@;
            self.active.push(key);
            assert(self.active@ == before.push(key));
            assert forall|k: SubscriptionKeyView| self@.contains(k) <==> old(self)@.insert(
                key@,
            ).contains(k) by {
                if old(self).holds(k) {
                    let i = choose|i: int|
                        0 <= i < before.len() && (#[trigger] before[i])@ == k;
                    assert(self.active@[i]@ == k);
                }
                if k == key@ {
                    assert(self.active@[before.len() as int]@ == k);
                }
            }
            assert(self@ =~= old(self)@.insert(key@));
        } else {
            assert(self@ =~= old(self)@.insert(key@));
        }
    }

    /// Makes a subscription inactive. One that was not active changes
    /// nothing.
    pub fn remove(&mut self, key: &SubscriptionKey)
        requires
            old(self).wf(),
        ensures
            final(self).wf(),
            final(self)@ == old(self)@.remove(key@),
    {
        match self.position(key) {
            Some(i) => {
                let ghost before = self.active@;
                self.active.remove(i);
                assert(self.active@ == before.remove(i as int));
                assert forall|k: SubscriptionKeyView| self@.contains(k) <==> old(self)@.remove(
                    key@,
                ).contains(k) by {
                    if self.holds(k) {
                        let j = choose|j: int|
                            0 <= j < self.active@.len() && (#[trigger] self.active@[j])@ == k;
                        if j < i {
                            assert(before[j]@ == k);
                        } else {
                            assert(before[j + 1]@ == k);
                        }
                    }
                    if old(self).holds(k) && k != key@ {
                        let j = choose|j: int|
                            0 <= j < before.len() && (#[trigger] before[j])@ == k;
                        if j < i {
                            assert(self.active@[j]@ == k);
                        } else {
                            assert(self.active@[j - 1]@ == k);
                        }
                    }
                }
                assert(self@ =~= old(self)@.remove(key@));
            },
            None => {
                assert(self@ =~= old(self)@.remove(key@));
            },
        }
    }

    /// Whether a subscription is active.
    pub fn contains(&self, key: &SubscriptionKey) -> (active: bool)
        ensures
            active == self@.contains(key@),
    {
        self.position(key).is_some()
    }

    /// Whether no subscription is active.
    pub fn is_empty(&self) -> (empty: bool)
        ensures
            empty == (self@ == Set::<SubscriptionKeyView>::empty()),
    {
        let empty = self.active.len() == 0;
        proof {
            if empty {
                assert(self@ =~= Set::<SubscriptionKeyView>::empty());
            } else {
                assert(self.holds(self.active@[0]@));
                assert(self@.contains(self.active@[0]@));
            }
        }
        empty
    }
}

} // verus!
