//! The persisted configuration as the core sees it: the tracked-asset set,
//! one optional upper and one optional lower threshold per asset, and the
//! contact endpoint for the message transport.
//!
//! Threshold values and prices are plain integer amounts in the quote
//! currency; everything that arrives from outside is converted to that form
//! before it reaches the library.

use vstd::prelude::*;

verus! {

/// One registered threshold: an asset id and the trigger value.
struct ThresholdEntry {
    asset: String,
    value: u64,
}

/// First-match lookup in a sequence of pairs keyed by asset id.
pub open spec fn spec_lookup(pairs: Seq<(Seq<char>, u64)>, key: Seq<char>) -> Option<u64>
    decreases pairs.len(),
{
    if pairs.len() == 0 {
        None
    } else if pairs[0].0 == key {
        Some(pairs[0].1)
    } else {
        spec_lookup(pairs.drop_first(), key)
    }
}

pub(crate) proof fn lemma_lookup_none_iff(pairs: Seq<(Seq<char>, u64)>, key: Seq<char>)
    ensures
        spec_lookup(pairs, key) is None <==> (forall|i: int|
            0 <= i < pairs.len() ==> (#[trigger] pairs[i]).0 != key),
    decreases pairs.len(),
{
    if pairs.len() > 0 {
        lemma_lookup_none_iff(pairs.drop_first(), key);
        assert(forall|i: int|
            1 <= i < pairs.len() ==> #[trigger] pairs[i] == pairs.drop_first()[i - 1]);
    }
}

pub(crate) proof fn lemma_lookup_first_match(pairs: Seq<(Seq<char>, u64)>, key: Seq<char>, i: int)
    requires
        0 <= i < pairs.len(),
        pairs[i].0 == key,
        forall|j: int| 0 <= j < i ==> (#[trigger] pairs[j]).0 != key,
    ensures
        spec_lookup(pairs, key) == Some(pairs[i].1),
    decreases i,
{
    if i > 0 {
        lemma_lookup_first_match(pairs.drop_first(), key, i - 1);
        assert(forall|j: int|
            0 <= j < pairs.len() - 1 ==> #[trigger] pairs.drop_first()[j] == pairs[j + 1]);
    }
}

proof fn lemma_lookup_update_other(
    pairs: Seq<(Seq<char>, u64)>,
    i: int,
    value: u64,
    k: Seq<char>,
)
    requires
        0 <= i < pairs.len(),
        k != pairs[i].0,
    ensures
        spec_lookup(pairs.update(i, (pairs[i].0, value)), k) == spec_lookup(pairs, k),
    decreases i,
{
    let updated = pairs.update(i, (pairs[i].0, value));
    if i == 0 {
        assert(updated.drop_first() =~= pairs.drop_first());
    } else {
        lemma_lookup_update_other(pairs.drop_first(), i - 1, value, k);
        assert(updated.drop_first() =~= pairs.drop_first().update(i - 1, (pairs[i].0, value)));
    }
}

proof fn lemma_lookup_push(pairs: Seq<(Seq<char>, u64)>, key: Seq<char>, value: u64, k: Seq<char>)
    ensures
        spec_lookup(pairs.push((key, value)), k) == if spec_lookup(pairs, k) is Some {
            spec_lookup(pairs, k)
        } else if k == key {
            Some(value)
        } else {
            None::<u64>
        },
    decreases pairs.len(),
{
    let pp = pairs.push((key, value));
    if pairs.len() == 0 {
        assert(pp[0] == (key, value));
        assert(pp.drop_first() =~= Seq::<(Seq<char>, u64)>::empty());
        if k == key {
            assert(spec_lookup(pp, k) == Some(value));
        } else {
            assert(spec_lookup(pp, k) == spec_lookup(pp.drop_first(), k));
        }
    } else {
        lemma_lookup_push(pairs.drop_first(), key, value, k);
        assert(pp[0] == pairs[0]);
        assert(pp.drop_first() =~= pairs.drop_first().push((key, value)));
        if pairs[0].0 != k {
            assert(spec_lookup(pp, k) == spec_lookup(pp.drop_first(), k));
            assert(spec_lookup(pairs, k) == spec_lookup(pairs.drop_first(), k));
        }
    }
}

proof fn lemma_wf_distinct(m: &ThresholdMap, i: int, j: int)
    requires
        m.wf(),
        0 <= i < j < m.pairs().len(),
    ensures
        m.pairs()[i].0 != m.pairs()[j].0,
{
}

/// The thresholds of one direction (upper or lower), keyed by asset id.
///
/// Keys are unique as long as the map is only changed through `insert`;
/// lookups take the first match, so even a map built some other way still
/// behaves like a map.
pub struct ThresholdMap {
    entries: Vec<ThresholdEntry>,
}

impl ThresholdMap {
    /// The (asset id, threshold) pairs in storage order.
    pub closed spec fn pairs(&self) -> Seq<(Seq<char>, u64)> {
        Seq::new(self.entries@.len(), |i: int| (self.entries@[i].asset@, self.entries@[i].value))
    }

    /// No asset id occurs twice.
    pub open spec fn wf(&self) -> bool {
        forall|i: int, j: int|
            0 <= i < j < self.pairs().len() ==> (#[trigger] self.pairs()[i]).0 != (
            #[trigger] self.pairs()[j]).0
    }

    /// The registered threshold for `key`, if any.
    pub open spec fn spec_get(&self, key: Seq<char>) -> Option<u64> {
        spec_lookup(self.pairs(), key)
    }

    pub fn new() -> (m: Self)
        ensures
            m.pairs() == Seq::<(Seq<char>, u64)>::empty(),
            m.wf(),
    {
        let m = ThresholdMap { entries: Vec::new() };
        proof {
            assert(m.pairs() =~= Seq::<(Seq<char>, u64)>::empty());
        }
        m
    }

    pub fn len(&self) -> (n: usize)
        ensures
            n == self.pairs().len(),
    {
        self.entries.len()
    }

    /// The index of the entry for `key`, if one exists.
    fn find(&self, key: &String) -> (r: Option<usize>)
        ensures
            match r {
                Some(i) => i < self.pairs().len() && self.pairs()[i as int].0 == key@ && (forall|
                    j: int,
                |
                    0 <= j < i ==> (#[trigger] self.pairs()[j]).0 != key@),
                None => forall|j: int|
                    0 <= j < self.pairs().len() ==> (#[trigger] self.pairs()[j]).0 != key@,
            },
    {
        let n = self.entries.len();
        let mut i: usize = 0;
        loop
            invariant
                n == self.pairs().len(),
                i <= n,
                forall|j: int| 0 <= j < i ==> (#[trigger] self.pairs()[j]).0 != key@,
            decreases n - i,
        {
            if i == n {
                return None;
            }
            if <String as PartialEq<String>>::eq(&self.entries[i].asset, key) {
                return Some(i);
            }
            i = i + 1;
        }
    }

    /// The registered threshold for `key`, if any.
    pub fn get(&self, key: &String) -> (r: Option<u64>)
        ensures
            r == self.spec_get(key@),
    {
        match self.find(key) {
            Some(i) => {
                proof {
                    lemma_lookup_first_match(self.pairs(), key@, i as int);
                }
                Some(self.entries[i].value)
            },
            None => {
                proof {
                    lemma_lookup_none_iff(self.pairs(), key@);
                }
                None
            },
        }
    }

    /// Registers `value` for `key`, replacing an earlier entry for the same
    /// asset if there is one.
    pub fn insert(&mut self, key: String, value: u64)
        ensures
            final(self).spec_get(key@) == Some(value),
            forall|k: Seq<char>|
                k != key@ ==> final(self).spec_get(k) == old(self).spec_get(k),
            old(self).wf() ==> final(self).wf(),
            final(self).pairs().len() == if old(self).spec_get(key@) is Some {
                old(self).pairs().len()
            } else {
                old(self).pairs().len() + 1
            },
    {
        let ghost old_pairs = old(self).pairs();
        match self.find(&key) {
            Some(i) => {
                proof {
                    lemma_lookup_first_match(old_pairs, key@, i as int);
                }
                self.entries[i] = ThresholdEntry { asset: key, value };
                proof {
                    assert(self.pairs() =~= old_pairs.update(
                        i as int,
                        (old_pairs[i as int].0, value),
                    ));
                    lemma_lookup_first_match(self.pairs(), key@, i as int);
                    assert forall|k: Seq<char>| k != key@ implies spec_lookup(self.pairs(), k)
                        == spec_lookup(old_pairs, k) by {
                        lemma_lookup_update_other(old_pairs, i as int, value, k);
                    }
                    if old(self).wf() {
                        assert forall|i1: int, j1: int|
                            0 <= i1 < j1 < self.pairs().len() implies (
                        #[trigger] self.pairs()[i1]).0 != (#[trigger] self.pairs()[j1]).0 by {
                            assert(self.pairs()[i1].0 == old_pairs[i1].0);
                            assert(self.pairs()[j1].0 == old_pairs[j1].0);
                            lemma_wf_distinct(old(self), i1, j1);
                        }
                    }
                }
            },
            None => {
                proof {
                    lemma_lookup_none_iff(old_pairs, key@);
                    assert(spec_lookup(old_pairs, key@) is None);
                }
                self.entries.push(ThresholdEntry { asset: key, value });
                proof {
                    assert(self.pairs() =~= old_pairs.push((key@, value)));
                    assert forall|k: Seq<char>| k != key@ implies spec_lookup(self.pairs(), k)
                        == spec_lookup(old_pairs, k) by {
                        lemma_lookup_push(old_pairs, key@, value, k);
                    }
                    lemma_lookup_push(old_pairs, key@, value, key@);
                    if old(self).wf() {
                        assert forall|i1: int, j1: int|
                            0 <= i1 < j1 < self.pairs().len() implies (
                        #[trigger] self.pairs()[i1]).0 != (#[trigger] self.pairs()[j1]).0 by {
                            if j1 == self.pairs().len() - 1 {
                                assert(self.pairs()[i1] == old_pairs[i1]);
                                assert(self.pairs()[j1].0 == key@);
                            } else {
                                assert(self.pairs()[i1] == old_pairs[i1]);
                                assert(self.pairs()[j1] == old_pairs[j1]);
                                lemma_wf_distinct(old(self), i1, j1);
                            }
                        }
                    }
                }
            },
        }
    }

    /// The asset id of the entry at position `i`.
    pub fn key_at(&self, i: usize) -> (k: &String)
        requires
            i < self.pairs().len(),
        ensures
            k@ == self.pairs()[i as int].0,
    {
        &self.entries[i].asset
    }
}

/// The configuration snapshot that one poll tick works on: the tracked
/// assets, the two threshold maps, and the contact endpoint of the message
/// transport.
pub struct Config {
    /// The tracked-asset set, in the order the user added the assets.
    pub currencies: Vec<String>,
    /// The quote currency that prices and thresholds are expressed in.
    pub priced_in: String,
    /// Per-asset upper trigger: alert when the price goes above it.
    pub notify_above: ThresholdMap,
    /// Per-asset lower trigger: alert when the price drops below it.
    pub notify_below: ThresholdMap,
    /// The transport's sending number.
    pub my_number: String,
    /// The number alerts are delivered to.
    pub to_number: String,
    /// Transport account id.
    pub account_id: String,
    /// Transport credential.
    pub auth_token: String,
}

impl Config {
    /// The tracked asset ids, in order.
    pub open spec fn spec_ids(&self) -> Seq<Seq<char>> {
        Seq::new(self.currencies@.len(), |i: int| self.currencies@[i]@)
    }

    /// Whether `id` is in the tracked-asset set.
    pub open spec fn is_tracked(&self, id: Seq<char>) -> bool {
        exists|i: int| 0 <= i < self.spec_ids().len() && self.spec_ids()[i] == id
    }

    /// Tracked asset ids are unique and the threshold maps are well formed.
    pub open spec fn wf(&self) -> bool {
        &&& forall|i: int, j: int|
            0 <= i < j < self.spec_ids().len() ==> self.spec_ids()[i] != self.spec_ids()[j]
        &&& self.notify_above.wf()
        &&& self.notify_below.wf()
    }

    /// Every registered threshold belongs to a tracked asset.
    pub open spec fn consistent(&self) -> bool {
        &&& forall|i: int|
            0 <= i < self.notify_above.pairs().len() ==> self.is_tracked(
                (#[trigger] self.notify_above.pairs()[i]).0,
            )
        &&& forall|i: int|
            0 <= i < self.notify_below.pairs().len() ==> self.is_tracked(
                (#[trigger] self.notify_below.pairs()[i]).0,
            )
    }

    /// The index of `id` in the tracked-asset set, if it is tracked.
    fn find_currency(&self, id: &String) -> (r: Option<usize>)
        ensures
            match r {
                Some(i) => i < self.spec_ids().len() && self.spec_ids()[i as int] == id@,
                None => !self.is_tracked(id@),
            },
    {
        let n = self.currencies.len();
        let mut i: usize = 0;
        loop
            invariant
                n == self.spec_ids().len(),
                i <= n,
                forall|j: int| 0 <= j < i ==> self.spec_ids()[j] != id@,
            decreases n - i,
        {
            if i == n {
                return None;
            }
            if <String as PartialEq<String>>::eq(&self.currencies[i], id) {
                return Some(i);
            }
            i = i + 1;
        }
    }

    /// Whether `id` is in the tracked-asset set.
    pub fn contains_currency(&self, id: &String) -> (b: bool)
        ensures
            b == self.is_tracked(id@),
    {
        self.find_currency(id).is_some()
    }

    /// Adds `id` to the tracked-asset set unless it is already there.
    pub fn add_currency(&mut self, id: String) -> (added: bool)
        ensures
            added == !old(self).is_tracked(id@),
            added ==> final(self).spec_ids() == old(self).spec_ids().push(id@),
            !added ==> final(self).spec_ids() == old(self).spec_ids(),
            final(self).priced_in == old(self).priced_in,
            final(self).notify_above == old(self).notify_above,
            final(self).notify_below == old(self).notify_below,
            final(self).my_number == old(self).my_number,
            final(self).to_number == old(self).to_number,
            final(self).account_id == old(self).account_id,
            final(self).auth_token == old(self).auth_token,
            old(self).wf() ==> final(self).wf(),
    {
        match self.find_currency(&id) {
            Some(_) => false,
            None => {
                let ghost old_ids = old(self).spec_ids();
                self.currencies.push(id);
                proof {
                    assert(self.spec_ids() =~= old_ids.push(id@));
                    if old(self).wf() {
                        assert forall|i1: int, j1: int|
                            0 <= i1 < j1 < self.spec_ids().len() implies self.spec_ids()[i1]
                            != self.spec_ids()[j1] by {
                            if j1 == self.spec_ids().len() - 1 {
                                assert(self.spec_ids()[i1] == old_ids[i1]);
                                assert(!old(self).is_tracked(id@));
                            }
                        }
                    }
                }
                true
            },
        }
    }

    /// Removes `id` from the tracked-asset set if it is there.
    ///
    /// Thresholds registered for `id` stay behind, exactly as the
    /// configuration editor leaves them; `check_consistency` reports them.
    pub fn remove_currency(&mut self, id: &String) -> (removed: bool)
        ensures
            removed == old(self).is_tracked(id@),
            removed ==> exists|i: int|
                0 <= i < old(self).spec_ids().len() && old(self).spec_ids()[i] == id@
                    && final(self).spec_ids() == old(self).spec_ids().remove(i),
            !removed ==> final(self).spec_ids() == old(self).spec_ids(),
            final(self).priced_in == old(self).priced_in,
            final(self).notify_above == old(self).notify_above,
            final(self).notify_below == old(self).notify_below,
            final(self).my_number == old(self).my_number,
            final(self).to_number == old(self).to_number,
            final(self).account_id == old(self).account_id,
            final(self).auth_token == old(self).auth_token,
            old(self).wf() ==> final(self).wf(),
    {
        match self.find_currency(id) {
            Some(i) => {
                let ghost old_ids = old(self).spec_ids();
                self.currencies.remove(i);
                proof {
                    assert(self.spec_ids() =~= old_ids.remove(i as int));
                    if old(self).wf() {
                        assert forall|i1: int, j1: int|
                            0 <= i1 < j1 < self.spec_ids().len() implies self.spec_ids()[i1]
                            != self.spec_ids()[j1] by {
                            let oi = if i1 < i { i1 } else { i1 + 1 };
                            let oj = if j1 < i { j1 } else { j1 + 1 };
                            assert(self.spec_ids()[i1] == old_ids[oi]);
                            assert(self.spec_ids()[j1] == old_ids[oj]);
                        }
                    }
                }
                true
            },
            None => false,
        }
    }

    /// Checks that every registered threshold still belongs to a tracked
    /// asset; `false` means the configuration was edited into an
    /// inconsistent state and the operator should be told.
    pub fn check_consistency(&self) -> (b: bool)
        ensures
            b == self.consistent(),
    {
        let na = self.notify_above.len();
        let mut i: usize = 0;
        while i < na
            invariant
                na == self.notify_above.pairs().len(),
                i <= na,
                forall|j: int|
                    0 <= j < i ==> self.is_tracked((#[trigger] self.notify_above.pairs()[j]).0),
            decreases na - i,
        {
            if !self.contains_currency(self.notify_above.key_at(i)) {
                return false;
            }
            i = i + 1;
        }
        let nb = self.notify_below.len();
        let mut i: usize = 0;
        while i < nb
            invariant
                na == self.notify_above.pairs().len(),
                nb == self.notify_below.pairs().len(),
                forall|j: int|
                    0 <= j < na ==> self.is_tracked((#[trigger] self.notify_above.pairs()[j]).0),
                i <= nb,
                forall|j: int|
                    0 <= j < i ==> self.is_tracked((#[trigger] self.notify_below.pairs()[j]).0),
            decreases nb - i,
        {
            if !self.contains_currency(self.notify_below.key_at(i)) {
                return false;
            }
            i = i + 1;
        }
        true
    }
}

impl Default for Config {
    /// An empty configuration priced in US dollars, with no tracked assets,
    /// no thresholds, and an empty contact endpoint.
    fn default() -> (c: Config)
        ensures
            c.spec_ids() == Seq::<Seq<char>>::empty(),
            c.priced_in@ == "usd"@,
            c.notify_above.pairs() == Seq::<(Seq<char>, u64)>::empty(),
            c.notify_below.pairs() == Seq::<(Seq<char>, u64)>::empty(),
            c.my_number@ == Seq::<char>::empty(),
            c.to_number@ == Seq::<char>::empty(),
            c.account_id@ == Seq::<char>::empty(),
            c.auth_token@ == Seq::<char>::empty(),
            c.wf(),
            c.consistent(),
    {
        let c = Config {
            currencies: Vec::new(),
            priced_in: "usd".to_owned(),
            notify_above: ThresholdMap::new(),
            notify_below: ThresholdMap::new(),
            my_number: String::new(),
            to_number: String::new(),
            account_id: String::new(),
            auth_token: String::new(),
        };
        proof {
            assert(c.spec_ids() =~= Seq::<Seq<char>>::empty());
        }
        c
    }
}

} // verus!
