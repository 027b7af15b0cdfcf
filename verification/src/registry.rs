//! The registry of monitors: one monitor for every instrument seen, kept in
//! shards by the hash of the instrument's fingerprint.

use crate::anomaly::{records, records_under_some_ids, restamp, AnomalyDetection};
use crate::assoc::{
    assoc_map, has_key, lemma_assoc_get, lemma_assoc_keys, lemma_assoc_push, lemma_assoc_update,
    unique_keys,
};
use crate::key::{fingerprint_spec, slot_for, slot_of, symbol_spec, InstrumentKey, InstrumentKeyView};
use crate::monitor::{
    fresh_monitor, monitor_after, monitor_after_book, monitor_emits, stats_of, InstrumentMonitor,
    InstrumentStats, MonitorConfig, MonitorState,
};
use vstd::prelude::*;
use vstd::string::*;

verus! {

/// The monitor of one instrument, under the instrument's fingerprint.
#[derive(Debug)]
pub struct RegistryEntry {
    key: String,
    monitor: InstrumentMonitor,
}

/// Keeps the monitor of every instrument seen so far, and makes that of an
/// instrument when its first event comes.  No monitor is ever removed.
#[derive(Debug)]
pub struct DetectorRegistry {
    shards: Vec<Vec<RegistryEntry>>,
    config: MonitorConfig,
}

/// The keys and monitors of one shard, in the order in which they came.
pub open spec fn shard_pairs(shard: Seq<RegistryEntry>) -> Seq<(Seq<char>, MonitorState)> {
    Seq::new(shard.len(), |j: int| (shard[j].key(), shard[j].monitor()))
}

impl RegistryEntry {
    /// The fingerprint under which the monitor is kept.
    pub closed spec fn key(&self) -> Seq<char> {
        self.key@
    }

    /// What the monitor holds.
    pub closed spec fn monitor(&self) -> MonitorState {
        self.monitor@
    }

    /// The invariant of the monitor.
    pub closed spec fn valid(&self) -> bool {
        self.monitor.valid()
    }
}

impl View for DetectorRegistry {
    type V = Map<Seq<char>, MonitorState>;

    closed spec fn view(&self) -> Map<Seq<char>, MonitorState> {
        Map::new(
            |k: Seq<char>| assoc_map(self.pairs_for(k)).contains_key(k),
            |k: Seq<char>| assoc_map(self.pairs_for(k))[k],
        )
    }
}

impl DetectorRegistry {
    /// The number of shards.
    pub closed spec fn shard_count(&self) -> nat {
        self.shards@.len()
    }

    /// The configuration of the monitors that the registry makes.
    pub closed spec fn config(&self) -> MonitorConfig {
        self.config
    }

    /// The keys and monitors of the shard to which a fingerprint belongs.
    pub closed spec fn pairs_for(&self, k: Seq<char>) -> Seq<(Seq<char>, MonitorState)> {
        shard_pairs(self.shards@[slot_of(k, self.shards@.len() as int)]@)
    }

    /// The registry's invariant: at least one shard; in each shard no
    /// fingerprint twice, only fingerprints that belong to it, and only valid
    /// monitors.
    pub closed spec fn valid(&self) -> bool {
        &&& self.shards@.len() >= 1
        &&& self.config.wf()
        &&& forall|i: int|
            0 <= i < self.shards@.len() ==> unique_keys(shard_pairs(#[trigger] self.shards@[i]@))
        &&& forall|i: int, j: int|
            0 <= i < self.shards@.len() && 0 <= j < self.shards@[i]@.len() ==> {
                &&& (#[trigger] self.shards@[i]@[j]).valid()
                &&& slot_of(self.shards@[i]@[j].key(), self.shards@.len() as int) == i
            }
    }

    /// What the registry holds for an instrument: its monitor, or that of a
    /// new instrument where it has none.
    pub open spec fn monitor_of(&self, key: InstrumentKeyView) -> MonitorState {
        let fp = fingerprint_spec(key);
        if self@.contains_key(fp) {
            self@[fp]
        } else {
            fresh_monitor(self.config(), symbol_spec(key), key.exchange_id)
        }
    }

    /// A registry of `shard_count` shards that has seen no instrument.
    pub fn new(config: MonitorConfig, shard_count: usize) -> (r: Self)
        requires
            config.wf(),
            shard_count >= 1,
        ensures
            r.valid(),
            r@ == Map::<Seq<char>, MonitorState>::empty(),
            r.shard_count() == shard_count,
            r.config() == config,
    {
        let mut shards: Vec<Vec<RegistryEntry>> = Vec::new();
        let mut i: usize = 0;
        while i < shard_count
            invariant
                i <= shard_count,
                shards@.len() == i,
                forall|j: int| 0 <= j < i ==> (#[trigger] shards@[j])@.len() == 0,
            decreases shard_count - i,
        {
            shards.push(Vec::new());
            i = i + 1;
        }
        DetectorRegistry { shards, config }
    }

    fn find(&self, shard: usize, key: &String) -> (r: Option<usize>)
        requires
            shard < self.shards@.len(),
        ensures
            match r {
                Some(j) => j < self.shards@[shard as int]@.len() && shard_pairs(
                    self.shards@[shard as int]@,
                )[j as int].0 == key@,
                None => !has_key(shard_pairs(self.shards@[shard as int]@), key@),
            },
    {
        let mut j: usize = 0;
        while j < self.shards[shard].len()
            invariant
                shard < self.shards@.len(),
                j <= self.shards@[shard as int]@.len(),
                forall|m: int|
                    0 <= m < j ==> (#[trigger] shard_pairs(self.shards@[shard as int]@)[m]).0
                        != key@,
            decreases self.shards@[shard as int]@.len() - j,
        {
            if self.shards[shard][j].key == *key {
                return Some(j);
            }
            j = j + 1;
        }
        None
    }

    /// The place of an instrument's monitor, which is made first where the
    /// registry has none for it.
    fn locate(&mut self, key: &InstrumentKey) -> (at: (usize, usize))
        requires
            old(self).valid(),
        ensures
            final(self).valid(),
            final(self).config() == old(self).config(),
            final(self).shard_count() == old(self).shard_count(),
            final(self)@ == old(self)@.insert(fingerprint_spec(key@), old(self).monitor_of(key@)),
            at.0 == slot_of(fingerprint_spec(key@), final(self).shards@.len() as int),
            at.0 < final(self).shards@.len(),
            at.1 < final(self).shards@[at.0 as int]@.len(),
            final(self).shards@[at.0 as int]@[at.1 as int].key() == fingerprint_spec(key@),
            final(self).shards@[at.0 as int]@[at.1 as int].monitor() == old(self).monitor_of(key@),
    {
        let fingerprint = key.fingerprint();
        let shard = slot_for(fingerprint.as_str(), self.shards.len() as u64) as usize;
        let ghost fp = fingerprint@;
        let ghost before = shard_pairs(self.shards@[shard as int]@);
        proof {
            lemma_assoc_keys(before, fp);
        }
        match self.find(shard, &fingerprint) {
            Some(j) => {
                proof {
                    lemma_assoc_get(before, j as int);
                }
                (shard, j)
            },
            None => {
                let symbol = key.symbol();
                let monitor = InstrumentMonitor::new(
                    self.config,
                    symbol.as_str(),
                    key.exchange_id.as_str(),
                );
                let ghost fresh = monitor@;
                let j = self.shards[shard].len();
                self.shards[shard].push(RegistryEntry { key: fingerprint, monitor });
                proof {
                    let after = shard_pairs(self.shards@[shard as int]@);
                    assert(after =~= before.push((fp, fresh)));
                    lemma_assoc_push(before, fp, fresh);
                }
                (shard, j)
            },
        }
    }

    /// Where one shard went from the pairs `before` to pairs whose map is
    /// that of `before` with one more entry under `fp`, and the other shards
    /// stayed, the registry's map gained that entry.
    proof fn lemma_shard_changed(
        &self,
        old_self: DetectorRegistry,
        shard: int,
        fp: Seq<char>,
        v: MonitorState,
    )
        requires
            0 <= shard < self.shards@.len(),
            self.shards@.len() == old_self.shards@.len(),
            slot_of(fp, self.shards@.len() as int) == shard,
            forall|i: int|
                0 <= i < self.shards@.len() && i != shard ==> self.shards@[i] == old_self.shards@[i],
            assoc_map(shard_pairs(self.shards@[shard]@)) == assoc_map(
                shard_pairs(old_self.shards@[shard]@),
            ).insert(fp, v),
        ensures
            self@ == old_self@.insert(fp, v),
    {
    }

    /// Hands one trade of an instrument to its monitor, which is made first
    /// where the registry has none for it.  At most one alert is emitted,
    /// under the identifier `id`.
    pub fn observe_trade_with_id(
        &mut self,
        key: &InstrumentKey,
        price: i64,
        quantity: i64,
        exchange_time: i64,
        id: u128,
    ) -> (r: Vec<AnomalyDetection>)
        requires
            old(self).valid(),
        ensures
            final(self).valid(),
            final(self).config() == old(self).config(),
            final(self).shard_count() == old(self).shard_count(),
            final(self)@ == old(self)@.insert(
                fingerprint_spec(key@),
                monitor_after(old(self).monitor_of(key@), price, quantity, exchange_time),
            ),
            old(self)@.dom().subset_of(final(self)@.dom()),
            records(r@) == monitor_emits(
                old(self).monitor_of(key@),
                price,
                quantity,
                exchange_time,
                id,
            ),
    {
        let (shard, j) = self.locate(key);
        let ghost fp = fingerprint_spec(key@);
        let ghost start = old(self).monitor_of(key@);
        let ghost mid = *self;
        let ghost before = shard_pairs(self.shards@[shard as int]@);
        let found = self.shards[shard][j].monitor.observe_trade_with_id(
            price,
            quantity,
            exchange_time,
            id,
        );
        proof {
            let next = monitor_after(start, price, quantity, exchange_time);
            let after = shard_pairs(self.shards@[shard as int]@);
            assert(after =~= before.update(j as int, (fp, next)));
            lemma_assoc_update(before, j as int, next);
            self.lemma_shard_changed(mid, shard as int, fp, next);
        }
        found
    }

    /// Hands one trade of an instrument to its monitor, which is made first
    /// where the registry has none for it.  At most one alert is emitted,
    /// under a new random identifier.
    pub fn observe_trade(&mut self, key: &InstrumentKey, price: i64, quantity: i64, exchange_time: i64) -> (r:
        Vec<AnomalyDetection>)
        requires
            old(self).valid(),
        ensures
            final(self).valid(),
            final(self).config() == old(self).config(),
            final(self).shard_count() == old(self).shard_count(),
            final(self)@ == old(self)@.insert(
                fingerprint_spec(key@),
                monitor_after(old(self).monitor_of(key@), price, quantity, exchange_time),
            ),
            old(self)@.dom().subset_of(final(self)@.dom()),
            records_under_some_ids(
                r@,
                monitor_emits(old(self).monitor_of(key@), price, quantity, exchange_time, 0),
            ),
    {
        let found = self.observe_trade_with_id(key, price, quantity, exchange_time, 0);
        restamp(found)
    }

    /// Hands one top-of-book update of an instrument to its monitor, which
    /// is made first where the registry has none for it.
    pub fn observe_book_top(
        &mut self,
        key: &InstrumentKey,
        bid_price: i64,
        bid_quantity: i64,
        ask_price: i64,
        ask_quantity: i64,
    )
        requires
            old(self).valid(),
        ensures
            final(self).valid(),
            final(self).config() == old(self).config(),
            final(self).shard_count() == old(self).shard_count(),
            final(self)@ == old(self)@.insert(
                fingerprint_spec(key@),
                monitor_after_book(
                    old(self).monitor_of(key@),
                    bid_price,
                    bid_quantity,
                    ask_price,
                    ask_quantity,
                ),
            ),
            old(self)@.dom().subset_of(final(self)@.dom()),
    {
        let (shard, j) = self.locate(key);
        let ghost fp = fingerprint_spec(key@);
        let ghost start = old(self).monitor_of(key@);
        let ghost mid = *self;
        let ghost before = shard_pairs(self.shards@[shard as int]@);
        let _ = self.shards[shard][j].monitor.observe_book_top(
            bid_price,
            bid_quantity,
            ask_price,
            ask_quantity,
        );
        proof {
            let next = monitor_after_book(start, bid_price, bid_quantity, ask_price, ask_quantity);
            let after = shard_pairs(self.shards@[shard as int]@);
            assert(after =~= before.update(j as int, (fp, next)));
            lemma_assoc_update(before, j as int, next);
            self.lemma_shard_changed(mid, shard as int, fp, next);
        }
    }

    /// Whether the registry has a monitor for an instrument.
    pub fn contains(&self, key: &InstrumentKey) -> (r: bool)
        requires
            self.valid(),
        ensures
            r == self@.contains_key(fingerprint_spec(key@)),
    {
        let fingerprint = key.fingerprint();
        let shard = slot_for(fingerprint.as_str(), self.shards.len() as u64) as usize;
        proof {
            lemma_assoc_keys(shard_pairs(self.shards@[shard as int]@), fingerprint@);
        }
        self.find(shard, &fingerprint).is_some()
    }

    /// The counters and latest statistics of an instrument, if the registry
    /// has a monitor for it.
    pub fn stats(&self, key: &InstrumentKey) -> (r: Option<InstrumentStats>)
        requires
            self.valid(),
        ensures
            r == (if self@.contains_key(fingerprint_spec(key@)) {
                Some(stats_of(self@[fingerprint_spec(key@)]))
            } else {
                None
            }),
    {
        let fingerprint = key.fingerprint();
        let shard = slot_for(fingerprint.as_str(), self.shards.len() as u64) as usize;
        proof {
            lemma_assoc_keys(shard_pairs(self.shards@[shard as int]@), fingerprint@);
        }
        match self.find(shard, &fingerprint) {
            Some(j) => {
                proof {
                    lemma_assoc_get(shard_pairs(self.shards@[shard as int]@), j as int);
                }
                Some(self.shards[shard][j].monitor.snapshot_stats())
            },
            None => None,
        }
    }
}

} // verus!
