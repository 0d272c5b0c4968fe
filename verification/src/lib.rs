//! Recognizes on-chain swap, pool-creation and account-creation activity in
//! decoded transaction streams, reconstructs a swap's economic terms from its
//! inner token transfers and balance snapshots, deduplicates the resulting
//! events, and models the lifecycle of the ingestion pipeline that feeds it.

use vstd::prelude::*;

pub mod ata;
pub mod constants;
pub mod dedup;
pub mod pumpfun;
pub mod raydium_cpmm;
pub mod transfer;
pub mod types;

use crate::dedup::PlatformCaches;
use crate::types::EventKey;

verus! {

/// One ingestion endpoint: an address and an optional authentication token.
#[derive(Clone, Debug)]
pub struct SourceConfig {
    pub url: String,
    pub x_token: Option<String>,
}

/// The view of an optional token.
pub open spec fn spec_opt_str(o: Option<String>) -> Option<Seq<char>> {
    match o {
        None => None,
        Some(s) => Some(s@),
    }
}

impl View for SourceConfig {
    type V = (Seq<char>, Option<Seq<char>>);

    open spec fn view(&self) -> (Seq<char>, Option<Seq<char>>) {
        (self.url@, spec_opt_str(self.x_token))
    }
}

impl SourceConfig {
    /// A copy of this endpoint, equal in value.
    pub fn duplicate(&self) -> (r: SourceConfig)
        ensures
            r == *self,
    {
        let x_token = match &self.x_token {
            None => None,
            Some(t) => Some(t.clone()),
        };
        SourceConfig { url: self.url.clone(), x_token }
    }
}

/// The map denoted by a list of source entries in which later entries
/// overwrite earlier ones for the same identifier.
pub open spec fn spec_source_entries_map(es: Seq<(String, SourceConfig)>) -> Map<
    Seq<char>,
    (Seq<char>, Option<Seq<char>>),
>
    decreases es.len(),
{
    if es.len() == 0 {
        Map::empty()
    } else {
        spec_source_entries_map(es.drop_last()).insert(es.last().0@, es.last().1@)
    }
}

/// The entries denoting everything but one identifier, in order.
pub open spec fn spec_filter_out_source(es: Seq<(String, SourceConfig)>, k: Seq<char>) -> Seq<
    (String, SourceConfig),
>
    decreases es.len(),
{
    if es.len() == 0 {
        Seq::empty()
    } else {
        let init = spec_filter_out_source(es.drop_last(), k);
        if es.last().0@ == k {
            init
        } else {
            init.push(es.last())
        }
    }
}

/// Dropping every entry of one identifier removes exactly that identifier
/// from the denoted map.
proof fn lemma_filter_out_source(es: Seq<(String, SourceConfig)>, k: Seq<char>)
    ensures
        spec_source_entries_map(spec_filter_out_source(es, k)) == spec_source_entries_map(
            es,
        ).remove(k),
    decreases es.len(),
{
    if es.len() == 0 {
        assert(spec_source_entries_map(es).remove(k) =~= Map::<
            Seq<char>,
            (Seq<char>, Option<Seq<char>>),
        >::empty());
    } else {
        lemma_filter_out_source(es.drop_last(), k);
        let init = spec_filter_out_source(es.drop_last(), k);
        if es.last().0@ == k {
            assert(spec_source_entries_map(es).remove(k) =~= spec_source_entries_map(
                es.drop_last(),
            ).remove(k));
        } else {
            assert(spec_filter_out_source(es, k).drop_last() =~= init);
            assert(spec_source_entries_map(es).remove(k) =~= spec_source_entries_map(
                es.drop_last(),
            ).remove(k).insert(es.last().0@, es.last().1@));
        }
    }
}

/// Whether no two entries share an identifier.
spec fn spec_unique_source_keys(es: Seq<(String, SourceConfig)>) -> bool {
    forall|i: int, j: int|
        0 <= i < j < es.len() ==> (#[trigger] es[i].0)@ != (#[trigger] es[j].0)@
}

/// Filtering an identifier out of a duplicate-free entry list leaves a
/// duplicate-free list that holds no entry of that identifier, made of
/// entries of the original list.
proof fn lemma_filter_out_source_props(es: Seq<(String, SourceConfig)>, k: Seq<char>)
    requires
        spec_unique_source_keys(es),
    ensures
        spec_unique_source_keys(spec_filter_out_source(es, k)),
        forall|i: int|
            0 <= i < spec_filter_out_source(es, k).len() ==> (#[trigger] spec_filter_out_source(
                es,
                k,
            )[i].0)@ != k,
        forall|i: int|
            0 <= i < spec_filter_out_source(es, k).len() ==> exists|j: int|
                0 <= j < es.len() && #[trigger] spec_filter_out_source(es, k)[i] == es[j],
    decreases es.len(),
{
    if es.len() > 0 {
        let prev = es.drop_last();
        assert(spec_unique_source_keys(prev)) by {
            assert(forall|i: int| 0 <= i < prev.len() ==> prev[i] == #[trigger] es[i]);
        }
        lemma_filter_out_source_props(prev, k);
        let init = spec_filter_out_source(prev, k);
        let filtered = spec_filter_out_source(es, k);
        assert forall|i: int|
            0 <= i < filtered.len() implies exists|j: int|
            0 <= j < es.len() && #[trigger] filtered[i] == es[j] by {
            if es.last().0@ == k || i < init.len() {
                let j = choose|j: int| 0 <= j < prev.len() && #[trigger] init[i] == prev[j];
                assert(filtered[i] == es[j]);
            } else {
                assert(filtered[i] == es[es.len() - 1]);
            }
        }
        if es.last().0@ != k {
            assert forall|i: int, j: int|
                0 <= i < j < filtered.len() implies (#[trigger] filtered[i].0)@ != (
            #[trigger] filtered[j].0)@ by {
                if j == filtered.len() - 1 {
                    let l = choose|l: int| 0 <= l < prev.len() && #[trigger] init[i] == prev[l];
                    assert(es[l] == filtered[i]);
                    assert(es[l].0@ != es[es.len() - 1].0@);
                }
            }
        }
    }
}

/// The identifier-keyed set of ingestion endpoints used on the next
/// pipeline (re)build.  No two entries share an identifier.
pub struct SourceMap {
    entries: Vec<(String, SourceConfig)>,
}

impl View for SourceMap {
    type V = Map<Seq<char>, (Seq<char>, Option<Seq<char>>)>;

    closed spec fn view(&self) -> Map<Seq<char>, (Seq<char>, Option<Seq<char>>)> {
        spec_source_entries_map(self.entries@)
    }
}

impl SourceMap {
    #[verifier::type_invariant]
    spec fn wf(self) -> bool {
        spec_unique_source_keys(self.entries@)
    }

    /// An empty source set.
    pub fn new() -> (r: SourceMap)
        ensures
            r@ == Map::<Seq<char>, (Seq<char>, Option<Seq<char>>)>::empty(),
    {
        SourceMap { entries: Vec::new() }
    }

    /// The entries, every one of the given identifier dropped, in order.
    fn entries_without(&self, id: &String) -> (kept: Vec<(String, SourceConfig)>)
        ensures
            kept@ == spec_filter_out_source(self.entries@, id@),
    {
        let ghost es = self.entries@;
        let mut kept: Vec<(String, SourceConfig)> = Vec::new();
        let n = self.entries.len();
        let mut i: usize = 0;
        proof {
            assert(es.take(0) =~= Seq::<(String, SourceConfig)>::empty());
        }
        while i < n
            invariant
                0 <= i <= n == self.entries@.len(),
                es == self.entries@,
                kept@ == spec_filter_out_source(es.take(i as int), id@),
            decreases n - i,
        {
            proof {
                assert(es.take(i + 1).drop_last() =~= es.take(i as int));
            }
            if !(self.entries[i].0 == *id) {
                let entry = (self.entries[i].0.clone(), self.entries[i].1.duplicate());
                proof {
                    assert(entry == es[i as int]);
                }
                kept.push(entry);
                proof {
                    assert(kept@.drop_last() =~= spec_filter_out_source(es.take(i as int), id@));
                    assert(kept@ =~= spec_filter_out_source(es.take(i + 1), id@));
                }
            }
            i = i + 1;
        }
        proof {
            assert(es.take(n as int) =~= es);
        }
        kept
    }

    /// Records an endpoint under an identifier, replacing any earlier one.
    pub fn insert(&mut self, id: String, config: SourceConfig)
        ensures
            final(self)@ == old(self)@.insert(id@, config@),
    {
        let ghost es = self.entries@;
        proof {
            use_type_invariant(&*self);
        }
        let mut kept = self.entries_without(&id);
        kept.push((id, config));
        proof {
            lemma_filter_out_source(es, kept@.last().0@);
            lemma_filter_out_source_props(es, kept@.last().0@);
            assert(kept@.drop_last() =~= spec_filter_out_source(es, kept@.last().0@));
        }
        self.entries = kept;
        proof {
            assert(spec_source_entries_map(es).remove(self.entries@.last().0@).insert(
                self.entries@.last().0@,
                self.entries@.last().1@,
            ) =~= spec_source_entries_map(es).insert(
                self.entries@.last().0@,
                self.entries@.last().1@,
            ));
        }
    }

    /// Drops the endpoint recorded under an identifier, if any.
    pub fn remove(&mut self, id: &String)
        ensures
            final(self)@ == old(self)@.remove(id@),
    {
        let ghost es = self.entries@;
        proof {
            use_type_invariant(&*self);
        }
        let kept = self.entries_without(id);
        proof {
            lemma_filter_out_source(es, id@);
            lemma_filter_out_source_props(es, id@);
        }
        self.entries = kept;
    }

    /// Resolves an identifier to its endpoint, if one is recorded.
    pub fn get(&self, id: &String) -> (r: Option<&SourceConfig>)
        ensures
            match r {
                Some(c) => self@.contains_key(id@) && c@ == self@[id@],
                None => !self@.contains_key(id@),
            },
    {
        let n = self.entries.len();
        let mut i: usize = n;
        while i > 0
            invariant
                0 <= i <= n == self.entries@.len(),
                forall|l: int| i <= l < n ==> (#[trigger] self.entries@[l].0)@ != id@,
            decreases i,
        {
            i = i - 1;
            if self.entries[i].0 == *id {
                proof {
                    lemma_source_map_found(self.entries@, id@, i as int);
                }
                return Some(&self.entries[i].1);
            }
        }
        proof {
            lemma_source_map_absent(self.entries@, id@);
        }
        None
    }

    /// The recorded endpoints: exactly the identifiers of the source set,
    /// each with the configuration the set resolves it to.
    pub fn endpoints(&self) -> (r: &Vec<(String, SourceConfig)>)
        ensures
            forall|i: int|
                0 <= i < r@.len() ==> self@.contains_key((#[trigger] r@[i].0)@) && self@[r@[i].0@]
                    == r@[i].1@,
            forall|k: Seq<char>|
                self@.contains_key(k) ==> exists|i: int| 0 <= i < r@.len() && (#[trigger] r@[i].0)@
                    == k,
    {
        proof {
            use_type_invariant(&*self);
            assert forall|i: int|
                0 <= i < self.entries@.len() implies self@.contains_key(
                (#[trigger] self.entries@[i].0)@,
            ) && self@[self.entries@[i].0@] == self.entries@[i].1@ by {
                assert(forall|l: int|
                    i < l < self.entries@.len() ==> (#[trigger] self.entries@[l].0)@
                        != self.entries@[i].0@);
                lemma_source_map_found(self.entries@, self.entries@[i].0@, i);
            }
            assert forall|k: Seq<char>| self@.contains_key(k) implies exists|i: int|
                0 <= i < self.entries@.len() && (#[trigger] self.entries@[i].0)@ == k by {
                lemma_source_map_key_listed(self.entries@, k);
            }
        }
        &self.entries
    }
}

/// An identifier that occurs in no entry is not in the denoted map.
proof fn lemma_source_map_absent(es: Seq<(String, SourceConfig)>, k: Seq<char>)
    requires
        forall|j: int| 0 <= j < es.len() ==> (#[trigger] es[j].0)@ != k,
    ensures
        !spec_source_entries_map(es).contains_key(k),
    decreases es.len(),
{
    if es.len() > 0 {
        assert(forall|j: int|
            0 <= j < es.drop_last().len() ==> (#[trigger] es.drop_last()[j].0)@ != k);
        lemma_source_map_absent(es.drop_last(), k);
    }
}

/// The denoted map resolves an identifier to the value of the last entry
/// holding it.
proof fn lemma_source_map_found(es: Seq<(String, SourceConfig)>, k: Seq<char>, j: int)
    requires
        0 <= j < es.len(),
        es[j].0@ == k,
        forall|l: int| j < l < es.len() ==> (#[trigger] es[l].0)@ != k,
    ensures
        spec_source_entries_map(es).contains_key(k),
        spec_source_entries_map(es)[k] == es[j].1@,
    decreases es.len(),
{
    if j == es.len() - 1 {
    } else {
        assert(es.drop_last()[j] == es[j]);
        assert(forall|l: int|
            j < l < es.drop_last().len() ==> (#[trigger] es.drop_last()[l].0)@ != k);
        lemma_source_map_found(es.drop_last(), k, j);
        assert(es.last().0@ != k);
    }
}

/// Every identifier of the denoted map stands in some entry.
proof fn lemma_source_map_key_listed(es: Seq<(String, SourceConfig)>, k: Seq<char>)
    requires
        spec_source_entries_map(es).contains_key(k),
    ensures
        exists|i: int| 0 <= i < es.len() && (#[trigger] es[i].0)@ == k,
    decreases es.len(),
{
    if es.last().0@ == k {
        assert(es[es.len() - 1].0@ == k);
    } else {
        lemma_source_map_key_listed(es.drop_last(), k);
        let i = choose|i: int| 0 <= i < es.drop_last().len() && (#[trigger] es.drop_last()[i].0)@
            == k;
        assert(es[i].0@ == k);
    }
}

/// Why an orchestrator operation was refused.
#[derive(Clone, Copy, Debug, PartialEq, Eq, Structural)]
pub enum ListenerError {
    /// A pipeline task already exists; starting a second one would
    /// double-process every source.
    AlreadyRunning,
}

/// The ingestion-pipeline orchestrator: owns the configured source set and
/// the per-platform deduplication caches, and tracks whether the single
/// background pipeline task currently exists.  All lifecycle transitions go
/// through its methods, so at most one pipeline runs at a time.
pub struct TransactionsListener {
    /// The ingestion endpoints used on the next pipeline (re)build.
    pub grpc_urls: SourceMap,
    /// The per-platform deduplication caches, shared across pipeline
    /// rebuilds so a restart does not re-emit old events.
    pub events_cache: PlatformCaches,
    /// Whether the single background pipeline task currently exists.
    pub running: bool,
}

impl TransactionsListener {
    /// Whether a background pipeline task currently exists.
    pub open spec fn spec_running(&self) -> bool {
        self.running
    }

    /// A stopped listener holding the given source set, with one empty
    /// deduplication cache pre-provisioned per platform.
    pub fn new(grpc_urls: SourceMap) -> (r: TransactionsListener)
        ensures
            r.grpc_urls@ == grpc_urls@,
            !r.spec_running(),
            r.events_cache.pump_fun@ == Set::<EventKey>::empty(),
            r.events_cache.raydium@ == Set::<EventKey>::empty(),
            r.events_cache.raydium_cpmm@ == Set::<EventKey>::empty(),
            r.events_cache.raydium_clmm@ == Set::<EventKey>::empty(),
    {
        TransactionsListener { grpc_urls, events_cache: PlatformCaches::new(), running: false }
    }

    /// Whether a background pipeline task currently exists.
    pub fn is_running(&self) -> (b: bool)
        ensures
            b == self.spec_running(),
    {
        self.running
    }

    /// Starts the pipeline: refused without any state change when one is
    /// already running, and only then; otherwise the listener becomes
    /// running and the caller owes one newly spawned pipeline task.
    pub fn run(&mut self) -> (r: Result<(), ListenerError>)
        ensures
            old(self).spec_running() ==> r == Err::<(), ListenerError>(
                ListenerError::AlreadyRunning,
            ) && *final(self) == *old(self),
            !old(self).spec_running() ==> {
                &&& r == Ok::<(), ListenerError>(())
                &&& final(self).spec_running()
                &&& final(self).grpc_urls == old(self).grpc_urls
                &&& final(self).events_cache == old(self).events_cache
            },
    {
        if self.running {
            return Err(ListenerError::AlreadyRunning);
        }
        self.running = true;
        Ok(())
    }

    /// Stops the pipeline: the task, if any, is cancelled and aborted by
    /// the caller; idempotent when already stopped.  Sources and caches
    /// are kept.
    pub fn stop(&mut self)
        ensures
            !final(self).spec_running(),
            final(self).grpc_urls == old(self).grpc_urls,
            final(self).events_cache == old(self).events_cache,
    {
        self.running = false;
    }

    /// Replaces the whole source set used on the next (re)build, without
    /// touching a running pipeline.
    pub fn configure(&mut self, sources: SourceMap)
        ensures
            final(self).grpc_urls@ == sources@,
            final(self).spec_running() == old(self).spec_running(),
            final(self).events_cache == old(self).events_cache,
    {
        self.grpc_urls = sources;
    }

    /// Records a new endpoint and hot-swaps the pipeline: a new task is
    /// built on the updated source set and the old one stopped, so the
    /// listener ends running with at most one task alive, its caches kept.
    pub fn add_grpc_url(&mut self, id: String, url: String, x_token: Option<String>)
        ensures
            final(self).grpc_urls@ == old(self).grpc_urls@.insert(
                id@,
                (url@, spec_opt_str(x_token)),
            ),
            final(self).spec_running(),
            final(self).events_cache == old(self).events_cache,
    {
        self.grpc_urls.insert(id, SourceConfig { url, x_token });
        self.running = true;
    }

    /// Drops an endpoint and hot-swaps the pipeline the same way: the
    /// listener ends running on the reduced source set, its caches kept.
    pub fn delete_grpc_url(&mut self, id: String)
        ensures
            final(self).grpc_urls@ == old(self).grpc_urls@.remove(id@),
            final(self).spec_running(),
            final(self).events_cache == old(self).events_cache,
    {
        self.grpc_urls.remove(&id);
        self.running = true;
    }
}

} // verus!
