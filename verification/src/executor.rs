//! The crawl executor's round state: a shared pull-based work queue and a
//! rendezvous count.
//!
//! A fixed number of workers each repeatedly claim one unclaimed target,
//! process it, and contribute the records they extracted; the round is
//! complete only once every worker has signaled completion. The threads and
//! the lock around this state live outside the library; the transitions
//! here say exactly what each step does to the round.

use vstd::prelude::*;

use crate::crawlers::Config;
use crate::flat::Flat;

verus! {

/// One round's shared state: the targets still unclaimed, the records
/// contributed so far, and how many of the workers have finished.
pub struct Round {
    pub pending: Vec<Config>,
    pub results: Vec<Flat>,
    pub workers_total: usize,
    pub workers_done: usize,
}

impl Round {
    /// A fresh round over a target list, with no results and no finished
    /// workers.
    pub fn new(targets: Vec<Config>, workers: usize) -> (r: Round)
        ensures
            r.pending@ == targets@,
            r.results@.len() == 0,
            r.workers_total == workers,
            r.workers_done == 0,
    {
        Round { pending: targets, results: Vec::new(), workers_total: workers, workers_done: 0 }
    }

    /// A worker claims one target, removing it from the queue; `None` once
    /// none remain. Nothing else changes.
    pub fn claim(&mut self) -> (r: Option<Config>)
        ensures
            match r {
                Some(c) => {
                    &&& old(self).pending@.len() > 0
                    &&& c == old(self).pending@.last()
                    &&& final(self).pending@ == old(self).pending@.drop_last()
                },
                None => {
                    &&& old(self).pending@.len() == 0
                    &&& final(self).pending@ == old(self).pending@
                },
            },
            final(self).results@ == old(self).results@,
            final(self).workers_total == old(self).workers_total,
            final(self).workers_done == old(self).workers_done,
    {
        self.pending.pop()
    }

    /// A worker contributes the records it extracted: they join the round
    /// result. Nothing else changes.
    pub fn contribute(&mut self, flats: Vec<Flat>)
        ensures
            final(self).results@ == old(self).results@ + flats@,
            final(self).pending@ == old(self).pending@,
            final(self).workers_total == old(self).workers_total,
            final(self).workers_done == old(self).workers_done,
    {
        let mut flats = flats;
        self.results.append(&mut flats);
    }

    /// A worker signals that it has finished the round.
    pub fn worker_done(&mut self)
        requires
            old(self).workers_done < old(self).workers_total,
        ensures
            final(self).workers_done == old(self).workers_done + 1,
            final(self).pending@ == old(self).pending@,
            final(self).results@ == old(self).results@,
            final(self).workers_total == old(self).workers_total,
    {
        self.workers_done = self.workers_done + 1;
    }

    /// Whether every worker has signaled completion: only then may the
    /// round's results be read and reconciliation begin.
    pub fn is_synchronized(&self) -> (r: bool)
        ensures
            r == (self.workers_done == self.workers_total),
    {
        self.workers_done == self.workers_total
    }
}

} // verus!
