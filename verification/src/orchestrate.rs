//! The run-level control decisions: resolving the target database list and
//! the skip-or-abort policy over per-database failures.
//!
//! The surrounding binary walks the database list and performs the network
//! and filesystem work; every decision — which databases to process, and
//! whether a failure skips the database or aborts the run — is taken here.

use vstd::prelude::*;

use crate::model::DatabaseInfo;

verus! {

/// Turns an explicit database list from the configuration into placeholder
/// records: each named database with empty metadata.
pub fn placeholder_databases(names: &Vec<String>) -> (dbs: Vec<DatabaseInfo>)
    ensures
        dbs@.len() == names@.len(),
        forall|i: int|
            0 <= i < dbs@.len() ==> (#[trigger] dbs@[i])@.name == names@[i]@ && dbs@[i]@.created_on
                =~= Seq::<char>::empty() && dbs@[i]@.owner =~= Seq::<char>::empty(),
{
    let mut dbs: Vec<DatabaseInfo> = Vec::new();
    let mut i: usize = 0;
    while i < names.len()
        invariant
            0 <= i <= names@.len(),
            dbs@.len() == i,
            forall|j: int|
                0 <= j < i ==> (#[trigger] dbs@[j])@.name == names@[j]@ && dbs@[j]@.created_on
                    =~= Seq::<char>::empty() && dbs@[j]@.owner =~= Seq::<char>::empty(),
        decreases names@.len() - i,
    {
        dbs.push(
            DatabaseInfo {
                name: names[i].clone(),
                created_on: String::new(),
                owner: String::new(),
            },
        );
        i += 1;
    }
    dbs
}

/// The state of one run over the database list: how many databases were
/// attempted, whether an unrecovered failure aborted the run, and the
/// failure policy in force.
pub struct RunState {
    /// Number of databases in the target list.
    pub total: usize,
    /// Number of databases attempted so far, successes and skips together.
    pub attempted: usize,
    /// Continue past a failed database instead of aborting.
    pub skip_failed: bool,
    /// An unrecovered failure ended the run.
    pub aborted: bool,
}

impl RunState {
    /// A run over the whole state is coherent: it never attempts more
    /// databases than the list holds.
    pub open spec fn wf(self) -> bool {
        self.attempted <= self.total
    }

    /// Starts a run over `total` databases under the given failure policy.
    pub fn new(total: usize, skip_failed: bool) -> (r: Self)
        ensures
            r.wf(),
            r.total == total,
            r.attempted == 0,
            r.skip_failed == skip_failed,
            !r.aborted,
    {
        RunState { total, attempted: 0, skip_failed, aborted: false }
    }

    /// Another database should be processed: the run has not aborted and
    /// databases remain.
    pub fn should_continue(&self) -> (b: bool)
        ensures
            b == (!self.aborted && self.attempted < self.total),
    {
        !self.aborted && self.attempted < self.total
    }

    /// Records a database processed to completion.
    pub fn record_success(&mut self)
        requires
            old(self).wf(),
            !old(self).aborted,
            old(self).attempted < old(self).total,
        ensures
            final(self).wf(),
            final(self).attempted == old(self).attempted + 1,
            final(self).total == old(self).total,
            final(self).skip_failed == old(self).skip_failed,
            !final(self).aborted,
    {
        self.attempted = self.attempted + 1;
    }

    /// Records a database that failed to process: under the skip policy the
    /// run moves on to the next database, otherwise it aborts with the
    /// triggering error.
    pub fn record_failure(&mut self)
        requires
            old(self).wf(),
            !old(self).aborted,
            old(self).attempted < old(self).total,
        ensures
            final(self).wf(),
            final(self).attempted == old(self).attempted + 1,
            final(self).total == old(self).total,
            final(self).skip_failed == old(self).skip_failed,
            final(self).aborted == !old(self).skip_failed,
    {
        self.attempted = self.attempted + 1;
        if !self.skip_failed {
            self.aborted = true;
        }
    }

    /// The run succeeded: every database was attempted and none aborted the
    /// run. Under the skip policy this holds however many databases failed.
    pub fn run_succeeded(&self) -> (b: bool)
        ensures
            b == (!self.aborted && self.attempted == self.total),
    {
        !self.aborted && self.attempted == self.total
    }
}

} // verus!
