//! What is known of each experiment between reconciliations: its status
//! and, once it is completed, its report, under the experiment's namespace
//! and name.

use crate::models::{
    ChaosExperimentStatus, ChaosReport, ChaosReportView, ExperimentRef, ExperimentRefView,
    StatusView,
};
use vstd::prelude::*;
use vstd::string::StringExecFns;

verus! {

/// The key under which an experiment is kept: its namespace and its name.
pub type Key = (Seq<char>, Seq<char>);

/// The store of statuses and reports.
pub struct SharedState {
    statuses: Vec<(ExperimentRef, ChaosExperimentStatus)>,
    reports: Vec<(ExperimentRef, ChaosReport)>,
}

/// The place of the first entry under `key`, or the number of entries where
/// there is none.
pub open spec fn first_under(keys: Seq<ExperimentRefView>, key: Key) -> int
    decreases keys.len(),
{
    if keys.len() == 0 {
        0
    } else if keys[0].namespace == key.0 && keys[0].name == key.1 {
        0
    } else {
        1 + first_under(keys.drop_first(), key)
    }
}

/// Where the first entry under a key lies: within the entries if there is
/// one, with no entry under that key before it.
pub proof fn lemma_first_under(keys: Seq<ExperimentRefView>, key: Key)
    ensures
        0 <= first_under(keys, key) <= keys.len(),
        first_under(keys, key) < keys.len() ==> keys[first_under(keys, key)].namespace == key.0
            && keys[first_under(keys, key)].name == key.1,
        forall|k: int|
            0 <= k < first_under(keys, key) ==> !((#[trigger] keys[k]).namespace == key.0
                && keys[k].name == key.1),
    decreases keys.len(),
{
    if keys.len() > 0 && !(keys[0].namespace == key.0 && keys[0].name == key.1) {
        let rest = keys.drop_first();
        lemma_first_under(rest, key);
        assert forall|k: int| 0 <= k < first_under(keys, key) implies !((
        #[trigger] keys[k]).namespace == key.0 && keys[k].name == key.1) by {
            if k > 0 {
                assert(keys[k] == rest[k - 1]);
            }
        }
    }
}

/// The first entry under a key is the one that no entry under that key precedes.
pub proof fn lemma_first_under_is(keys: Seq<ExperimentRefView>, key: Key, at: int)
    requires
        0 <= at <= keys.len(),
        at < keys.len() ==> keys[at].namespace == key.0 && keys[at].name == key.1,
        forall|k: int|
            0 <= k < at ==> !((#[trigger] keys[k]).namespace == key.0 && keys[k].name == key.1),
    ensures
        first_under(keys, key) == at,
{
    lemma_first_under(keys, key);
    let f = first_under(keys, key);
    if f < at {
        assert(!(keys[f].namespace == key.0 && keys[f].name == key.1));
    }
}

impl SharedState {
    /// The keys of the statuses, in the order in which they are kept.
    pub closed spec fn status_keys(&self) -> Seq<ExperimentRefView> {
        Seq::new(self.statuses@.len(), |i: int| self.statuses@[i].0@)
    }

    /// The keys of the reports, in the order in which they are kept.
    pub closed spec fn report_keys(&self) -> Seq<ExperimentRefView> {
        Seq::new(self.reports@.len(), |i: int| self.reports@[i].0@)
    }

    /// The status kept under `key`, if there is one.
    pub closed spec fn status_of(&self, key: Key) -> Option<StatusView> {
        let at = first_under(self.status_keys(), key);
        if at < self.statuses@.len() {
            Some(self.statuses@[at].1@)
        } else {
            None
        }
    }

    /// The report kept under `key`, if there is one.
    pub closed spec fn report_of(&self, key: Key) -> Option<ChaosReportView> {
        let at = first_under(self.report_keys(), key);
        if at < self.reports@.len() {
            Some(self.reports@[at].1@)
        } else {
            None
        }
    }

    /// An empty store.
    pub fn new() -> (state: Self)
        ensures
            forall|key: Key| state.status_of(key) is None,
            forall|key: Key| state.report_of(key) is None,
    {
        SharedState { statuses: Vec::new(), reports: Vec::new() }
    }

    /// Where the status under a key is kept.
    fn find_status(&self, ns: &String, name: &String) -> (at: usize)
        ensures
            at == first_under(self.status_keys(), (ns@, name@)),
            at <= self.statuses@.len(),
    {
        let mut i: usize = 0;
        while i < self.statuses.len()
            invariant
                i <= self.statuses.len(),
                forall|k: int|
                    0 <= k < i ==> !((#[trigger] self.status_keys()[k]).namespace == ns@
                        && self.status_keys()[k].name == name@),
            decreases self.statuses.len() - i,
        {
            if self.statuses[i].0.namespace == *ns && self.statuses[i].0.name == *name {
                proof {
                    assert(self.status_keys()[i as int] == self.statuses@[i as int].0@);
                    lemma_first_under_is(self.status_keys(), (ns@, name@), i as int);
                }
                return i;
            }
            assert(self.status_keys()[i as int] == self.statuses@[i as int].0@);
            i += 1;
        }
        proof {
            lemma_first_under_is(self.status_keys(), (ns@, name@), i as int);
        }
        i
    }

    /// Where the report under a key is kept.
    fn find_report(&self, ns: &String, name: &String) -> (at: usize)
        ensures
            at == first_under(self.report_keys(), (ns@, name@)),
            at <= self.reports@.len(),
    {
        let mut i: usize = 0;
        while i < self.reports.len()
            invariant
                i <= self.reports.len(),
                forall|k: int|
                    0 <= k < i ==> !((#[trigger] self.report_keys()[k]).namespace == ns@
                        && self.report_keys()[k].name == name@),
            decreases self.reports.len() - i,
        {
            if self.reports[i].0.namespace == *ns && self.reports[i].0.name == *name {
                proof {
                    assert(self.report_keys()[i as int] == self.reports@[i as int].0@);
                    lemma_first_under_is(self.report_keys(), (ns@, name@), i as int);
                }
                return i;
            }
            assert(self.report_keys()[i as int] == self.reports@[i as int].0@);
            i += 1;
        }
        proof {
            lemma_first_under_is(self.report_keys(), (ns@, name@), i as int);
        }
        i
    }

    /// Keeps `status` under the namespace and name, in place of what was there.
    pub fn set_status(&mut self, ns: &str, name: &str, status: ChaosExperimentStatus)
        ensures
            final(self).status_of((ns@, name@)) == Some(status@),
            forall|key: Key|
                key != (ns@, name@) ==> final(self).status_of(key) == old(self).status_of(key),
            forall|key: Key| final(self).report_of(key) == old(self).report_of(key),
    {
        let ns = String::from_str(ns);
        let name = String::from_str(name);
        let at = self.find_status(&ns, &name);
        let ghost before = self.status_keys();
        let ghost mine = ExperimentRefView { namespace: ns@, name: name@ };
        if at < self.statuses.len() {
            self.statuses.set(at, (ExperimentRef { namespace: ns, name }, status));
            proof {
                lemma_first_under(before, (mine.namespace, mine.name));
                assert(self.status_keys() =~= before);
                assert(self.report_keys() =~= old(self).report_keys());
                assert forall|key: Key| key != (mine.namespace, mine.name) implies self.status_of(
                    key,
                ) == old(self).status_of(key) by {
                    lemma_first_under(before, key);
                }
            }
        } else {
            self.statuses.push((ExperimentRef { namespace: ns, name }, status));
            proof {
                let after = self.status_keys();
                assert(after =~= before.push(mine));
                assert(self.report_keys() =~= old(self).report_keys());
                lemma_first_under(before, (mine.namespace, mine.name));
                lemma_first_under_is(after, (mine.namespace, mine.name), before.len() as int);
                assert forall|key: Key| key != (mine.namespace, mine.name) implies self.status_of(
                    key,
                ) == old(self).status_of(key) by {
                    lemma_first_under(before, key);
                    let f = first_under(before, key);
                    if f < before.len() {
                        lemma_first_under_is(after, key, f);
                    } else {
                        lemma_first_under_is(after, key, after.len() as int);
                    }
                }
            }
        }
    }

    /// A copy of the status kept under the namespace and name, if there is one.
    pub fn get_status(&self, ns: &str, name: &str) -> (found: Option<ChaosExperimentStatus>)
        ensures
            (match found {
                Some(status) => self.status_of((ns@, name@)) == Some(status@),
                None => self.status_of((ns@, name@)) is None,
            }),
    {
        let ns = String::from_str(ns);
        let name = String::from_str(name);
        let at = self.find_status(&ns, &name);
        if at < self.statuses.len() {
            Some(self.statuses[at].1.duplicate())
        } else {
            None
        }
    }

    /// Keeps `report` under the namespace and name, in place of what was there.
    pub fn set_report(&mut self, ns: &str, name: &str, report: ChaosReport)
        ensures
            final(self).report_of((ns@, name@)) == Some(report@),
            forall|key: Key|
                key != (ns@, name@) ==> final(self).report_of(key) == old(self).report_of(key),
            forall|key: Key| final(self).status_of(key) == old(self).status_of(key),
    {
        let ns = String::from_str(ns);
        let name = String::from_str(name);
        let at = self.find_report(&ns, &name);
        let ghost before = self.report_keys();
        let ghost mine = ExperimentRefView { namespace: ns@, name: name@ };
        if at < self.reports.len() {
            self.reports.set(at, (ExperimentRef { namespace: ns, name }, report));
            proof {
                lemma_first_under(before, (mine.namespace, mine.name));
                assert(self.report_keys() =~= before);
                assert(self.status_keys() =~= old(self).status_keys());
                assert forall|key: Key| key != (mine.namespace, mine.name) implies self.report_of(
                    key,
                ) == old(self).report_of(key) by {
                    lemma_first_under(before, key);
                }
            }
        } else {
            self.reports.push((ExperimentRef { namespace: ns, name }, report));
            proof {
                let after = self.report_keys();
                assert(after =~= before.push(mine));
                assert(self.status_keys() =~= old(self).status_keys());
                lemma_first_under(before, (mine.namespace, mine.name));
                lemma_first_under_is(after, (mine.namespace, mine.name), before.len() as int);
                assert forall|key: Key| key != (mine.namespace, mine.name) implies self.report_of(
                    key,
                ) == old(self).report_of(key) by {
                    lemma_first_under(before, key);
                    let f = first_under(before, key);
                    if f < before.len() {
                        lemma_first_under_is(after, key, f);
                    } else {
                        lemma_first_under_is(after, key, after.len() as int);
                    }
                }
            }
        }
    }

    /// A copy of the report kept under the namespace and name, if there is one.
    pub fn get_report(&self, ns: &str, name: &str) -> (found: Option<ChaosReport>)
        ensures
            (match found {
                Some(report) => self.report_of((ns@, name@)) == Some(report@),
                None => self.report_of((ns@, name@)) is None,
            }),
    {
        let ns = String::from_str(ns);
        let name = String::from_str(name);
        let at = self.find_report(&ns, &name);
        if at < self.reports.len() {
            Some(self.reports[at].1.duplicate())
        } else {
            None
        }
    }
}

} // verus!
