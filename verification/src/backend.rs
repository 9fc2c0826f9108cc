//! The backend adapter: an in-memory store of named datasets with the
//! exact operation contract the lifecycle handlers rely on.
//!
//! The backend is the source of truth for dataset existence: the
//! plugin keeps no ledger of its own.  Every operation is idempotent
//! in effect — creating a dataset that already exists, or destroying
//! one that is already absent, succeeds — because the orchestrator may
//! resend a call after a timeout without knowing whether the previous
//! attempt took effect.
//!
//! Each operation also counts as one backend call, so a contract (or a
//! test) can state that a rejected request touched the backend not at
//! all.

use vstd::prelude::*;

use crate::status::BackendError;
use crate::text::is_under_root;
use crate::text::str_eq;
use crate::text::under_root;

verus! {

/// The mathematical image of one dataset: its hierarchical name, its
/// capacity limit and the space in use.
pub struct DatasetModel {
    pub name: Seq<char>,
    pub capacity: u64,
    pub used: u64,
}

/// One dataset as the backend records it.
pub struct Dataset {
    pub name: String,
    pub capacity: u64,
    pub used: u64,
}

impl View for Dataset {
    type V = DatasetModel;

    open spec fn view(&self) -> DatasetModel {
        DatasetModel { name: self.name@, capacity: self.capacity, used: self.used }
    }
}

/// Whether a dataset of the given name exists in the store.
pub open spec fn has_dataset(m: Seq<DatasetModel>, name: Seq<char>) -> bool {
    exists|i: int| 0 <= i < m.len() && m[i].name == name
}

/// The index of the dataset of the given name (meaningful when the
/// names in the store are distinct and the name is present).
pub open spec fn dataset_index(m: Seq<DatasetModel>, name: Seq<char>) -> int {
    choose|i: int| 0 <= i < m.len() && m[i].name == name
}

/// The dataset of the given name.
pub open spec fn dataset_at(m: Seq<DatasetModel>, name: Seq<char>) -> DatasetModel {
    m[dataset_index(m, name)]
}

/// How many datasets of the store carry the given name.
pub open spec fn count_name(m: Seq<DatasetModel>, name: Seq<char>) -> nat
    decreases m.len(),
{
    if m.len() == 0 {
        0
    } else {
        count_name(m.drop_last(), name) + if m.last().name == name {
            1nat
        } else {
            0nat
        }
    }
}

/// The set of dataset names in the store.
pub open spec fn name_set(m: Seq<DatasetModel>) -> Set<Seq<char>> {
    Set::new(|n: Seq<char>| has_dataset(m, n))
}

/// A well-formed store holds at most one dataset per name.
pub open spec fn wf_model(m: Seq<DatasetModel>) -> bool {
    forall|i: int, j: int| 0 <= i < j < m.len() ==> m[i].name != m[j].name
}

/// What creating a dataset does to the store: nothing when the name
/// already exists (idempotence), otherwise one fresh, empty dataset of
/// the given capacity is appended.
pub open spec fn create_model(m: Seq<DatasetModel>, name: Seq<char>, capacity: u64) -> Seq<
    DatasetModel,
> {
    if has_dataset(m, name) {
        m
    } else {
        m.push(DatasetModel { name, capacity, used: 0 })
    }
}

/// What destroying a dataset does to the store: the named dataset is
/// removed; destroying an absent name changes nothing (idempotence).
pub open spec fn destroy_model(m: Seq<DatasetModel>, name: Seq<char>) -> Seq<DatasetModel> {
    if has_dataset(m, name) {
        m.remove(dataset_index(m, name))
    } else {
        m
    }
}

/// What resizing a dataset does to the store: the named dataset's
/// capacity becomes the given one; an absent name changes nothing.
pub open spec fn resize_model(m: Seq<DatasetModel>, name: Seq<char>, capacity: u64) -> Seq<
    DatasetModel,
> {
    if has_dataset(m, name) {
        let i = dataset_index(m, name);
        m.update(i, DatasetModel { name, capacity, used: m[i].used })
    } else {
        m
    }
}

/// The names under the given root, in store order.
pub open spec fn enumerate_model(m: Seq<DatasetModel>, root: Seq<char>) -> Seq<Seq<char>>
    decreases m.len(),
{
    if m.len() == 0 {
        Seq::empty()
    } else {
        enumerate_model(m.drop_last(), root) + if under_root(m.last().name, root) {
            seq![m.last().name]
        } else {
            Seq::empty()
        }
    }
}

/// The mathematical image of the whole backend: the dataset store, the
/// capacity a fresh dataset receives, and how many operations have been
/// asked of it.
pub struct BackendModel {
    pub datasets: Seq<DatasetModel>,
    pub default_capacity: u64,
    pub calls: u64,
}

/// The in-memory backend store.
pub struct Backend {
    datasets: Vec<Dataset>,
    default_capacity: u64,
    calls: u64,
}

impl View for Backend {
    type V = BackendModel;

    closed spec fn view(&self) -> BackendModel {
        BackendModel {
            datasets: self.datasets@.map_values(|d: Dataset| d@),
            default_capacity: self.default_capacity,
            calls: self.calls,
        }
    }
}

/// In a well-formed store, any index whose dataset carries the name is
/// the index `dataset_index` picks.
pub proof fn lemma_index_unique(m: Seq<DatasetModel>, name: Seq<char>, i: int)
    requires
        wf_model(m),
        0 <= i < m.len(),
        m[i].name == name,
    ensures
        dataset_index(m, name) == i,
{
    assert(has_dataset(m, name));
}

/// Creating a dataset keeps the store well-formed.
pub proof fn lemma_create_wf(m: Seq<DatasetModel>, name: Seq<char>, capacity: u64)
    requires
        wf_model(m),
    ensures
        wf_model(create_model(m, name, capacity)),
{
}

/// Destroying a dataset keeps the store well-formed.
pub proof fn lemma_destroy_wf(m: Seq<DatasetModel>, name: Seq<char>)
    requires
        wf_model(m),
    ensures
        wf_model(destroy_model(m, name)),
{
}

/// Resizing a dataset keeps the store well-formed.
pub proof fn lemma_resize_wf(m: Seq<DatasetModel>, name: Seq<char>, capacity: u64)
    requires
        wf_model(m),
    ensures
        wf_model(resize_model(m, name, capacity)),
{
}

impl Backend {
    /// A store is well-formed when it holds at most one dataset per
    /// name; every operation preserves this.
    pub open spec fn wf(self) -> bool {
        wf_model(self@.datasets)
    }

    /// A fresh backend: no datasets, no calls made; datasets created
    /// later receive the given capacity limit.
    pub fn new(default_capacity: u64) -> (b: Backend)
        ensures
            b@.datasets == Seq::<DatasetModel>::empty(),
            b@.default_capacity == default_capacity,
            b@.calls == 0,
            b.wf(),
    {
        let b = Backend { datasets: Vec::new(), default_capacity, calls: 0 };
        proof {
            assert(b@.datasets =~= Seq::<DatasetModel>::empty());
        }
        b
    }

    /// How many operations have been asked of this backend; lets a
    /// caller check that a rejected request touched the backend not at
    /// all.
    pub fn call_count(&self) -> (c: u64)
        ensures
            c == self@.calls,
    {
        self.calls
    }

    /// The index of the dataset with the given name, if any.
    fn find(&self, name: &str) -> (r: Option<usize>)
        ensures
            match r {
                Some(i) => 0 <= i < self@.datasets.len() && self@.datasets[i as int].name
                    == name@,
                None => !has_dataset(self@.datasets, name@),
            },
    {
        let mut i: usize = 0;
        while i < self.datasets.len()
            invariant
                i <= self.datasets.len(),
                self@.datasets.len() == self.datasets.len(),
                forall|j: int| 0 <= j < i ==> self@.datasets[j].name != name@,
            decreases self.datasets.len() - i,
        {
            if str_eq(self.datasets[i].name.as_str(), name) {
                return Some(i);
            }
            i += 1;
        }
        None
    }

    /// Creates the named dataset.  Idempotent in effect: when the name
    /// already exists the call succeeds and changes nothing.  This
    /// in-memory backend never fails; the `Result` is the operation
    /// contract a fallible backend shares.
    pub fn create(&mut self, name: &str) -> (r: Result<(), BackendError>)
        requires
            old(self).wf(),
            old(self)@.calls < u64::MAX,
        ensures
            r is Ok,
            final(self)@.datasets == create_model(
                old(self)@.datasets,
                name@,
                old(self)@.default_capacity,
            ),
            final(self)@.default_capacity == old(self)@.default_capacity,
            final(self)@.calls == old(self)@.calls + 1,
            final(self).wf(),
    {
        proof {
            lemma_create_wf(self@.datasets, name@, self@.default_capacity);
        }
        self.calls = self.calls + 1;
        match self.find(name) {
            Some(_) => Ok(()),
            None => {
                let d = Dataset { name: name.to_owned(), capacity: self.default_capacity, used: 0 };
                self.datasets.push(d);
                proof {
                    assert(self@.datasets =~= create_model(
                        old(self)@.datasets,
                        name@,
                        old(self)@.default_capacity,
                    ));
                }
                Ok(())
            },
        }
    }

    /// Destroys the named dataset.  Idempotent in effect: when the name
    /// is already absent the call succeeds and changes nothing.
    pub fn destroy(&mut self, name: &str) -> (r: Result<(), BackendError>)
        requires
            old(self).wf(),
            old(self)@.calls < u64::MAX,
        ensures
            r is Ok,
            final(self)@.datasets == destroy_model(old(self)@.datasets, name@),
            final(self)@.default_capacity == old(self)@.default_capacity,
            final(self)@.calls == old(self)@.calls + 1,
            final(self).wf(),
    {
        proof {
            lemma_destroy_wf(self@.datasets, name@);
        }
        self.calls = self.calls + 1;
        match self.find(name) {
            Some(i) => {
                proof {
                    lemma_index_unique(self@.datasets, name@, i as int);
                }
                self.datasets.remove(i);
                proof {
                    assert(self@.datasets =~= destroy_model(old(self)@.datasets, name@));
                }
                Ok(())
            },
            None => Ok(()),
        }
    }

    /// Reports the named dataset's capacity and use, or `None` when it
    /// does not exist.  Read-only on the store.
    pub fn query(&mut self, name: &str) -> (r: Result<Option<(u64, u64)>, BackendError>)
        requires
            old(self).wf(),
            old(self)@.calls < u64::MAX,
        ensures
            r is Ok,
            final(self)@.datasets == old(self)@.datasets,
            final(self)@.default_capacity == old(self)@.default_capacity,
            final(self)@.calls == old(self)@.calls + 1,
            final(self).wf(),
            has_dataset(old(self)@.datasets, name@) ==> r->Ok_0 == Some(
                (
                    dataset_at(old(self)@.datasets, name@).capacity,
                    dataset_at(old(self)@.datasets, name@).used,
                ),
            ),
            !has_dataset(old(self)@.datasets, name@) ==> r->Ok_0 is None,
    {
        self.calls = self.calls + 1;
        match self.find(name) {
            Some(i) => {
                proof {
                    lemma_index_unique(self@.datasets, name@, i as int);
                }
                Ok(Some((self.datasets[i].capacity, self.datasets[i].used)))
            },
            None => Ok(None),
        }
    }

    /// Sets the named dataset's capacity limit; an absent name changes
    /// nothing.  The size policy (only grow, and only when staged) is
    /// the handler's, not the backend's.
    pub fn resize(&mut self, name: &str, capacity: u64) -> (r: Result<(), BackendError>)
        requires
            old(self).wf(),
            old(self)@.calls < u64::MAX,
        ensures
            r is Ok,
            final(self)@.datasets == resize_model(old(self)@.datasets, name@, capacity),
            final(self)@.default_capacity == old(self)@.default_capacity,
            final(self)@.calls == old(self)@.calls + 1,
            final(self).wf(),
    {
        proof {
            lemma_resize_wf(self@.datasets, name@, capacity);
        }
        self.calls = self.calls + 1;
        match self.find(name) {
            Some(i) => {
                proof {
                    lemma_index_unique(self@.datasets, name@, i as int);
                }
                let d = &mut self.datasets[i];
                d.capacity = capacity;
                proof {
                    assert(self@.datasets =~= resize_model(old(self)@.datasets, name@, capacity));
                }
                Ok(())
            },
            None => Ok(()),
        }
    }

    /// Lists the names of the datasets under the given root, in store
    /// order, materialized in full before return.  An empty result is a
    /// valid response, not an error.
    pub fn enumerate(&mut self, root: &str) -> (r: Result<Vec<String>, BackendError>)
        requires
            old(self).wf(),
            old(self)@.calls < u64::MAX,
        ensures
            r is Ok,
            (r->Ok_0)@.map_values(|s: String| s@) == enumerate_model(old(self)@.datasets, root@),
            final(self)@.datasets == old(self)@.datasets,
            final(self)@.default_capacity == old(self)@.default_capacity,
            final(self)@.calls == old(self)@.calls + 1,
            final(self).wf(),
    {
        self.calls = self.calls + 1;
        let mut names: Vec<String> = Vec::new();
        let mut i: usize = 0;
        proof {
            assert(names@.map_values(|s: String| s@) =~= enumerate_model(
                self@.datasets.subrange(0, 0),
                root@,
            ));
        }
        while i < self.datasets.len()
            invariant
                i <= self.datasets.len(),
                self@.datasets.len() == self.datasets.len(),
                names@.map_values(|s: String| s@) == enumerate_model(
                    self@.datasets.subrange(0, i as int),
                    root@,
                ),
            decreases self.datasets.len() - i,
        {
            let ghost prefix = self@.datasets.subrange(0, i as int);
            let ghost full = self@.datasets.subrange(0, i as int + 1);
            proof {
                assert(full.drop_last() =~= prefix);
                assert(full.last() == self@.datasets[i as int]);
            }
            if is_under_root(self.datasets[i].name.as_str(), root) {
                names.push(self.datasets[i].name.clone());
                proof {
                    assert(names@.map_values(|s: String| s@) =~= enumerate_model(full, root@));
                }
            } else {
                proof {
                    assert(names@.map_values(|s: String| s@) =~= enumerate_model(full, root@));
                }
            }
            i += 1;
        }
        proof {
            assert(self@.datasets.subrange(0, self@.datasets.len() as int) =~= self@.datasets);
        }
        Ok(names)
    }
}

} // verus!
