//! The idempotency and independence laws of the lifecycle, proved over
//! the backend store model.  Together with the handlers' own
//! contracts — which pin each handler's result and the store it leaves
//! behind — these laws say that the orchestrator may retry any call,
//! and may run calls for distinct volumes in either order, without
//! changing the outcome.

use vstd::prelude::*;

use crate::backend::DatasetModel;
use crate::backend::count_name;
use crate::backend::create_model;
use crate::backend::dataset_at;
use crate::backend::dataset_index;
use crate::backend::destroy_model;
use crate::backend::has_dataset;
use crate::backend::lemma_create_wf;
use crate::backend::lemma_index_unique;
use crate::backend::name_set;
use crate::backend::wf_model;

verus! {

/// In a well-formed store a name occurs exactly once when present and
/// not at all when absent.
pub proof fn lemma_wf_count(m: Seq<DatasetModel>, name: Seq<char>)
    requires
        wf_model(m),
    ensures
        count_name(m, name) == if has_dataset(m, name) {
            1nat
        } else {
            0nat
        },
    decreases m.len(),
{
    if m.len() > 0 {
        let m0 = m.drop_last();
        assert(wf_model(m0));
        lemma_wf_count(m0, name);
        if m.last().name == name {
            assert(has_dataset(m, name)) by {
                assert(m[m.len() - 1].name == name);
            }
            assert(!has_dataset(m0, name)) by {
                if has_dataset(m0, name) {
                    let i = choose|i: int| 0 <= i < m0.len() && m0[i].name == name;
                    assert(m[i].name == name);
                }
            }
        } else {
            if has_dataset(m, name) {
                let i = choose|i: int| 0 <= i < m.len() && m[i].name == name;
                assert(m0[i].name == name);
            }
        }
    }
}

/// Creating a dataset makes its name exist and adds exactly that name
/// to the store's name set.
pub proof fn lemma_create_names(m: Seq<DatasetModel>, name: Seq<char>, capacity: u64)
    ensures
        has_dataset(create_model(m, name, capacity), name),
        name_set(create_model(m, name, capacity)) == name_set(m).insert(name),
{
    let c = create_model(m, name, capacity);
    if has_dataset(m, name) {
        assert(name_set(m).contains(name));
        assert(name_set(c) =~= name_set(m).insert(name));
    } else {
        assert(c[m.len() as int].name == name);
        assert(has_dataset(c, name));
        assert forall|x: Seq<char>| name_set(c).contains(x) implies name_set(m).insert(
            name,
        ).contains(x) by {
            let i = choose|i: int| 0 <= i < c.len() && c[i].name == x;
            if i < m.len() {
                assert(m[i].name == x);
            }
        }
        assert forall|x: Seq<char>| name_set(m).insert(name).contains(x) implies name_set(
            c,
        ).contains(x) by {
            if x == name {
                assert(c[m.len() as int].name == x);
            } else {
                let i = choose|i: int| 0 <= i < m.len() && m[i].name == x;
                assert(c[i].name == x);
            }
        }
        assert(name_set(c) =~= name_set(m).insert(name));
    }
}

/// Idempotence of staging: creating the same dataset twice is the same
/// as creating it once, the dataset exists afterwards, and a
/// well-formed store then holds it exactly once.
pub proof fn lemma_stage_idempotent(m: Seq<DatasetModel>, name: Seq<char>, capacity: u64)
    requires
        wf_model(m),
    ensures
        create_model(create_model(m, name, capacity), name, capacity) == create_model(
            m,
            name,
            capacity,
        ),
        has_dataset(create_model(m, name, capacity), name),
        count_name(create_model(m, name, capacity), name) == 1,
{
    lemma_create_names(m, name, capacity);
    lemma_create_wf(m, name, capacity);
    lemma_wf_count(create_model(m, name, capacity), name);
}

/// Idempotence of unstaging: destroying an absent dataset changes
/// nothing, and destroying the same dataset twice is the same as
/// destroying it once.
pub proof fn lemma_unstage_idempotent(m: Seq<DatasetModel>, name: Seq<char>)
    requires
        wf_model(m),
    ensures
        !has_dataset(m, name) ==> destroy_model(m, name) == m,
        !has_dataset(destroy_model(m, name), name),
        destroy_model(destroy_model(m, name), name) == destroy_model(m, name),
{
    if has_dataset(m, name) {
        let i = dataset_index(m, name);
        let d = destroy_model(m, name);
        assert(!has_dataset(d, name)) by {
            if has_dataset(d, name) {
                let j = choose|j: int| 0 <= j < d.len() && d[j].name == name;
                if j < i {
                    assert(m[j].name == name);
                    lemma_index_unique(m, name, j);
                } else {
                    assert(m[j + 1].name == name);
                    lemma_index_unique(m, name, j + 1);
                }
            }
        }
    }
}

/// Independence of staging across volumes: staging two distinct
/// dataset names leaves both in existence, the resulting name set is
/// the old one plus exactly those two names, and the order of the two
/// calls does not matter.
pub proof fn lemma_stage_independent(
    m: Seq<DatasetModel>,
    n1: Seq<char>,
    n2: Seq<char>,
    capacity: u64,
)
    requires
        n1 != n2,
    ensures
        has_dataset(create_model(create_model(m, n1, capacity), n2, capacity), n1),
        has_dataset(create_model(create_model(m, n1, capacity), n2, capacity), n2),
        name_set(create_model(create_model(m, n1, capacity), n2, capacity)) == name_set(m).insert(
            n1,
        ).insert(n2),
        name_set(create_model(create_model(m, n2, capacity), n1, capacity)) == name_set(
            create_model(create_model(m, n1, capacity), n2, capacity),
        ),
{
    let c1 = create_model(m, n1, capacity);
    let c12 = create_model(c1, n2, capacity);
    let c2 = create_model(m, n2, capacity);
    let c21 = create_model(c2, n1, capacity);
    lemma_create_names(m, n1, capacity);
    lemma_create_names(c1, n2, capacity);
    lemma_create_names(m, n2, capacity);
    lemma_create_names(c2, n1, capacity);
    assert(name_set(c12).contains(n1));
    assert(name_set(c12).contains(n2));
    assert(name_set(c21) =~= name_set(c12));
}

/// A freshly staged dataset reports the default capacity and no use:
/// what a stats call returns right after a stage.
pub proof fn lemma_stage_then_stats(m: Seq<DatasetModel>, name: Seq<char>, capacity: u64)
    requires
        wf_model(m),
        !has_dataset(m, name),
    ensures
        dataset_at(create_model(m, name, capacity), name) == (DatasetModel {
            name,
            capacity,
            used: 0,
        }),
{
    let c = create_model(m, name, capacity);
    assert(c[m.len() as int].name == name);
    lemma_create_wf(m, name, capacity);
    lemma_index_unique(c, name, m.len() as int);
}

} // verus!
