//! What holds of every creation and of sequences of them, stated over the
//! store's specification and proved.

use vstd::prelude::*;

use crate::errors::ErrorTypes;
use crate::route::{probe, MAX_ROUTE_ATTEMPTS};
use crate::schema::{CreateView, ViewRecord};
use crate::store::{
    after_create, at_most_one_homepage, cleared, create_result, fault_reached, free_probe,
    lemma_create_keeps_invariant, lemma_free_probe_from, route_taken, rows_after, store_invariant,
    StoreOp,
};

verus! {

/// The rows after creating `c` at time `now` `n` times over, with no
/// store fault.
pub open spec fn repeat_create(rows: Seq<ViewRecord>, c: CreateView, now: i64, n: nat) -> Seq<ViewRecord>
    decreases n,
{
    if n == 0 {
        rows
    } else {
        rows_after(repeat_create(rows, c, now, (n - 1) as nat), None, c, now)
    }
}

/// A candidate's length is the seed's plus one per hyphen.
pub proof fn lemma_probe_len(seed: Seq<char>, k: nat)
    ensures
        probe(seed, k).len() == seed.len() + k,
    decreases k,
{
    if k > 0 {
        lemma_probe_len(seed, (k - 1) as nat);
    }
}

/// A creation adds exactly its own route to the routes in use.
pub proof fn lemma_after_create_routes(rows: Seq<ViewRecord>, v: ViewRecord, r: Seq<char>)
    ensures
        route_taken(after_create(rows, v), r) == (route_taken(rows, r) || v.route == r),
{
    let after = after_create(rows, v);
    if route_taken(rows, r) {
        let i = choose|i: int| 0 <= i < rows.len() && rows[i].route == r;
        assert(after[i].route == r);
    }
    if v.route == r {
        assert(after[rows.len() as int].route == r);
    }
    if route_taken(after, r) {
        let i = choose|i: int| 0 <= i < after.len() && after[i].route == r;
        if i < rows.len() {
            assert(rows[i].route == r);
        }
    }
}

/// Resolution picks the first free candidate: when exactly the first `n`
/// candidates are taken, it picks the `n`-th; when all are, nothing.
pub proof fn lemma_free_probe_first(rows: Seq<ViewRecord>, seed: Seq<char>, n: nat)
    requires
        forall|k: nat| k < MAX_ROUTE_ATTEMPTS ==> (route_taken(rows, #[trigger] probe(seed, k)) == (k < n)),
    ensures
        n < MAX_ROUTE_ATTEMPTS ==> free_probe(rows, seed) == Some(n),
        n >= MAX_ROUTE_ATTEMPTS ==> free_probe(rows, seed) is None,
{
    lemma_free_probe_from(rows, seed, 0);
    match free_probe(rows, seed) {
        Some(k) => {
            if n < k {
                assert(route_taken(rows, probe(seed, n)));
            }
        },
        None => {
            if n < MAX_ROUTE_ATTEMPTS {
                assert(route_taken(rows, probe(seed, n)));
            }
        },
    }
}

/// After `n` repetitions the store invariant holds and, of the candidates
/// within the budget, exactly the first `n` are taken.
pub proof fn lemma_repeat_create(rows: Seq<ViewRecord>, c: CreateView, now: i64, n: nat)
    requires
        store_invariant(rows),
        c.valid(),
        forall|k: nat| k < MAX_ROUTE_ATTEMPTS ==> !route_taken(rows, #[trigger] probe(c.route@, k)),
    ensures
        store_invariant(repeat_create(rows, c, now, n)),
        forall|k: nat|
            k < MAX_ROUTE_ATTEMPTS ==> (route_taken(repeat_create(rows, c, now, n), #[trigger] probe(c.route@, k))
                == (k < n)),
    decreases n,
{
    if n > 0 {
        let m = (n - 1) as nat;
        let prev = repeat_create(rows, c, now, m);
        lemma_repeat_create(rows, c, now, m);
        lemma_free_probe_first(prev, c.route@, m);
        if m < MAX_ROUTE_ATTEMPTS {
            let v = new_record_of(prev, c, now, m);
            lemma_create_keeps_invariant(prev, v);
            assert forall|k: nat| k < MAX_ROUTE_ATTEMPTS implies (route_taken(
                repeat_create(rows, c, now, n),
                #[trigger] probe(c.route@, k),
            ) == (k < n)) by {
                lemma_after_create_routes(prev, v, probe(c.route@, k));
                lemma_probe_len(c.route@, k);
                lemma_probe_len(c.route@, m);
            }
        }
    }
}

/// The row the creation of `c` inserts into `rows` after `k` collisions.
pub open spec fn new_record_of(rows: Seq<ViewRecord>, c: CreateView, now: i64, k: nat) -> ViewRecord {
    crate::store::new_record(c, probe(c.route@, k), (rows.len() + 1) as u128, now)
}

/// Creating views with one suggested route over and over, with no store
/// fault and none of its candidates in use at first: every route stays
/// unique, the creation after `n` others gets the route followed by `n`
/// hyphens while `n` is below the budget of ten, and every later creation
/// fails with an internal error and changes nothing.
pub proof fn law_repeated_route(rows: Seq<ViewRecord>, c: CreateView, now: i64, n: nat)
    requires
        store_invariant(rows),
        c.valid(),
        forall|k: nat| k < MAX_ROUTE_ATTEMPTS ==> !route_taken(rows, #[trigger] probe(c.route@, k)),
    ensures
        store_invariant(repeat_create(rows, c, now, n)),
        n < MAX_ROUTE_ATTEMPTS ==> (create_result(repeat_create(rows, c, now, n), None, c, now) matches Ok(v)
            && v.route == probe(c.route@, n)),
        n >= MAX_ROUTE_ATTEMPTS ==> create_result(repeat_create(rows, c, now, n), None, c, now) == Err::<
            ViewRecord,
            ErrorTypes,
        >(ErrorTypes::InternalError) && rows_after(repeat_create(rows, c, now, n), None, c, now)
            == repeat_create(rows, c, now, n),
{
    lemma_repeat_create(rows, c, now, n);
    lemma_free_probe_first(repeat_create(rows, c, now, n), c.route@, n);
}

/// After any creation the store holds at most one homepage. A committed
/// creation that asked for the homepage leaves exactly one: the new view.
/// Any other creation leaves every existing homepage flag as it was and
/// adds no homepage.
pub proof fn law_homepage_singleton(rows: Seq<ViewRecord>, fault: Option<StoreOp>, c: CreateView, now: i64)
    requires
        store_invariant(rows),
    ensures
        at_most_one_homepage(rows_after(rows, fault, c, now)),
        (create_result(rows, fault, c, now) matches Ok(v) && v.is_homepage) ==> forall|i: int|
            0 <= i < rows_after(rows, fault, c, now).len() ==> (rows_after(rows, fault, c, now)[i].is_homepage
                == (i == rows.len())),
        !(create_result(rows, fault, c, now) matches Ok(v) && v.is_homepage) ==> (forall|i: int|
            0 <= i < rows.len() ==> rows_after(rows, fault, c, now)[i].is_homepage == rows[i].is_homepage)
            && forall|i: int|
            rows.len() <= i < rows_after(rows, fault, c, now).len() ==> !rows_after(
                rows,
                fault,
                c,
                now,
            )[i].is_homepage,
{
    if let Ok(v) = create_result(rows, fault, c, now) {
        lemma_free_probe_from(rows, c.route@, 0);
        lemma_create_keeps_invariant(rows, v);
        assert(after_create(rows, v).len() == rows.len() + 1);
        if v.is_homepage {
            assert(cleared(rows).len() == rows.len());
        }
    }
}

/// A creation that asks for the homepage and meets a store fault while
/// clearing or setting the flag fails with an internal error and leaves
/// the rows exactly as they were: no new row, no flag changed.
pub proof fn law_failed_homepage_swap_rolls_back(
    rows: Seq<ViewRecord>,
    op: StoreOp,
    c: CreateView,
    now: i64,
)
    requires
        c.valid(),
        c.wants_homepage(),
        free_probe(rows, c.route@) is Some,
        op == StoreOp::ClearHomepage || op == StoreOp::SetHomepage,
    ensures
        create_result(rows, Some(op), c, now) == Err::<ViewRecord, ErrorTypes>(ErrorTypes::InternalError),
        rows_after(rows, Some(op), c, now) == rows,
{
    assert(fault_reached(Some(op), true, true));
}

/// A candidate that breaks a field rule is rejected with a validation
/// error and changes nothing, whatever fault is armed.
pub proof fn law_invalid_candidate_rejected(
    rows: Seq<ViewRecord>,
    fault: Option<StoreOp>,
    c: CreateView,
    now: i64,
)
    requires
        !c.valid(),
    ensures
        create_result(rows, fault, c, now) == Err::<ViewRecord, ErrorTypes>(ErrorTypes::Validation),
        rows_after(rows, fault, c, now) == rows,
{
}

/// The rows after a sequence of creations, each with the fault armed for
/// it, its candidate and its time.
pub open spec fn create_each(rows: Seq<ViewRecord>, steps: Seq<(Option<StoreOp>, CreateView, i64)>) -> Seq<
    ViewRecord,
>
    decreases steps.len(),
{
    if steps.len() == 0 {
        rows
    } else {
        let (fault, c, now) = steps.last();
        rows_after(create_each(rows, steps.drop_last()), fault, c, now)
    }
}

/// Every creation, committed or not, keeps the store invariant.
pub proof fn lemma_step_keeps_invariant(rows: Seq<ViewRecord>, fault: Option<StoreOp>, c: CreateView, now: i64)
    requires
        store_invariant(rows),
    ensures
        store_invariant(rows_after(rows, fault, c, now)),
{
    if let Ok(v) = create_result(rows, fault, c, now) {
        lemma_free_probe_from(rows, c.route@, 0);
        lemma_create_keeps_invariant(rows, v);
    }
}

/// Over any sequence of creations, whatever faults strike, routes stay
/// unique and at most one view is the homepage after each of them.
pub proof fn law_invariant_over_sequences(
    rows: Seq<ViewRecord>,
    steps: Seq<(Option<StoreOp>, CreateView, i64)>,
)
    requires
        store_invariant(rows),
    ensures
        store_invariant(create_each(rows, steps)),
    decreases steps.len(),
{
    if steps.len() > 0 {
        let (fault, c, now) = steps.last();
        law_invariant_over_sequences(rows, steps.drop_last());
        lemma_step_keeps_invariant(create_each(rows, steps.drop_last()), fault, c, now);
    }
}

} // verus!
