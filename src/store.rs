//! An in-memory view store with the transactional contract of the
//! relational store the application runs against.
//!
//! Every write of a creation happens on a transaction's working copy; only
//! a successful commit replaces the committed rows, so a failure at any
//! step leaves the store as it was. A fault can be armed on one store
//! operation to exercise those failure paths, and every store operation is
//! counted.

use vstd::prelude::*;

use crate::errors::{ErrorTypes, PerseError};
use crate::route::{probe, route_exhausted_error, RouteProbe, RouteStep, MAX_ROUTE_ATTEMPTS};
use crate::schema::{CreateView, PerseView, ViewRecord, ViewVisibilityTypes};

verus! {

/// The operations a creation performs on the store, in order.
#[derive(Clone, Copy, Debug, PartialEq, Eq, Structural)]
pub enum StoreOp {
    Begin,
    CountRoute,
    Insert,
    ClearHomepage,
    SetHomepage,
    Commit,
}

/// Some row holds route `r`.
pub open spec fn route_taken(rows: Seq<ViewRecord>, r: Seq<char>) -> bool {
    exists|i: int| 0 <= i < rows.len() && rows[i].route == r
}

/// No two rows share a route.
pub open spec fn routes_unique(rows: Seq<ViewRecord>) -> bool {
    forall|i: int, j: int| 0 <= i < rows.len() && 0 <= j < rows.len() && i != j ==> rows[i].route != rows[j].route
}

/// At most one row is the homepage.
pub open spec fn at_most_one_homepage(rows: Seq<ViewRecord>) -> bool {
    forall|i: int, j: int|
        0 <= i < rows.len() && 0 <= j < rows.len() && rows[i].is_homepage && rows[j].is_homepage ==> i == j
}

/// The invariant of the committed rows: identifiers count up from one in
/// insertion order, routes are unique, and at most one row is the homepage.
pub open spec fn store_invariant(rows: Seq<ViewRecord>) -> bool {
    &&& forall|i: int| 0 <= i < rows.len() ==> rows[i].id == Some((i + 1) as u128)
    &&& routes_unique(rows)
    &&& at_most_one_homepage(rows)
}

/// The least number of collisions `k`, from `from` on and within the
/// budget, whose candidate is free.
pub open spec fn free_probe_from(rows: Seq<ViewRecord>, seed: Seq<char>, from: nat) -> Option<nat>
    decreases MAX_ROUTE_ATTEMPTS - from,
{
    if from >= MAX_ROUTE_ATTEMPTS {
        None
    } else if !route_taken(rows, probe(seed, from)) {
        Some(from)
    } else {
        free_probe_from(rows, seed, from + 1)
    }
}

/// The number of collisions before the route that resolution picks for
/// `seed`, or `None` when every candidate within the budget is taken.
pub open spec fn free_probe(rows: Seq<ViewRecord>, seed: Seq<char>) -> Option<nat> {
    free_probe_from(rows, seed, 0)
}

/// The rows with every homepage flag cleared.
pub open spec fn cleared(rows: Seq<ViewRecord>) -> Seq<ViewRecord> {
    rows.map_values(|r: ViewRecord| ViewRecord { is_homepage: false, ..r })
}

/// The rows with the homepage flag set on the row whose identifier is `id`.
pub open spec fn flagged(rows: Seq<ViewRecord>, id: u128) -> Seq<ViewRecord> {
    rows.map_values(
        |r: ViewRecord|
            if r.id == Some(id) {
                ViewRecord { is_homepage: true, ..r }
            } else {
                r
            },
    )
}

/// The row a creation inserts.
pub open spec fn new_record(c: CreateView, route: Seq<char>, id: u128, now: i64) -> ViewRecord {
    ViewRecord {
        id: Some(id),
        created_at: Some(now),
        updated_at: Some(now),
        visibility: c.visibility,
        title: c.title@,
        content_body: c.content_body.deep_view(),
        content_head: c.content_head.deep_view(),
        description: c.description.deep_view(),
        route,
        is_homepage: c.wants_homepage(),
    }
}

/// The committed rows after `v` is created: a new homepage first clears
/// the flag everywhere else.
pub open spec fn after_create(rows: Seq<ViewRecord>, v: ViewRecord) -> Seq<ViewRecord> {
    if v.is_homepage {
        cleared(rows).push(v)
    } else {
        rows.push(v)
    }
}

/// Whether an armed fault is met by a creation that resolved its route
/// (`resolved`) and does or does not swap the homepage (`swap`).
pub open spec fn fault_reached(fault: Option<StoreOp>, resolved: bool, swap: bool) -> bool {
    match fault {
        None => false,
        Some(StoreOp::Begin) => true,
        Some(StoreOp::CountRoute) => true,
        Some(StoreOp::Insert) => resolved,
        Some(StoreOp::Commit) => resolved,
        Some(StoreOp::ClearHomepage) => resolved && swap,
        Some(StoreOp::SetHomepage) => resolved && swap,
    }
}

/// What creating `c` at time `now` yields on `rows` with `fault` armed:
/// the inserted row, or the kind of the error.
pub open spec fn create_result(rows: Seq<ViewRecord>, fault: Option<StoreOp>, c: CreateView, now: i64) -> Result<
    ViewRecord,
    ErrorTypes,
> {
    if !c.valid() {
        Err(ErrorTypes::Validation)
    } else {
        match free_probe(rows, c.route@) {
            None => Err(ErrorTypes::InternalError),
            Some(k) => if fault_reached(fault, true, c.wants_homepage()) {
                Err(ErrorTypes::InternalError)
            } else {
                Ok(new_record(c, probe(c.route@, k), (rows.len() + 1) as u128, now))
            },
        }
    }
}

/// The committed rows after creating `c`: changed only on success.
pub open spec fn rows_after(rows: Seq<ViewRecord>, fault: Option<StoreOp>, c: CreateView, now: i64) -> Seq<
    ViewRecord,
> {
    match create_result(rows, fault, c, now) {
        Ok(v) => after_create(rows, v),
        Err(_) => rows,
    }
}

/// The rows of a sequence of views, as records.
pub open spec fn records(rows: Seq<PerseView>) -> Seq<ViewRecord> {
    rows.map_values(|v: PerseView| v.record())
}

/// The in-memory store.
pub struct ViewStore {
    rows: Vec<PerseView>,
    calls: u64,
    fault: Option<StoreOp>,
}

/// An open transaction: a working copy of the rows.
pub struct Transaction {
    rows: Vec<PerseView>,
}

impl View for ViewStore {
    type V = Seq<ViewRecord>;

    /// The committed rows.
    closed spec fn view(&self) -> Seq<ViewRecord> {
        records(self.rows@)
    }
}

impl View for Transaction {
    type V = Seq<ViewRecord>;

    /// The rows as this transaction sees them.
    closed spec fn view(&self) -> Seq<ViewRecord> {
        records(self.rows@)
    }
}

impl ViewStore {
    /// The fault armed on the next matching operation, if any.
    pub closed spec fn armed(&self) -> Option<StoreOp> {
        self.fault
    }

    /// How many store operations have been performed (saturating).
    pub closed spec fn call_count(&self) -> u64 {
        self.calls
    }

    /// The committed rows meet the store invariant.
    pub open spec fn wf(&self) -> bool {
        store_invariant(self@)
    }

    /// An empty store with no fault armed.
    pub fn new() -> (r: ViewStore)
        ensures
            r@ == Seq::<ViewRecord>::empty(),
            r.wf(),
            r.armed() is None,
            r.call_count() == 0,
    {
        let r = ViewStore { rows: Vec::new(), calls: 0, fault: None };
        assert(r@ =~= Seq::<ViewRecord>::empty());
        r
    }

    /// Arms a fault: the next `op` fails, once.
    pub fn fail_next(&mut self, op: StoreOp)
        ensures
            final(self)@ == old(self)@,
            final(self).armed() == Some(op),
            final(self).call_count() == old(self).call_count(),
    {
        self.fault = Some(op);
    }

    /// How many store operations have been performed.
    pub fn calls(&self) -> (r: u64)
        ensures
            r == self.call_count(),
    {
        self.calls
    }

    /// Counts one operation `op`; false when a fault was armed on it, which
    /// disarms it.
    fn perform(&mut self, op: StoreOp) -> (ok: bool)
        ensures
            final(self).rows == old(self).rows,
            ok == (old(self).fault != Some(op)),
            final(self).fault == (if ok { old(self).fault } else { None }),
            final(self).calls >= old(self).calls,
    {
        if self.calls < u64::MAX {
            self.calls = self.calls + 1;
        }
        match self.fault {
            Some(f) => if f == op {
                self.fault = None;
                false
            } else {
                true
            },
            None => true,
        }
    }

    /// Opens a transaction on a copy of the committed rows.
    fn begin(&mut self) -> (r: Result<Transaction, PerseError>)
        ensures
            final(self).rows == old(self).rows,
            r is Ok == (old(self).fault != Some(StoreOp::Begin)),
            final(self).fault == (if r is Ok { old(self).fault } else { None }),
            final(self).calls >= old(self).calls,
            r matches Ok(tx) ==> tx@ == old(self)@,
            r matches Err(e) ==> e.error_type == ErrorTypes::InternalError,
    {
        if !self.perform(StoreOp::Begin) {
            return Err(PerseError::new(ErrorTypes::InternalError, "Failed to start a transaction"));
        }
        let mut rows: Vec<PerseView> = Vec::new();
        let n = self.rows.len();
        let mut i: usize = 0;
        while i < n
            invariant
                n == self.rows@.len(),
                i <= n,
                rows@.len() == i,
                forall|j: int| 0 <= j < i ==> rows@[j].record() == self.rows@[j].record(),
            decreases n - i,
        {
            rows.push(self.rows[i].copy());
            i = i + 1;
        }
        let tx = Transaction { rows };
        assert(records(tx.rows@) =~= records(self.rows@));
        Ok(tx)
    }

    /// Counts the rows of the transaction that hold `route`; the count is
    /// zero exactly when no row does.
    fn count_route(&mut self, tx: &Transaction, route: &String) -> (r: Result<i64, PerseError>)
        ensures
            final(self).rows == old(self).rows,
            r is Ok == (old(self).fault != Some(StoreOp::CountRoute)),
            final(self).fault == (if r is Ok { old(self).fault } else { None }),
            final(self).calls >= old(self).calls,
            r matches Ok(n) ==> (n == 0) == !route_taken(tx@, route@),
            r matches Err(e) ==> e.error_type == ErrorTypes::InternalError,
    {
        if !self.perform(StoreOp::CountRoute) {
            return Err(
                PerseError::new(ErrorTypes::InternalError, "Failed to determine if the route already exists"),
            );
        }
        let n = tx.rows.len();
        let mut count: i64 = 0;
        let mut i: usize = 0;
        while i < n
            invariant
                n == tx.rows@.len(),
                i <= n,
                0 <= count,
                (count == 0) == !(exists|j: int| 0 <= j < i && tx.rows@[j].route@ == route@),
            decreases n - i,
        {
            if tx.rows[i].route == *route && count < i64::MAX {
                count = count + 1;
            }
            i = i + 1;
        }
        assert((count == 0) == !route_taken(tx@, route@)) by {
            if route_taken(tx@, route@) {
                let j = choose|j: int| 0 <= j < tx@.len() && tx@[j].route == route@;
                assert(tx.rows@[j].route@ == route@);
            }
            if exists|j: int| 0 <= j < n && tx.rows@[j].route@ == route@ {
                let j = choose|j: int| 0 <= j < n && tx.rows@[j].route@ == route@;
                assert(tx@[j].route == route@);
            }
        }
        Ok(count)
    }

    /// Resolves a free route for `seed` in the transaction: the first
    /// candidate within the budget that no row holds.
    fn resolve_route(&mut self, tx: &Transaction, seed: &String) -> (r: Result<String, PerseError>)
        ensures
            final(self).rows == old(self).rows,
            final(self).calls >= old(self).calls,
            old(self).fault == Some(StoreOp::CountRoute) ==> r is Err && final(self).fault is None,
            old(self).fault != Some(StoreOp::CountRoute) ==> final(self).fault == old(self).fault && match free_probe(
                tx@,
                seed@,
            ) {
                Some(k) => r matches Ok(route) && route@ == probe(seed@, k),
                None => r is Err,
            },
            r matches Err(e) ==> e.error_type == ErrorTypes::InternalError,
    {
        let mut state = RouteProbe::new(seed.as_str());
        loop
            invariant
                state.follows(seed@),
                self.rows == old(self).rows,
                self.fault == old(self).fault,
                self.calls >= old(self).calls,
                old(self).fault == Some(StoreOp::CountRoute) ==> state.attempts == 0,
                free_probe(tx@, seed@) == free_probe_from(tx@, seed@, state.attempts as nat),
            decreases MAX_ROUTE_ATTEMPTS - state.attempts,
        {
            let count = match self.count_route(tx, &state.candidate) {
                Ok(n) => n,
                Err(e) => return Err(e),
            };
            let ghost attempts = state.attempts as nat;
            let ghost candidate = state.candidate@;
            match state.step(count) {
                RouteStep::Found(route) => {
                    return Ok(route);
                },
                RouteStep::Next(next) => {
                    assert(free_probe_from(tx@, seed@, attempts) == free_probe_from(tx@, seed@, attempts + 1));
                    state = next;
                },
                RouteStep::Exhausted => {
                    assert(free_probe_from(tx@, seed@, attempts) == free_probe_from(tx@, seed@, attempts + 1));
                    return Err(route_exhausted_error());
                },
            }
        }
    }

    /// Inserts the row `c` describes under `route`, with the next
    /// identifier and both timestamps at `now`.
    fn insert_view(&mut self, tx: &mut Transaction, c: &CreateView, route: String, now: i64) -> (r: Result<
        PerseView,
        PerseError,
    >)
        ensures
            final(self).rows == old(self).rows,
            r is Ok == (old(self).fault != Some(StoreOp::Insert)),
            final(self).fault == (if r is Ok { old(self).fault } else { None }),
            final(self).calls >= old(self).calls,
            r matches Ok(v) ==> v.record() == new_record(*c, route@, (old(tx)@.len() + 1) as u128, now)
                && final(tx)@ == old(tx)@.push(v.record()),
            r is Err ==> final(tx)@ == old(tx)@,
            r matches Err(e) ==> e.error_type == ErrorTypes::InternalError,
    {
        if !self.perform(StoreOp::Insert) {
            return Err(PerseError::new(ErrorTypes::InternalError, "Failed to create View"));
        }
        let id = tx.rows.len() as u128 + 1;
        let v = PerseView {
            id: Some(id),
            created_at: Some(now),
            updated_at: Some(now),
            visibility: c.visibility,
            title: c.title.clone(),
            content_body: crate::schema::copy_text(&c.content_body),
            content_head: crate::schema::copy_text(&c.content_head),
            description: crate::schema::copy_text(&c.description),
            route,
            is_homepage: c.is_homepage.is_some(),
        };
        tx.rows.push(v.copy());
        assert(records(tx.rows@) =~= records(old(tx).rows@).push(v.record()));
        Ok(v)
    }

    /// Clears the homepage flag on every row of the transaction.
    fn clear_homepage(&mut self, tx: &mut Transaction) -> (r: Result<(), PerseError>)
        ensures
            final(self).rows == old(self).rows,
            r is Ok == (old(self).fault != Some(StoreOp::ClearHomepage)),
            final(self).fault == (if r is Ok { old(self).fault } else { None }),
            final(self).calls >= old(self).calls,
            r is Ok ==> final(tx)@ == cleared(old(tx)@),
            r is Err ==> final(tx)@ == old(tx)@,
            r matches Err(e) ==> e.error_type == ErrorTypes::InternalError,
    {
        if !self.perform(StoreOp::ClearHomepage) {
            return Err(PerseError::new(ErrorTypes::InternalError, "Failed to remove the old homepage view"));
        }
        let n = tx.rows.len();
        let mut i: usize = 0;
        while i < n
            invariant
                n == tx.rows@.len(),
                n == old(tx).rows@.len(),
                i <= n,
                forall|j: int|
                    0 <= j < i ==> tx.rows@[j].record() == (ViewRecord {
                        is_homepage: false,
                        ..old(tx).rows@[j].record()
                    }),
                forall|j: int| i <= j < n ==> tx.rows@[j] == old(tx).rows@[j],
            decreases n - i,
        {
            tx.rows[i].is_homepage = false;
            i = i + 1;
        }
        assert(records(tx.rows@) =~= cleared(records(old(tx).rows@)));
        Ok(())
    }

    /// Sets the homepage flag on the row of the transaction whose
    /// identifier is `id`.
    fn set_homepage(&mut self, tx: &mut Transaction, id: u128) -> (r: Result<(), PerseError>)
        ensures
            final(self).rows == old(self).rows,
            r is Ok == (old(self).fault != Some(StoreOp::SetHomepage)),
            final(self).fault == (if r is Ok { old(self).fault } else { None }),
            final(self).calls >= old(self).calls,
            r is Ok ==> final(tx)@ == flagged(old(tx)@, id),
            r is Err ==> final(tx)@ == old(tx)@,
            r matches Err(e) ==> e.error_type == ErrorTypes::InternalError,
    {
        if !self.perform(StoreOp::SetHomepage) {
            return Err(PerseError::new(ErrorTypes::InternalError, "Failed to update the new homepage view"));
        }
        let n = tx.rows.len();
        let mut i: usize = 0;
        while i < n
            invariant
                n == tx.rows@.len(),
                n == old(tx).rows@.len(),
                i <= n,
                forall|j: int|
                    0 <= j < i ==> tx.rows@[j].record() == (if old(tx).rows@[j].id == Some(id) {
                        ViewRecord { is_homepage: true, ..old(tx).rows@[j].record() }
                    } else {
                        old(tx).rows@[j].record()
                    }),
                forall|j: int| i <= j < n ==> tx.rows@[j] == old(tx).rows@[j],
            decreases n - i,
        {
            let matches_id = match tx.rows[i].id {
                Some(x) => x == id,
                None => false,
            };
            if matches_id {
                tx.rows[i].is_homepage = true;
            }
            i = i + 1;
        }
        assert(records(tx.rows@) =~= flagged(records(old(tx).rows@), id));
        Ok(())
    }

    /// Makes the transaction's rows the committed rows.
    fn commit(&mut self, tx: Transaction) -> (r: Result<(), PerseError>)
        ensures
            r is Ok == (old(self).fault != Some(StoreOp::Commit)),
            final(self).fault == (if r is Ok { old(self).fault } else { None }),
            final(self).calls >= old(self).calls,
            r is Ok ==> final(self)@ == tx@,
            r is Err ==> final(self).rows == old(self).rows,
            r matches Err(e) ==> e.error_type == ErrorTypes::InternalError,
    {
        if !self.perform(StoreOp::Commit) {
            return Err(PerseError::new(ErrorTypes::InternalError, "Failed to commit the transaction"));
        }
        self.rows = tx.rows;
        Ok(())
    }
}

/// What `free_probe_from` picks is within the budget and free, and every
/// candidate it passed over is taken; when it picks nothing, every
/// candidate from `from` on is taken.
pub proof fn lemma_free_probe_from(rows: Seq<ViewRecord>, seed: Seq<char>, from: nat)
    ensures
        match free_probe_from(rows, seed, from) {
            Some(k) => from <= k < MAX_ROUTE_ATTEMPTS && !route_taken(rows, probe(seed, k)) && forall|j: nat|
                from <= j < k ==> route_taken(rows, #[trigger] probe(seed, j)),
            None => forall|j: nat| from <= j < MAX_ROUTE_ATTEMPTS ==> route_taken(rows, #[trigger] probe(seed, j)),
        },
    decreases MAX_ROUTE_ATTEMPTS - from,
{
    if from < MAX_ROUTE_ATTEMPTS && route_taken(rows, probe(seed, from)) {
        lemma_free_probe_from(rows, seed, from + 1);
    }
}

/// Creating a row with the next identifier and a free route keeps the
/// store invariant.
pub proof fn lemma_create_keeps_invariant(rows: Seq<ViewRecord>, v: ViewRecord)
    requires
        store_invariant(rows),
        v.id == Some((rows.len() + 1) as u128),
        !route_taken(rows, v.route),
    ensures
        store_invariant(after_create(rows, v)),
{
    let after = after_create(rows, v);
    assert forall|i: int, j: int| 0 <= i < after.len() && 0 <= j < after.len() && i != j implies after[i].route
        != after[j].route by {
        if i < rows.len() && j < rows.len() {
            assert(after[i].route == rows[i].route);
            assert(after[j].route == rows[j].route);
        } else if i < rows.len() {
            assert(after[i].route == rows[i].route);
        } else {
            assert(after[j].route == rows[j].route);
        }
    }
}

impl ViewStore {
    /// Creates a view from `candidate` at time `now`.
    ///
    /// The candidate is validated before the store is touched. Then, in
    /// one transaction, a free route is resolved from the suggested one,
    /// the row is inserted with the next identifier, and, when the
    /// candidate asks to be the homepage, the flag is cleared everywhere
    /// and set on the new row. Any failure after the transaction opened
    /// leaves the committed rows as they were.
    pub fn create_view(&mut self, candidate: &CreateView, now: i64) -> (r: Result<PerseView, PerseError>)
        requires
            old(self).wf(),
        ensures
            final(self).wf(),
            final(self)@ == rows_after(old(self)@, old(self).armed(), *candidate, now),
            match r {
                Ok(v) => create_result(old(self)@, old(self).armed(), *candidate, now) == Ok::<
                    ViewRecord,
                    ErrorTypes,
                >(v.record()),
                Err(e) => create_result(old(self)@, old(self).armed(), *candidate, now) == Err::<
                    ViewRecord,
                    ErrorTypes,
                >(e.error_type),
            },
            !candidate.valid() ==> final(self).call_count() == old(self).call_count(),
            final(self).call_count() >= old(self).call_count(),
            final(self).armed() == (if candidate.valid() && fault_reached(
                old(self).armed(),
                free_probe(old(self)@, candidate.route@) is Some,
                candidate.wants_homepage(),
            ) {
                None
            } else {
                old(self).armed()
            }),
    {
        let ghost rows0 = self@;
        let ghost fault0 = self.fault;
        let ghost swap = candidate.wants_homepage();
        proof {
            lemma_free_probe_from(rows0, candidate.route@, 0);
        }
        if let Err(e) = candidate.validate() {
            return Err(e);
        }
        let mut tx = match self.begin() {
            Ok(tx) => tx,
            Err(e) => return Err(e),
        };
        let route = match self.resolve_route(&tx, &candidate.route) {
            Ok(route) => route,
            Err(e) => return Err(e),
        };
        let view = match self.insert_view(&mut tx, candidate, route, now) {
            Ok(v) => v,
            Err(e) => return Err(e),
        };
        let ghost v = view.record();
        if view.is_homepage {
            if let Err(e) = self.clear_homepage(&mut tx) {
                return Err(e);
            }
            let id = tx.rows.len() as u128;
            if let Err(e) = self.set_homepage(&mut tx, id) {
                return Err(e);
            }
            assert(tx@ =~= cleared(rows0).push(v)) by {
                assert forall|j: int| 0 <= j < rows0.len() implies cleared(rows0.push(v))[j].id != Some(id) by {
                    assert(rows0[j].id == Some((j + 1) as u128));
                }
            }
        }
        if let Err(e) = self.commit(tx) {
            return Err(e);
        }
        proof {
            lemma_create_keeps_invariant(rows0, v);
        }
        Ok(view)
    }
}

/// Row `r` is reachable by the public lookups.
pub open spec fn is_public(r: ViewRecord) -> bool {
    r.visibility == ViewVisibilityTypes::VisibilityPublic
}

/// The rows whose homepage flag is `flag`, in order.
pub open spec fn with_flag(rows: Seq<ViewRecord>, flag: bool) -> Seq<ViewRecord>
    decreases rows.len(),
{
    if rows.len() == 0 {
        Seq::<ViewRecord>::empty()
    } else {
        let prev = with_flag(rows.drop_last(), flag);
        if rows.last().is_homepage == flag {
            prev.push(rows.last())
        } else {
            prev
        }
    }
}

/// All rows, the homepage first, the others in insertion order.
pub open spec fn homepage_first(rows: Seq<ViewRecord>) -> Seq<ViewRecord> {
    with_flag(rows, true) + with_flag(rows, false)
}

/// A name for what uuid's parser makes of a text: the identifier's value,
/// or `None` when the text is no identifier.
pub uninterp spec fn parsed_uuid(s: Seq<char>) -> Option<u128>;

/// Relies on uuid::Uuid::parse_str (read back with Uuid::as_u128): the
/// result depends on the text alone.
#[verifier::external_body]
fn parse_uuid(s: &str) -> (r: Option<u128>)
    ensures
        r == parsed_uuid(s@),
{
    match uuid::Uuid::parse_str(s) {
        Ok(u) => Some(u.as_u128()),
        Err(_) => None,
    }
}

impl ViewStore {
    /// Appends copies of the rows whose homepage flag is `flag` to `out`.
    fn collect_flagged(&self, out: &mut Vec<PerseView>, flag: bool)
        ensures
            records(final(out)@) == records(old(out)@) + with_flag(self@, flag),
    {
        let n = self.rows.len();
        let mut i: usize = 0;
        while i < n
            invariant
                n == self.rows@.len(),
                i <= n,
                records(out@) == records(old(out)@) + with_flag(self@.take(i as int), flag),
            decreases n - i,
        {
            let ghost prev = records(out@);
            assert(self@.take(i + 1).drop_last() =~= self@.take(i as int));
            assert(self@.take(i + 1).last() == self.rows@[i as int].record());
            if self.rows[i].is_homepage == flag {
                out.push(self.rows[i].copy());
                assert(records(out@) =~= prev.push(self.rows@[i as int].record()));
            }
            i = i + 1;
        }
        assert(self@.take(n as int) =~= self@);
    }

    /// Every view, the homepage first.
    pub fn get_all(&self) -> (r: Vec<PerseView>)
        ensures
            records(r@) == homepage_first(self@),
    {
        let mut out: Vec<PerseView> = Vec::new();
        assert(records(out@) =~= Seq::<ViewRecord>::empty());
        self.collect_flagged(&mut out, true);
        self.collect_flagged(&mut out, false);
        assert(records(out@) =~= homepage_first(self@));
        out
    }

    /// The public view at `route`; `NotFound` when there is none, even if
    /// a non-public view holds that route.
    pub fn get_view_by_route(&self, route: &str) -> (r: Result<PerseView, PerseError>)
        ensures
            match r {
                Ok(v) => exists|i: int|
                    0 <= i < self@.len() && self@[i] == v.record() && v.record().route == route@ && is_public(
                        v.record(),
                    ),
                Err(e) => e.error_type == ErrorTypes::NotFound && !exists|i: int|
                    0 <= i < self@.len() && self@[i].route == route@ && is_public(self@[i]),
            },
    {
        let n = self.rows.len();
        let mut i: usize = 0;
        while i < n
            invariant
                n == self.rows@.len(),
                i <= n,
                forall|j: int| 0 <= j < i ==> !(self@[j].route == route@ && is_public(self@[j])),
            decreases n - i,
        {
            let row = &self.rows[i];
            if row.visibility == ViewVisibilityTypes::VisibilityPublic && crate::schema::same_text(
                row.route.as_str(),
                route,
            ) {
                let v = row.copy();
                assert(self@[i as int] == v.record());
                return Ok(v);
            }
            i = i + 1;
        }
        Err(PerseError::new(ErrorTypes::NotFound, "Failed to retrieve View by Route"))
    }

    /// The homepage, when it is public; `NotFound` otherwise.
    pub fn get_homepage_view(&self) -> (r: Result<PerseView, PerseError>)
        ensures
            match r {
                Ok(v) => exists|i: int|
                    0 <= i < self@.len() && self@[i] == v.record() && v.record().is_homepage && is_public(
                        v.record(),
                    ),
                Err(e) => e.error_type == ErrorTypes::NotFound && !exists|i: int|
                    0 <= i < self@.len() && self@[i].is_homepage && is_public(self@[i]),
            },
    {
        let n = self.rows.len();
        let mut i: usize = 0;
        while i < n
            invariant
                n == self.rows@.len(),
                i <= n,
                forall|j: int| 0 <= j < i ==> !(self@[j].is_homepage && is_public(self@[j])),
            decreases n - i,
        {
            let row = &self.rows[i];
            if row.is_homepage && row.visibility == ViewVisibilityTypes::VisibilityPublic {
                let v = row.copy();
                assert(self@[i as int] == v.record());
                return Ok(v);
            }
            i = i + 1;
        }
        Err(PerseError::new(ErrorTypes::NotFound, "Failed to retrieve the Homepage View"))
    }

    /// The view whose identifier is `id`, whatever its visibility;
    /// `NotFound` when there is none.
    pub fn get_by_uuid(&self, id: u128) -> (r: Result<PerseView, PerseError>)
        ensures
            match r {
                Ok(v) => exists|i: int| 0 <= i < self@.len() && self@[i] == v.record() && v.record().id == Some(id),
                Err(e) => e.error_type == ErrorTypes::NotFound && !exists|i: int|
                    0 <= i < self@.len() && self@[i].id == Some(id),
            },
    {
        let n = self.rows.len();
        let mut i: usize = 0;
        while i < n
            invariant
                n == self.rows@.len(),
                i <= n,
                forall|j: int| 0 <= j < i ==> self@[j].id != Some(id),
            decreases n - i,
        {
            let row = &self.rows[i];
            let found = match row.id {
                Some(x) => x == id,
                None => false,
            };
            if found {
                let v = row.copy();
                assert(self@[i as int] == v.record());
                return Ok(v);
            }
            i = i + 1;
        }
        Err(PerseError::new(ErrorTypes::NotFound, "Failed to retrieve View by ID"))
    }

    /// The view whose identifier is written in `id`; an `InternalError`
    /// when the text is no identifier.
    pub fn get_by_id(&self, id: &str) -> (r: Result<PerseView, PerseError>)
        ensures
            match parsed_uuid(id@) {
                None => r matches Err(e) && e.error_type == ErrorTypes::InternalError,
                Some(u) => match r {
                    Ok(v) => exists|i: int|
                        0 <= i < self@.len() && self@[i] == v.record() && v.record().id == Some(u),
                    Err(e) => e.error_type == ErrorTypes::NotFound && !exists|i: int|
                        0 <= i < self@.len() && self@[i].id == Some(u),
                },
            },
    {
        match parse_uuid(id) {
            Some(u) => self.get_by_uuid(u),
            None => Err(PerseError::new(ErrorTypes::InternalError, "Failed to parse the ID as a UUID")),
        }
    }
}

} // verus!
