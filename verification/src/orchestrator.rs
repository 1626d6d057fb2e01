//! Ordered, idempotent application of a migration catalog against a
//! persistent ledger.
//!
//! The catalog is the ordered sequence of migration identifiers known to
//! the build; the ledger mirrors the rows of the database table that
//! records which migrations have been applied. The orchestrator walks the
//! catalog in order, skips identifiers already in the ledger, and hands
//! out one unapplied identifier at a time. The caller executes that
//! migration's body together with its ledger insert as one atomic unit
//! and reports the commit back, so the ledger never holds a row for a
//! migration whose body did not commit.

use vstd::prelude::*;
use vstd::string::StringExecFns;

verus! {

/// Identifiers strictly ascend: the catalog is ordered and duplicate-free.
pub open spec fn strictly_increasing(s: Seq<u64>) -> bool {
    forall|i: int, j: int| 0 <= i < j < s.len() ==> s[i] < s[j]
}

/// The identifiers of `catalog` not yet recorded in `ledger`, in catalog
/// order: exactly what a run starting from that state would apply.
pub open spec fn pending(catalog: Seq<u64>, ledger: Seq<u64>) -> Seq<u64>
    decreases catalog.len(),
{
    if catalog.len() == 0 {
        Seq::empty()
    } else if ledger.contains(catalog[0]) {
        pending(catalog.drop_first(), ledger)
    } else {
        seq![catalog[0]] + pending(catalog.drop_first(), ledger)
    }
}

/// Every identifier of the catalog stands in the ledger.
pub open spec fn fully_applied(catalog: Seq<u64>, ledger: Seq<u64>) -> bool {
    forall|i: int| 0 <= i < catalog.len() ==> ledger.contains(#[trigger] catalog[i])
}

/// Dropping the head of the catalog keeps it fully applied, and a fully
/// applied tail together with an applied head makes the whole catalog
/// fully applied.
proof fn lemma_fully_applied_tail(catalog: Seq<u64>, ledger: Seq<u64>)
    requires
        catalog.len() > 0,
    ensures
        fully_applied(catalog, ledger) <==> (ledger.contains(catalog[0]) && fully_applied(
            catalog.drop_first(),
            ledger,
        )),
{
    if fully_applied(catalog, ledger) {
        assert forall|i: int| 0 <= i < catalog.drop_first().len() implies ledger.contains(
            #[trigger] catalog.drop_first()[i],
        ) by {
            assert(catalog.drop_first()[i] == catalog[i + 1]);
        }
    }
    if ledger.contains(catalog[0]) && fully_applied(catalog.drop_first(), ledger) {
        assert forall|i: int| 0 <= i < catalog.len() implies ledger.contains(
            #[trigger] catalog[i],
        ) by {
            if i > 0 {
                assert(catalog.drop_first()[i - 1] == catalog[i]);
            }
        }
    }
}

/// Idempotence: a run has nothing left to apply exactly when every
/// catalog identifier already stands in the ledger. In particular, a
/// completed run leaves a ledger against which any further run over the
/// same catalog applies zero migrations.
pub proof fn lemma_pending_empty_iff_fully_applied(catalog: Seq<u64>, ledger: Seq<u64>)
    ensures
        pending(catalog, ledger).len() == 0 <==> fully_applied(catalog, ledger),
    decreases catalog.len(),
{
    if catalog.len() > 0 {
        lemma_fully_applied_tail(catalog, ledger);
        lemma_pending_empty_iff_fully_applied(catalog.drop_first(), ledger);
    }
}

/// Idempotence across consecutive runs: a run that walked its whole
/// catalog leaves a ledger against which a fresh run over the same
/// catalog has nothing pending, so it records no further rows — and so
/// on for every later run, since a run with nothing pending never
/// touches the ledger.
pub proof fn lemma_rerun_applies_nothing(first: &Orchestrator, second: &Orchestrator)
    requires
        first.well_formed(),
        first.cursor == first.catalog@.len(),
        second.catalog@ == first.catalog@,
        second.ledger@ == first.ledger@,
    ensures
        pending(second.catalog@, second.ledger@).len() == 0,
{
    assert(fully_applied(first.catalog@, first.ledger@));
    lemma_pending_empty_iff_fully_applied(second.catalog@, second.ledger@);
}

/// Order preservation: a run never writes a ledger row out of catalog
/// order. At any point of a run — in particular right after a failure
/// stopped it — a catalog entry at or beyond the cursor has a ledger row
/// only if that row was already there when the run began.
pub proof fn lemma_no_row_at_or_beyond_cursor(o: &Orchestrator, j: int)
    requires
        o.well_formed(),
        o.cursor <= j < o.catalog@.len(),
        !o.initial@.contains(o.catalog@[j]),
    ensures
        !o.ledger@.contains(o.catalog@[j]),
{
    if o.ledger@.contains(o.catalog@[j]) {
        let i = choose|i: int| 0 <= i < o.cursor && o.catalog@[i] == o.catalog@[j];
        assert(o.catalog@[i] < o.catalog@[j]);
    }
}

/// A run that failed while applying one migration.
#[derive(Debug, PartialEq)]
pub enum MigrationError {
    /// The migration with this identifier could not be applied; its body
    /// and ledger insert were rolled back together. No later migration
    /// was attempted.
    ApplyFailed { id: u64, cause: String },
}

impl MigrationError {
    /// The identifier of the migration that failed.
    pub open spec fn spec_id(&self) -> u64 {
        match self {
            MigrationError::ApplyFailed { id, .. } => *id,
        }
    }

    /// The reported cause of the failure.
    pub open spec fn spec_cause(&self) -> Seq<char> {
        match self {
            MigrationError::ApplyFailed { cause, .. } => cause@,
        }
    }

    /// The identifier of the migration that failed.
    pub fn id(&self) -> (r: u64)
        ensures
            r == self.spec_id(),
    {
        match self {
            MigrationError::ApplyFailed { id, .. } => *id,
        }
    }

    /// The failure line, naming the failing migration's identifier and
    /// the cause.
    pub fn message(&self) -> (r: String)
        ensures
            r@ == "migration "@ + crate::text::decimal(self.spec_id() as int) + " failed: "@
                + self.spec_cause(),
    {
        match self {
            MigrationError::ApplyFailed { id, cause } => {
                let mut s = String::from_str("migration ");
                let rendered = crate::text::u64_to_string(*id);
                s.append(rendered.as_str());
                s.append(" failed: ");
                s.append(cause.as_str());
                proof {
                    assert(s@ =~= "migration "@ + crate::text::decimal(self.spec_id() as int)
                        + " failed: "@ + self.spec_cause());
                }
                s
            },
        }
    }
}

/// The statement that creates the ledger table. Creation is conditional
/// on the table's absence, so the bootstrap is safe to repeat on every
/// run.
pub fn ledger_create_statement() -> (r: &'static str)
    ensures
        r@ == "CREATE TABLE IF NOT EXISTS migration_ledger (id BIGINT PRIMARY KEY, applied_at TIMESTAMPTZ NOT NULL DEFAULT now())"@,
{
    "CREATE TABLE IF NOT EXISTS migration_ledger (id BIGINT PRIMARY KEY, applied_at TIMESTAMPTZ NOT NULL DEFAULT now())"
}

/// The query that reads the applied identifiers out of the ledger.
pub fn ledger_select_statement() -> (r: &'static str)
    ensures
        r@ == "SELECT id FROM migration_ledger ORDER BY id"@,
{
    "SELECT id FROM migration_ledger ORDER BY id"
}

/// The statement that records one applied migration, taking the
/// identifier as its single parameter. It runs in the same transaction
/// as the migration's body.
pub fn ledger_insert_statement() -> (r: &'static str)
    ensures
        r@ == "INSERT INTO migration_ledger (id) VALUES ($1)"@,
{
    "INSERT INTO migration_ledger (id) VALUES ($1)"
}

/// The statement that takes the session-level advisory lock held around
/// one whole migration run, so that at most one run mutates the ledger
/// at a time even when several processes race. The single fixed key
/// scopes the lock to this tool's ledger.
pub fn ledger_lock_statement() -> (r: &'static str)
    ensures
        r@ == "SELECT pg_advisory_lock(1)"@,
{
    "SELECT pg_advisory_lock(1)"
}

/// The statement that releases the advisory lock when the run exits.
pub fn ledger_unlock_statement() -> (r: &'static str)
    ensures
        r@ == "SELECT pg_advisory_unlock(1)"@,
{
    "SELECT pg_advisory_unlock(1)"
}

/// Linear search of a ledger mirror for one identifier.
pub fn ids_contain(ids: &Vec<u64>, id: u64) -> (r: bool)
    ensures
        r == ids@.contains(id),
{
    let mut i: usize = 0;
    while i < ids.len()
        invariant
            0 <= i <= ids@.len(),
            forall|j: int| 0 <= j < i ==> ids@[j] != id,
        decreases ids@.len() - i,
    {
        if ids[i] == id {
            proof {
                assert(ids@[i as int] == id);
            }
            return true;
        }
        i += 1;
    }
    false
}

/// Whether the identifiers ascend strictly, i.e. form a valid catalog.
pub fn check_strictly_increasing(ids: &Vec<u64>) -> (r: bool)
    ensures
        r == strictly_increasing(ids@),
{
    let mut i: usize = 1;
    while i < ids.len()
        invariant
            1 <= i <= ids@.len() || ids@.len() == 0,
            forall|p: int, q: int| 0 <= p < q < i ==> ids@[p] < ids@[q],
        decreases ids@.len() - i,
    {
        if ids[i - 1] >= ids[i] {
            proof {
                assert(!(ids@[i - 1] < ids@[i as int]));
            }
            return false;
        }
        i += 1;
    }
    true
}

/// The state of one migration run.
///
/// `cursor` is the catalog index under consideration: everything before
/// it is recorded in the ledger. `ledger` mirrors the database rows and
/// grows only through [`Orchestrator::record_applied`]; `initial` is the
/// ghost image of the ledger the run started from.
pub struct Orchestrator {
    pub catalog: Vec<u64>,
    pub ledger: Vec<u64>,
    pub cursor: usize,
    pub applied_count: usize,
    pub initial: Ghost<Seq<u64>>,
}

impl Orchestrator {
    /// The run's invariant. Beyond bookkeeping bounds it pins the ledger
    /// down exactly: a row exists for an identifier if and only if it was
    /// there at the start or it stands in the catalog before the cursor.
    /// In particular no row is ever written out of catalog order.
    pub open spec fn well_formed(&self) -> bool {
        &&& strictly_increasing(self.catalog@)
        &&& self.cursor <= self.catalog@.len()
        &&& self.applied_count <= self.cursor
        &&& forall|i: int| 0 <= i < self.cursor ==> self.ledger@.contains(#[trigger] self.catalog@[i])
        &&& forall|id: u64| #[trigger]
            self.ledger@.contains(id) <==> (self.initial@.contains(id) || exists|i: int|
                0 <= i < self.cursor && self.catalog@[i] == id)
    }

    /// Begin a run over `catalog` against the applied rows read from the
    /// ledger table.
    pub fn new(catalog: Vec<u64>, ledger: Vec<u64>) -> (r: Orchestrator)
        requires
            strictly_increasing(catalog@),
        ensures
            r.well_formed(),
            r.catalog@ == catalog@,
            r.ledger@ == ledger@,
            r.initial@ == ledger@,
            r.cursor == 0,
            r.applied_count == 0,
    {
        let ghost initial = ledger@;
        Orchestrator { catalog, ledger, cursor: 0, applied_count: 0, initial: Ghost(initial) }
    }

    /// Advance past already-applied identifiers and return the next
    /// migration to apply, or `None` once every catalog entry is recorded
    /// in the ledger. Touches nothing but the cursor.
    pub fn next_migration(&mut self) -> (r: Option<u64>)
        requires
            old(self).well_formed(),
        ensures
            final(self).well_formed(),
            final(self).catalog@ == old(self).catalog@,
            final(self).ledger@ == old(self).ledger@,
            final(self).initial@ == old(self).initial@,
            final(self).applied_count == old(self).applied_count,
            old(self).cursor <= final(self).cursor,
            match r {
                Option::None => {
                    &&& final(self).cursor == final(self).catalog@.len()
                    &&& fully_applied(final(self).catalog@, final(self).ledger@)
                },
                Option::Some(id) => {
                    &&& final(self).cursor < final(self).catalog@.len()
                    &&& id == final(self).catalog@[final(self).cursor as int]
                    &&& !final(self).ledger@.contains(id)
                },
            },
    {
        loop
            invariant
                self.well_formed(),
                self.catalog@ == old(self).catalog@,
                self.ledger@ == old(self).ledger@,
                self.initial@ == old(self).initial@,
                self.applied_count == old(self).applied_count,
                old(self).cursor <= self.cursor,
            decreases self.catalog@.len() - self.cursor,
        {
            if self.cursor == self.catalog.len() {
                return Option::None;
            }
            let id = self.catalog[self.cursor];
            if !ids_contain(&self.ledger, id) {
                return Option::Some(id);
            }
            proof {
                assert forall|x: u64| (self.initial@.contains(x) || exists|i: int|
                    0 <= i < self.cursor + 1 && self.catalog@[i] == x) implies self.ledger@.contains(
                    x,
                ) by {
                    if !self.initial@.contains(x) {
                        let i = choose|i: int|
                            0 <= i < self.cursor + 1 && self.catalog@[i] == x;
                        if i == self.cursor {
                            assert(x == id);
                        }
                    }
                }
            }
            self.cursor = self.cursor + 1;
        }
    }

    /// Record that the migration at the cursor was applied and its ledger
    /// row committed, as one atomic unit. The ledger grows by exactly
    /// that row and the run moves on to the next catalog entry.
    pub fn record_applied(&mut self)
        requires
            old(self).well_formed(),
            old(self).cursor < old(self).catalog@.len(),
            !old(self).ledger@.contains(old(self).catalog@[old(self).cursor as int]),
        ensures
            final(self).well_formed(),
            final(self).catalog@ == old(self).catalog@,
            final(self).initial@ == old(self).initial@,
            final(self).ledger@ == old(self).ledger@.push(
                old(self).catalog@[old(self).cursor as int],
            ),
            final(self).cursor == old(self).cursor + 1,
            final(self).applied_count == old(self).applied_count + 1,
    {
        proof {
            assert(self.catalog@.len() == self.catalog.len());
        }
        let id = self.catalog[self.cursor];
        self.ledger.push(id);
        self.cursor = self.cursor + 1;
        self.applied_count = self.applied_count + 1;
        proof {
            broadcast use vstd::seq_lib::lemma_seq_contains_after_push;

            assert(self.ledger@ == old(self).ledger@.push(id));
            assert forall|x: u64| #[trigger] self.ledger@.contains(x) implies (self.initial@.contains(
                x,
            ) || exists|i: int| 0 <= i < self.cursor && self.catalog@[i] == x) by {
                if x == id {
                    assert(0 <= old(self).cursor < self.cursor && self.catalog@[old(
                        self,
                    ).cursor as int] == x);
                } else {
                    assert(old(self).ledger@.contains(x));
                }
            }
            assert forall|x: u64| (self.initial@.contains(x) || exists|i: int|
                0 <= i < self.cursor && self.catalog@[i] == x) implies #[trigger] self.ledger@.contains(
                x,
            ) by {
                if !self.initial@.contains(x) {
                    let i = choose|i: int| 0 <= i < self.cursor && self.catalog@[i] == x;
                    if i == old(self).cursor {
                        assert(x == id);
                    } else {
                        assert(old(self).ledger@.contains(x));
                    }
                }
            }
            assert forall|i: int| 0 <= i < self.cursor implies self.ledger@.contains(
                #[trigger] self.catalog@[i],
            ) by {
                if i < old(self).cursor {
                    assert(old(self).ledger@.contains(self.catalog@[i]));
                }
            }
        }
    }
}

} // verus!
