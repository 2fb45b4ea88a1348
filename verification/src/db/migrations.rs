//! The migration ledger: which schema changes the store has seen.

use super::types::{AppliedMigration, AppliedMigrationView, Store, StoreView};
use vstd::prelude::*;

verus! {

/// A schema change, known by its version.
#[derive(Debug)]
pub struct Migration {
    pub version: i64,
    pub name: &'static str,
}

/// The value of a [`Migration`].
pub struct MigrationView {
    pub version: int,
    pub name: Seq<char>,
}

impl View for Migration {
    type V = MigrationView;

    open spec fn view(&self) -> MigrationView {
        MigrationView { version: self.version as int, name: self.name@ }
    }
}

impl DeepView for Migration {
    type V = MigrationView;

    open spec fn deep_view(&self) -> MigrationView {
        self@
    }
}

/// The migrations that this version of the store knows, in version order.
pub open spec fn known_migrations() -> Seq<MigrationView> {
    seq![
        MigrationView { version: 1, name: "0001_init"@ },
        MigrationView { version: 2, name: "0002_environment_failed_status"@ },
        MigrationView { version: 3, name: "0003_task_environment_not_null"@ },
        MigrationView { version: 4, name: "0004_jobs_queue_metadata"@ },
    ]
}

/// Builds [`known_migrations`].
pub fn migrations() -> (r: Vec<Migration>)
    ensures
        r.deep_view() == known_migrations(),
{
    let mut r: Vec<Migration> = Vec::new();
    r.push(Migration { version: 1, name: "0001_init" });
    r.push(Migration { version: 2, name: "0002_environment_failed_status" });
    r.push(Migration { version: 3, name: "0003_task_environment_not_null" });
    r.push(Migration { version: 4, name: "0004_jobs_queue_metadata" });
    assert(r.deep_view() =~= known_migrations());
    r
}

/// The highest version among the first `n` ledger rows; 0 for none.
pub open spec fn version_upto(ledger: Seq<AppliedMigrationView>, n: int) -> int
    decreases n,
{
    if n <= 0 {
        0
    } else {
        let rest = version_upto(ledger, n - 1);
        if ledger[n - 1].version > rest {
            ledger[n - 1].version
        } else {
            rest
        }
    }
}

/// The highest version in the ledger; 0 for an empty ledger.
pub open spec fn current_version(ledger: Seq<AppliedMigrationView>) -> int {
    version_upto(ledger, ledger.len() as int)
}

/// The ledger rows for those of the first `n` known migrations that are
/// newer than `current`, applied at `now`.
pub open spec fn applied_upto(known: Seq<MigrationView>, current: int, now: int, n: int) -> Seq<
    AppliedMigrationView,
>
    decreases n,
{
    if n <= 0 {
        Seq::empty()
    } else {
        let rest = applied_upto(known, current, now, n - 1);
        if known[n - 1].version > current {
            rest.push(
                AppliedMigrationView { version: known[n - 1].version, name: known[n - 1].name, applied_at: now },
            )
        } else {
            rest
        }
    }
}

/// The ledger after the pending ones of the known migrations have been
/// applied at `now`.
pub open spec fn migrated(ledger: Seq<AppliedMigrationView>, known: Seq<MigrationView>, now: int) -> Seq<
    AppliedMigrationView,
> {
    ledger + applied_upto(known, current_version(ledger), now, known.len() as int)
}

/// The highest version is at least the version of every row.
proof fn lemma_version_bounds(ledger: Seq<AppliedMigrationView>, n: int, j: int)
    requires
        0 <= j < n <= ledger.len(),
    ensures
        version_upto(ledger, n) >= ledger[j].version,
        version_upto(ledger, n) >= 0,
    decreases n,
{
    if j < n - 1 {
        lemma_version_bounds(ledger, n - 1, j);
    } else if n > 1 {
        lemma_version_bounds(ledger, n - 1, 0);
    }
}

/// The highest version among the first rows depends on those rows alone,
/// and more rows never lower it.
proof fn lemma_version_grows(ledger: Seq<AppliedMigrationView>, longer: Seq<AppliedMigrationView>, m: int, n: int)
    requires
        0 <= m <= n <= longer.len(),
        m <= ledger.len(),
        forall|i: int| 0 <= i < m ==> ledger[i] == longer[i],
    ensures
        version_upto(longer, n) >= version_upto(ledger, m),
    decreases n,
{
    if n > m {
        lemma_version_grows(ledger, longer, m, n - 1);
    } else if m > 0 {
        lemma_version_grows(ledger, longer, m - 1, m - 1);
    }
}

/// Every known migration that is newer than `current` gets a ledger row.
proof fn lemma_applied_holds(known: Seq<MigrationView>, current: int, now: int, n: int, i: int)
    requires
        0 <= i < n <= known.len(),
        known[i].version > current,
    ensures
        exists|k: int|
            0 <= k < applied_upto(known, current, now, n).len() && (#[trigger] applied_upto(
                known,
                current,
                now,
                n,
            )[k]).version == known[i].version,
    decreases n,
{
    let rows = applied_upto(known, current, now, n);
    if i == n - 1 {
        assert(rows[rows.len() - 1].version == known[i].version);
    } else {
        lemma_applied_holds(known, current, now, n - 1, i);
        let before = applied_upto(known, current, now, n - 1);
        let k = choose|k: int| 0 <= k < before.len() && (#[trigger] before[k]).version == known[i].version;
        assert(rows[k].version == known[i].version);
    }
}

/// Where no known migration is newer than `current`, nothing is applied.
proof fn lemma_nothing_pending(known: Seq<MigrationView>, current: int, now: int, n: int)
    requires
        0 <= n <= known.len(),
        forall|i: int| 0 <= i < n ==> (#[trigger] known[i]).version <= current,
    ensures
        applied_upto(known, current, now, n) =~= Seq::empty(),
    decreases n,
{
    if n > 0 {
        lemma_nothing_pending(known, current, now, n - 1);
    }
}

/// Each migration is applied exactly once: after the pending migrations
/// have been applied, applying them again changes nothing.
pub proof fn lemma_migrate_once(ledger: Seq<AppliedMigrationView>, known: Seq<MigrationView>, now: int, later: int)
    ensures
        migrated(migrated(ledger, known, now), known, later) == migrated(ledger, known, now),
{
    let current = current_version(ledger);
    let applied = applied_upto(known, current, now, known.len() as int);
    let after = ledger + applied;
    let reached = current_version(after);
    lemma_version_grows(ledger, after, ledger.len() as int, after.len() as int);
    assert forall|i: int| 0 <= i < known.len() implies (#[trigger] known[i]).version <= reached by {
        if known[i].version > current {
            lemma_applied_holds(known, current, now, known.len() as int, i);
            let k = choose|k: int| 0 <= k < applied.len() && (#[trigger] applied[k]).version == known[i].version;
            assert(after[ledger.len() + k] == applied[k]);
            lemma_version_bounds(after, after.len() as int, ledger.len() + k);
        }
    }
    lemma_nothing_pending(known, reached, later, known.len() as int);
    assert(after + Seq::<AppliedMigrationView>::empty() =~= after);
}

/// Finds [`current_version`].
pub fn ledger_version(ledger: &Vec<AppliedMigration>) -> (v: i64)
    ensures
        v == current_version(ledger.deep_view()),
{
    let mut v: i64 = 0;
    let mut i: usize = 0;
    while i < ledger.len()
        invariant
            i <= ledger.len(),
            v == version_upto(ledger.deep_view(), i as int),
        decreases ledger.len() - i,
    {
        assert(ledger.deep_view()[i as int] == ledger@[i as int]@);
        if ledger[i].version > v {
            v = ledger[i].version;
        }
        i += 1;
    }
    v
}

/// Applies the pending migrations: each of `known` that is newer than the
/// highest version in the ledger gets a ledger row, in the order given.
/// Returns how many were applied.
pub fn run(store: &mut Store, known: &Vec<Migration>, now: i64) -> (applied: usize)
    ensures
        final(store)@ == (StoreView {
            migrations: migrated(old(store)@.migrations, known.deep_view(), now as int),
            ..old(store)@
        }),
        applied == final(store)@.migrations.len() - old(store)@.migrations.len(),
        old(store)@.wf() ==> final(store)@.wf(),
{
    let current = ledger_version(&store.migrations);
    let ghost before = store.migrations.deep_view();
    let mut applied: usize = 0;
    let mut i: usize = 0;
    while i < known.len()
        invariant
            i <= known.len(),
            applied <= i,
            before == old(store)@.migrations,
            current == current_version(before),
            store.migrations.deep_view() == before + applied_upto(
                known.deep_view(),
                current as int,
                now as int,
                i as int,
            ),
            store.migrations.deep_view().len() == before.len() + applied,
            store.projects == old(store).projects,
            store.environments == old(store).environments,
            store.tasks == old(store).tasks,
            store.jobs == old(store).jobs,
        decreases known.len() - i,
    {
        assert(known.deep_view()[i as int] == known@[i as int]@);
        if known[i].version > current {
            let ghost ledger = store.migrations.deep_view();
            let row = AppliedMigration {
                version: known[i].version,
                name: String::from_str(known[i].name),
                applied_at: now,
            };
            let ghost view = row@;
            store.migrations.push(row);
            assert(store.migrations.deep_view() =~= ledger.push(view));
            assert(ledger.push(view) =~= before + applied_upto(
                known.deep_view(),
                current as int,
                now as int,
                i as int + 1,
            ));
            applied += 1;
        }
        i += 1;
    }
    applied
}

/// A fresh store: no rows, and every known migration applied at `now`.
pub fn initialize(now: i64) -> (store: Store)
    ensures
        store@.projects.len() == 0,
        store@.environments.len() == 0,
        store@.tasks.len() == 0,
        store@.jobs.len() == 0,
        store@.migrations == migrated(Seq::empty(), known_migrations(), now as int),
        store@.wf(),
{
    let mut store = Store {
        projects: Vec::new(),
        environments: Vec::new(),
        tasks: Vec::new(),
        jobs: Vec::new(),
        migrations: Vec::new(),
    };
    assert(store@.migrations =~= Seq::empty());
    let known = migrations();
    run(&mut store, &known, now);
    store
}

} // verus!
