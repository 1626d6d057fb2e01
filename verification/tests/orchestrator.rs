use technopolis::orchestrator::{
    check_strictly_increasing, ids_contain, ledger_create_statement, ledger_insert_statement,
    ledger_lock_statement, ledger_select_statement, ledger_unlock_statement, MigrationError,
    Orchestrator,
};

/// Drive one run to completion, applying every pending migration.
fn run_to_completion(orch: &mut Orchestrator) -> Vec<u64> {
    let mut applied = Vec::new();
    while let Some(id) = orch.next_migration() {
        applied.push(id);
        orch.record_applied();
    }
    applied
}

#[test]
fn first_run_applies_the_whole_catalog_in_order() {
    let mut orch = Orchestrator::new(vec![1, 2, 3], vec![]);
    let applied = run_to_completion(&mut orch);
    assert_eq!(applied, vec![1, 2, 3]);
    assert_eq!(orch.applied_count, 3);
    assert_eq!(orch.ledger, vec![1, 2, 3]);
}

#[test]
fn second_run_applies_nothing() {
    let catalog = vec![1, 2, 3];
    let mut first = Orchestrator::new(catalog.clone(), vec![]);
    run_to_completion(&mut first);

    let mut second = Orchestrator::new(catalog.clone(), first.ledger.clone());
    assert_eq!(second.next_migration(), None);
    assert_eq!(second.applied_count, 0);
    assert_eq!(second.ledger, vec![1, 2, 3]);

    let mut third = Orchestrator::new(catalog, second.ledger.clone());
    assert_eq!(third.next_migration(), None);
    assert_eq!(third.applied_count, 0);
}

#[test]
fn failure_keeps_ledger_rows_only_for_the_applied_prefix() {
    // Migration 2 is designed to fail: the run records 1, reaches 2, and
    // stops without recording 2 or 3.
    let mut orch = Orchestrator::new(vec![1, 2, 3], vec![]);

    let first = orch.next_migration();
    assert_eq!(first, Some(1));
    orch.record_applied();

    let second = orch.next_migration();
    assert_eq!(second, Some(2));
    // The body of migration 2 fails; nothing is recorded and the run stops.
    let err = MigrationError::ApplyFailed {
        id: second.unwrap(),
        cause: String::from("relation already exists"),
    };

    assert_eq!(orch.ledger, vec![1]);
    assert_eq!(orch.applied_count, 1);
    assert_eq!(err.id(), 2);
    assert_eq!(err.message(), "migration 2 failed: relation already exists");
}

#[test]
fn already_applied_entries_are_skipped_in_order() {
    let mut orch = Orchestrator::new(vec![1, 2, 3], vec![2]);
    assert_eq!(orch.next_migration(), Some(1));
    orch.record_applied();
    assert_eq!(orch.next_migration(), Some(3));
    orch.record_applied();
    assert_eq!(orch.next_migration(), None);
    assert_eq!(orch.applied_count, 2);
    assert!(ids_contain(&orch.ledger, 1));
    assert!(ids_contain(&orch.ledger, 2));
    assert!(ids_contain(&orch.ledger, 3));
}

#[test]
fn empty_catalog_run_is_complete_at_once() {
    let mut orch = Orchestrator::new(vec![], vec![7]);
    assert_eq!(orch.next_migration(), None);
    assert_eq!(orch.applied_count, 0);
    assert_eq!(orch.ledger, vec![7]);
}

#[test]
fn catalog_order_is_validated() {
    assert!(check_strictly_increasing(&vec![]));
    assert!(check_strictly_increasing(&vec![5]));
    assert!(check_strictly_increasing(&vec![1, 2, 3]));
    assert!(!check_strictly_increasing(&vec![1, 2, 2]));
    assert!(!check_strictly_increasing(&vec![3, 1, 2]));
}

#[test]
fn ledger_lookup_finds_only_recorded_ids() {
    let ledger = vec![1, 3];
    assert!(ids_contain(&ledger, 1));
    assert!(!ids_contain(&ledger, 2));
    assert!(ids_contain(&ledger, 3));
    assert!(!ids_contain(&vec![], 1));
}

#[test]
fn ledger_statements_bootstrap_read_and_insert() {
    assert!(ledger_create_statement().starts_with("CREATE TABLE IF NOT EXISTS"));
    assert_eq!(
        ledger_create_statement(),
        "CREATE TABLE IF NOT EXISTS migration_ledger (id BIGINT PRIMARY KEY, applied_at TIMESTAMPTZ NOT NULL DEFAULT now())"
    );
    assert_eq!(
        ledger_select_statement(),
        "SELECT id FROM migration_ledger ORDER BY id"
    );
    assert_eq!(
        ledger_insert_statement(),
        "INSERT INTO migration_ledger (id) VALUES ($1)"
    );
}

#[test]
fn lock_statements_pair_on_one_key() {
    assert_eq!(ledger_lock_statement(), "SELECT pg_advisory_lock(1)");
    assert_eq!(ledger_unlock_statement(), "SELECT pg_advisory_unlock(1)");
}

#[test]
fn identifiers_render_in_decimal() {
    assert_eq!(technopolis::text::u64_to_string(0), "0");
    assert_eq!(technopolis::text::u64_to_string(7), "7");
    assert_eq!(technopolis::text::u64_to_string(42), "42");
    assert_eq!(technopolis::text::u64_to_string(1234567890), "1234567890");
    assert_eq!(
        technopolis::text::u64_to_string(u64::MAX),
        "18446744073709551615"
    );
}
