use tokimo_app_helloworld::db::{
    create_schema_statement, database_url, init_pool, ledger_lookup_statement, ledger_record_statement,
    ledger_table_statement, migration_ids, pool_settings, run_migrations, schema_name,
    search_path_statement, DbConfigError, LedgerAction, LedgerEvent, MigrationRun,
};

#[test]
fn schema_defaults_to_helloworld() {
    assert_eq!(schema_name(None), "helloworld");
    assert_eq!(schema_name(Some("tenant_a".to_string())), "tenant_a");
}

#[test]
fn database_url_is_required() {
    match database_url(None) {
        Err(e) => {
            assert!(matches!(e, DbConfigError::MissingUrl));
            assert_eq!(e.message(), "DATABASE_URL is required");
        }
        Ok(_) => panic!("expected an error"),
    }
    assert_eq!(database_url(Some("postgres://db".to_string())).ok(), Some("postgres://db".to_string()));
}

#[test]
fn statements_quote_schema() {
    assert_eq!(search_path_statement("helloworld"), "SET search_path TO \"helloworld\", public");
    assert_eq!(create_schema_statement("helloworld"), "CREATE SCHEMA IF NOT EXISTS \"helloworld\"");
}

#[test]
fn pool_plan() {
    let p = pool_settings();
    assert_eq!((p.application_name.as_str(), p.max_connections, p.min_connections), ("tokimo-app-helloworld", 4, 1));
    let plan = init_pool(Some("postgres://x".to_string()), None).ok().expect("plan");
    assert_eq!(plan.url, "postgres://x");
    assert_eq!(plan.schema, "helloworld");
    assert_eq!(plan.search_path, "SET search_path TO \"helloworld\", public");
    let plan = init_pool(Some("postgres://x".to_string()), Some("s2".to_string())).ok().expect("plan");
    assert_eq!(plan.search_path, "SET search_path TO \"s2\", public");
    assert!(init_pool(None, Some("s".to_string())).is_err());
}

fn walk(recorded: &[bool]) -> (Vec<usize>, bool) {
    let (mut run, mut action): (MigrationRun, LedgerAction) = run_migrations(recorded.len());
    let mut applied = Vec::new();
    let mut prepared = 0;
    loop {
        action = match action {
            LedgerAction::CreateSchema => {
                assert_eq!(prepared, 0);
                prepared += 1;
                run.step(LedgerEvent::Prepared)
            }
            LedgerAction::CreateLedgerTable => {
                assert_eq!(prepared, 1);
                prepared += 1;
                run.step(LedgerEvent::Prepared)
            }
            LedgerAction::Check(i) => run.step(LedgerEvent::Recorded(recorded[i])),
            LedgerAction::Apply(i) => {
                applied.push(i);
                run.step(LedgerEvent::Applied)
            }
            LedgerAction::Finish => {
                assert_eq!(prepared, 2);
                return (applied, true);
            }
            LedgerAction::Abort => return (applied, false),
        };
    }
}

#[test]
fn walk_applies_only_unrecorded() {
    assert_eq!(walk(&[true, false, true, false]), (vec![1, 3], true));
    assert_eq!(walk(&[false]), (vec![0], true));
}

#[test]
fn walk_with_nothing_to_do() {
    assert_eq!(walk(&[]), (vec![], true));
    assert_eq!(walk(&[true, true, true]), (vec![], true));
}

#[test]
fn walk_stops_on_failure() {
    let (mut run, action) = run_migrations(2);
    assert!(matches!(action, LedgerAction::CreateSchema));
    assert!(matches!(run.step(LedgerEvent::Prepared), LedgerAction::CreateLedgerTable));
    assert!(matches!(run.step(LedgerEvent::Prepared), LedgerAction::Check(0)));
    assert!(matches!(run.step(LedgerEvent::Recorded(false)), LedgerAction::Apply(0)));
    assert!(matches!(run.step(LedgerEvent::Failed), LedgerAction::Abort));
}

#[test]
fn preparing_failure_stops_run() {
    let (mut run, _) = run_migrations(1);
    assert!(matches!(run.step(LedgerEvent::Failed), LedgerAction::Abort));
}

#[test]
fn second_run_applies_nothing() {
    let first = walk(&[false, true, false]);
    assert_eq!(first, (vec![0, 2], true));
    assert_eq!(walk(&[true, true, true]), (vec![], true));
}

#[test]
fn ledger_statements() {
    assert_eq!(
        ledger_table_statement(),
        "CREATE TABLE IF NOT EXISTS _migrations (\n            id          TEXT PRIMARY KEY,\n            applied_at  TIMESTAMPTZ NOT NULL DEFAULT NOW()\n        )"
    );
    assert_eq!(ledger_lookup_statement(), "SELECT EXISTS(SELECT 1 FROM _migrations WHERE id = $1)");
    assert_eq!(ledger_record_statement(), "INSERT INTO _migrations(id) VALUES ($1)");
    assert_eq!(migration_ids(), vec!["0001_init".to_string()]);
}
