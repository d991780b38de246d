use calibration_certs::schema::{
    column_names_query, migration_statements, migration_steps, schema_statements, MigrationStep,
};
use calibration_certs::statement::{Statement, StatementKind};
use rusqlite::Connection;

fn names(v: &[&str]) -> Vec<String> {
    v.iter().map(|s| s.to_string()).collect()
}

fn run(conn: &Connection, s: &Statement) {
    assert!(s.params.is_empty());
    conn.execute(s.kind.sql(), []).unwrap();
}

fn columns(conn: &Connection) -> Vec<String> {
    let q = column_names_query();
    let mut stmt = conn.prepare(q.kind.sql()).unwrap();
    let rows = stmt.query_map([], |r| r.get::<_, String>(0)).unwrap();
    rows.collect::<Result<Vec<_>, _>>().unwrap()
}

fn migrate(conn: &Connection) {
    let steps = migration_steps(&columns(conn));
    for s in migration_statements(&steps) {
        run(conn, &s);
    }
}

const CURRENT: [&str; 8] = [
    "id",
    "calibration_date",
    "certificate_number",
    "model_details",
    "company_name",
    "po_number",
    "customer",
    "created_at",
];

#[test]
fn legacy_table_without_customer_needs_both_steps() {
    let cols = names(&["id", "calibration_date", "certificate_number", "voltage", "current", "frequency", "power", "created_at"]);
    assert_eq!(migration_steps(&cols), vec![MigrationStep::AddCustomerColumn, MigrationStep::DropLegacyReadings]);
}

#[test]
fn current_table_needs_no_step() {
    assert!(migration_steps(&names(&CURRENT)).is_empty());
}

#[test]
fn missing_customer_alone_adds_it() {
    let cols = names(&["id", "calibration_date", "certificate_number", "model_details", "company_name", "po_number", "created_at"]);
    assert_eq!(migration_steps(&cols), vec![MigrationStep::AddCustomerColumn]);
}

#[test]
fn one_legacy_column_triggers_the_rebuild() {
    let mut cols = names(&CURRENT);
    cols.push("power".to_string());
    assert_eq!(migration_steps(&cols), vec![MigrationStep::DropLegacyReadings]);
}

#[test]
fn rebuild_runs_four_statements_after_the_added_column() {
    let steps = vec![MigrationStep::AddCustomerColumn, MigrationStep::DropLegacyReadings];
    let kinds: Vec<StatementKind> = migration_statements(&steps).iter().map(|s| s.kind).collect();
    assert_eq!(
        kinds,
        vec![
            StatementKind::AddCustomerColumn,
            StatementKind::CreateReplacement,
            StatementKind::CopyIntoReplacement,
            StatementKind::DropCalibrations,
            StatementKind::RenameReplacement
        ]
    );
}

#[test]
fn legacy_database_migrates_keeping_rows() {
    let conn = Connection::open_in_memory().unwrap();
    conn.execute(
        "CREATE TABLE calibrations (
            id INTEGER PRIMARY KEY,
            calibration_date TEXT NOT NULL,
            certificate_number TEXT NOT NULL UNIQUE,
            model_details TEXT NOT NULL,
            company_name TEXT NOT NULL,
            po_number TEXT NOT NULL,
            voltage REAL,
            current REAL,
            frequency REAL,
            power REAL,
            created_at TEXT NOT NULL
        )",
        [],
    )
    .unwrap();
    conn.execute(
        "INSERT INTO calibrations VALUES (1, '2023-01-01', 'L-1', 'Model A', 'Lab One', 'PO-1', 230.0, 1.0, 50.0, 230.0, '2023-01-01 08:00')",
        [],
    )
    .unwrap();
    conn.execute(
        "INSERT INTO calibrations VALUES (2, '2023-02-02', 'L-2', 'Model B', 'Lab Two', 'PO-2', 110.0, 2.0, 60.0, 220.0, '2023-02-02 08:00')",
        [],
    )
    .unwrap();
    migrate(&conn);
    assert_eq!(columns(&conn), names(&CURRENT));
    let rows: Vec<(i64, String, String, String, String, String, Option<String>, String)> = conn
        .prepare("SELECT id, calibration_date, certificate_number, model_details, company_name, po_number, customer, created_at FROM calibrations ORDER BY id")
        .unwrap()
        .query_map([], |r| Ok((r.get(0)?, r.get(1)?, r.get(2)?, r.get(3)?, r.get(4)?, r.get(5)?, r.get(6)?, r.get(7)?)))
        .unwrap()
        .collect::<Result<_, _>>()
        .unwrap();
    assert_eq!(rows.len(), 2);
    assert_eq!(rows[0], (1, "2023-01-01".to_string(), "L-1".to_string(), "Model A".to_string(), "Lab One".to_string(), "PO-1".to_string(), None, "2023-01-01 08:00".to_string()));
    assert_eq!(rows[1].2, "L-2");
    assert_eq!(rows[1].4, "Lab Two");
    assert_eq!(rows[1].7, "2023-02-02 08:00");
}

#[test]
fn migrating_twice_changes_nothing_more() {
    let conn = Connection::open_in_memory().unwrap();
    conn.execute(
        "CREATE TABLE calibrations (id INTEGER PRIMARY KEY, calibration_date TEXT NOT NULL, certificate_number TEXT NOT NULL UNIQUE, model_details TEXT NOT NULL, company_name TEXT NOT NULL, po_number TEXT NOT NULL, created_at TEXT NOT NULL)",
        [],
    )
    .unwrap();
    migrate(&conn);
    let after_first = columns(&conn);
    assert!(migration_steps(&after_first).is_empty());
    migrate(&conn);
    assert_eq!(columns(&conn), after_first);
}

#[test]
fn fresh_schema_is_current() {
    let conn = Connection::open_in_memory().unwrap();
    for s in schema_statements() {
        run(&conn, &s);
    }
    for s in schema_statements() {
        run(&conn, &s);
    }
    assert_eq!(columns(&conn), names(&CURRENT));
    assert!(migration_steps(&columns(&conn)).is_empty());
}
