//! The on-disk schema and its forward-only migrations.
//!
//! Migration is an ordered list of steps, each decided from the column
//! names that the calibrations table has when the store opens. A step that
//! is not needed is not planned, so migrating a current schema does nothing.
use vstd::prelude::*;
use crate::statement::{SqlValueView, Statement, StatementKind, StatementView, bare, statements_view};

verus! {

/// One migration of the calibrations table.
#[derive(Clone, Copy, Debug, PartialEq, Eq, Structural)]
pub enum MigrationStep {
    /// Adds the nullable `customer` column; no row changes.
    AddCustomerColumn,
    /// Rebuilds the table with the current columns only. The readings that
    /// an older layout stored on the calibration row itself are discarded:
    /// they are not moved into the measurements table.
    DropLegacyReadings,
}

/// The columns that the calibrations table has, in order, once migrated.
pub open spec fn current_columns() -> Seq<Seq<char>> {
    seq![
        "id"@,
        "calibration_date"@,
        "certificate_number"@,
        "model_details"@,
        "company_name"@,
        "po_number"@,
        "customer"@,
        "created_at"@,
    ]
}

/// Whether the columns hold a reading of the older single-measurement
/// layout.
pub open spec fn has_legacy_column(columns: Seq<Seq<char>>) -> bool {
    columns.contains("voltage"@) || columns.contains("current"@) || columns.contains("frequency"@)
        || columns.contains("power"@)
}

/// The steps that bring a calibrations table with these columns up to date,
/// in the order they run.
pub open spec fn migration_plan_of(columns: Seq<Seq<char>>) -> Seq<MigrationStep> {
    let add: Seq<MigrationStep> = if columns.contains("customer"@) {
        Seq::empty()
    } else {
        seq![MigrationStep::AddCustomerColumn]
    };
    let rebuild: Seq<MigrationStep> = if has_legacy_column(columns) {
        seq![MigrationStep::DropLegacyReadings]
    } else {
        Seq::empty()
    };
    add + rebuild
}

/// The statements that carry out one step, in order.
pub open spec fn step_statements_of(step: MigrationStep) -> Seq<StatementView> {
    match step {
        MigrationStep::AddCustomerColumn => seq![
            StatementView { kind: StatementKind::AddCustomerColumn, params: Seq::empty() },
        ],
        MigrationStep::DropLegacyReadings => seq![
            StatementView { kind: StatementKind::CreateReplacement, params: Seq::empty() },
            StatementView { kind: StatementKind::CopyIntoReplacement, params: Seq::empty() },
            StatementView { kind: StatementKind::DropCalibrations, params: Seq::empty() },
            StatementView { kind: StatementKind::RenameReplacement, params: Seq::empty() },
        ],
    }
}

/// The statements of all the steps, one step after the other.
pub open spec fn plan_statements_of(steps: Seq<MigrationStep>) -> Seq<StatementView>
    decreases steps.len(),
{
    if steps.len() == 0 {
        Seq::empty()
    } else {
        plan_statements_of(steps.drop_last()) + step_statements_of(steps.last())
    }
}

pub open spec fn texts_view(v: Seq<String>) -> Seq<Seq<char>> {
    v.map_values(|s: String| s@)
}

/// The statements that create both tables when they do not exist yet.
pub fn schema_statements() -> (r: Vec<Statement>)
    ensures
        statements_view(r@) == seq![
            StatementView { kind: StatementKind::CreateCalibrations, params: Seq::empty() },
            StatementView { kind: StatementKind::CreateMeasurements, params: Seq::empty() },
        ],
{
    let mut r: Vec<Statement> = Vec::new();
    r.push(bare(StatementKind::CreateCalibrations));
    r.push(bare(StatementKind::CreateMeasurements));
    assert(statements_view(r@) =~= seq![
        StatementView { kind: StatementKind::CreateCalibrations, params: Seq::empty() },
        StatementView { kind: StatementKind::CreateMeasurements, params: Seq::empty() },
    ]);
    r
}

/// The query whose rows are the calibrations table's column names.
pub fn column_names_query() -> (r: Statement)
    ensures
        r@ == (StatementView { kind: StatementKind::CalibrationColumns, params: Seq::empty() }),
{
    bare(StatementKind::CalibrationColumns)
}

fn contains_text(columns: &Vec<String>, name: &str) -> (r: bool)
    ensures
        r == texts_view(columns@).contains(name@),
{
    let target = String::from_str(name);
    let mut i: usize = 0;
    while i < columns.len()
        invariant
            i <= columns@.len(),
            target@ == name@,
            forall|j: int| 0 <= j < i ==> columns@[j]@ != name@,
        decreases columns@.len() - i,
    {
        if columns[i] == target {
            assert(texts_view(columns@)[i as int] == name@);
            return true;
        }
        i = i + 1;
    }
    proof {
        if texts_view(columns@).contains(name@) {
            let j = choose|j: int| 0 <= j < texts_view(columns@).len() && texts_view(columns@)[j] == name@;
            assert(columns@[j]@ == name@);
        }
    }
    false
}

/// The steps that bring a calibrations table with these column names up to
/// date, in the order they run.
pub fn migration_steps(columns: &Vec<String>) -> (r: Vec<MigrationStep>)
    ensures
        r@ == migration_plan_of(texts_view(columns@)),
{
    let ghost cols = texts_view(columns@);
    let mut r: Vec<MigrationStep> = Vec::new();
    if !contains_text(columns, "customer") {
        r.push(MigrationStep::AddCustomerColumn);
    }
    let legacy = contains_text(columns, "voltage") || contains_text(columns, "current")
        || contains_text(columns, "frequency") || contains_text(columns, "power");
    if legacy {
        r.push(MigrationStep::DropLegacyReadings);
    }
    assert(r@ =~= migration_plan_of(cols));
    r
}

/// The statements that carry out `steps`, one step after the other.
pub fn migration_statements(steps: &Vec<MigrationStep>) -> (r: Vec<Statement>)
    ensures
        statements_view(r@) == plan_statements_of(steps@),
{
    let mut r: Vec<Statement> = Vec::new();
    let mut i: usize = 0;
    while i < steps.len()
        invariant
            i <= steps@.len(),
            statements_view(r@) == plan_statements_of(steps@.take(i as int)),
        decreases steps@.len() - i,
    {
        let ghost before = statements_view(r@);
        match steps[i] {
            MigrationStep::AddCustomerColumn => {
                r.push(bare(StatementKind::AddCustomerColumn));
            },
            MigrationStep::DropLegacyReadings => {
                r.push(bare(StatementKind::CreateReplacement));
                r.push(bare(StatementKind::CopyIntoReplacement));
                r.push(bare(StatementKind::DropCalibrations));
                r.push(bare(StatementKind::RenameReplacement));
            },
        }
        proof {
            assert(steps@.take(i + 1).drop_last() =~= steps@.take(i as int));
            assert(steps@.take(i + 1).last() == steps@[i as int]);
            assert(statements_view(r@) =~= before + step_statements_of(steps@[i as int]));
        }
        i = i + 1;
    }
    assert(steps@.take(steps@.len() as int) =~= steps@);
    r
}

/// The calibrations table: its column names in order, and each row as the
/// values it holds by column name.
pub struct TableView {
    pub columns: Seq<Seq<char>>,
    pub rows: Seq<Map<Seq<char>, SqlValueView>>,
}

/// The value of column `c` in `row`; a column a row does not hold reads
/// as NULL.
pub open spec fn cell(row: Map<Seq<char>, SqlValueView>, c: Seq<char>) -> SqlValueView {
    if row.contains_key(c) {
        row[c]
    } else {
        SqlValueView::Null
    }
}

/// The table after `step` has run on it.
pub open spec fn apply_step(t: TableView, step: MigrationStep) -> TableView {
    match step {
        MigrationStep::AddCustomerColumn => TableView {
            columns: t.columns.push("customer"@),
            rows: t.rows.map_values(
                |r: Map<Seq<char>, SqlValueView>| r.insert("customer"@, SqlValueView::Null),
            ),
        },
        MigrationStep::DropLegacyReadings => TableView {
            columns: current_columns(),
            rows: t.rows.map_values(
                |r: Map<Seq<char>, SqlValueView>| r.restrict(current_columns().to_set()),
            ),
        },
    }
}

/// The table after all of `steps` have run on it, in order.
pub open spec fn apply_plan(t: TableView, steps: Seq<MigrationStep>) -> TableView
    decreases steps.len(),
{
    if steps.len() == 0 {
        t
    } else {
        apply_step(apply_plan(t, steps.drop_last()), steps.last())
    }
}

proof fn lemma_current_columns()
    ensures
        current_columns().contains("customer"@),
        !has_legacy_column(current_columns()),
{
    reveal_strlit("customer");
    reveal_strlit("voltage");
    reveal_strlit("current");
    reveal_strlit("frequency");
    reveal_strlit("power");
    reveal_strlit("id");
    reveal_strlit("calibration_date");
    reveal_strlit("certificate_number");
    reveal_strlit("model_details");
    reveal_strlit("company_name");
    reveal_strlit("po_number");
    reveal_strlit("created_at");
    let cc = current_columns();
    assert(cc[6] == "customer"@);
    assert forall|j: int| 0 <= j < cc.len() implies #[trigger] cc[j].len() != 7 && cc[j].len() != 5 && (
    cc[j].len() == 9 ==> cc[j][0] == 'p') by {
        if j == 0 {
        } else if j == 1 {
        } else if j == 2 {
        } else if j == 3 {
        } else if j == 4 {
        } else if j == 5 {
        } else if j == 6 {
        } else {
        }
    }
    assert("frequency"@[0] == 'f');
    assert("voltage"@.len() == 7);
    assert("current"@.len() == 7);
    assert("power"@.len() == 5);
    assert("frequency"@.len() == 9);
    assert(!current_columns().contains("voltage"@));
    assert(!current_columns().contains("current"@));
    assert(!current_columns().contains("frequency"@));
    assert(!current_columns().contains("power"@));
}

/// Migrating a table of the older single-measurement layout brings it to
/// the current layout and keeps every row's other values.
///
/// When the calibrations table has a legacy reading column and no
/// `customer` column, the planned steps leave a table whose columns are the
/// current ones: `customer` is present and no legacy reading column is.
/// Every row is still there, in order; each keeps its value in every
/// current column but `customer`, and its `customer` is NULL.
pub proof fn lemma_migration_upgrades_legacy_table(t: TableView)
    requires
        has_legacy_column(t.columns),
        !t.columns.contains("customer"@),
    ensures
        apply_plan(t, migration_plan_of(t.columns)).columns == current_columns(),
        apply_plan(t, migration_plan_of(t.columns)).columns.contains("customer"@),
        !has_legacy_column(apply_plan(t, migration_plan_of(t.columns)).columns),
        apply_plan(t, migration_plan_of(t.columns)).rows.len() == t.rows.len(),
        forall|i: int, c: Seq<char>|
            0 <= i < t.rows.len() && current_columns().contains(c) && c != "customer"@
                ==> #[trigger] cell(apply_plan(t, migration_plan_of(t.columns)).rows[i], c) == cell(
                t.rows[i],
                c,
            ),
        forall|i: int|
            0 <= i < t.rows.len() ==> cell(
                #[trigger] apply_plan(t, migration_plan_of(t.columns)).rows[i],
                "customer"@,
            ) == SqlValueView::Null,
{
    lemma_current_columns();
    let steps = migration_plan_of(t.columns);
    assert(steps =~= seq![MigrationStep::AddCustomerColumn, MigrationStep::DropLegacyReadings]);
    assert(steps.drop_last() =~= seq![MigrationStep::AddCustomerColumn]);
    assert(steps.drop_last().drop_last() =~= Seq::<MigrationStep>::empty());
    let t1 = apply_step(t, MigrationStep::AddCustomerColumn);
    assert(apply_plan(t, steps.drop_last().drop_last()) == t);
    assert(steps.drop_last().last() == MigrationStep::AddCustomerColumn);
    assert(apply_plan(t, steps.drop_last()) == t1);
    let t2 = apply_step(t1, MigrationStep::DropLegacyReadings);
    assert(apply_plan(t, steps) == t2);
    assert forall|i: int, c: Seq<char>|
        0 <= i < t.rows.len() && current_columns().contains(c) && c != "customer"@ implies #[trigger] cell(
            t2.rows[i],
            c,
        ) == cell(t.rows[i], c) by {
        assert(t1.rows[i] == t.rows[i].insert("customer"@, SqlValueView::Null));
        assert(current_columns().to_set().contains(c));
    }
    assert forall|i: int| 0 <= i < t.rows.len() implies cell(
        #[trigger] t2.rows[i],
        "customer"@,
    ) == SqlValueView::Null by {
        assert(current_columns().to_set().contains("customer"@));
    }
}

/// Migration is idempotent: once the planned steps have run, the plan for
/// the resulting table is empty, so migrating again changes nothing.
pub proof fn lemma_migration_idempotent(t: TableView)
    ensures
        migration_plan_of(apply_plan(t, migration_plan_of(t.columns)).columns)
            == Seq::<MigrationStep>::empty(),
{
    lemma_current_columns();
    let steps = migration_plan_of(t.columns);
    let u = apply_plan(t, steps);
    if has_legacy_column(t.columns) {
        assert(steps.last() == MigrationStep::DropLegacyReadings);
        assert(u.columns == current_columns());
    } else if !t.columns.contains("customer"@) {
        assert(steps =~= seq![MigrationStep::AddCustomerColumn]);
        assert(steps.drop_last() =~= Seq::<MigrationStep>::empty());
        assert(apply_plan(t, steps.drop_last()) == t);
        assert(u == apply_step(t, MigrationStep::AddCustomerColumn));
        assert(u.columns == t.columns.push("customer"@));
        assert(u.columns[t.columns.len() as int] == "customer"@);
        assert forall|n: Seq<char>| #[trigger] u.columns.contains(n) && n != "customer"@ implies t.columns.contains(n) by {
            let j = choose|j: int| 0 <= j < u.columns.len() && u.columns[j] == n;
            assert(t.columns[j] == n);
        }
        reveal_strlit("customer");
        reveal_strlit("voltage");
        reveal_strlit("current");
        reveal_strlit("frequency");
        reveal_strlit("power");
    } else {
        assert(steps =~= Seq::<MigrationStep>::empty());
    }
    assert(migration_plan_of(u.columns) =~= Seq::<MigrationStep>::empty());
}

} // verus!
