//! The statements that the library asks the store to run, as data.
use vstd::prelude::*;

verus! {

/// A value bound to a statement parameter or read from a column.
///
/// `Real` carries the bit pattern of a binary64 value, as `Measurement`
/// does; the shell binds it as a floating-point column value.
#[derive(Clone, Debug)]
pub enum SqlValue {
    Null,
    Integer(i64),
    Text(String),
    Real(u64),
}

pub enum SqlValueView {
    Null,
    Integer(i64),
    Text(Seq<char>),
    Real(u64),
}

impl View for SqlValue {
    type V = SqlValueView;

    open spec fn view(&self) -> SqlValueView {
        match self {
            SqlValue::Null => SqlValueView::Null,
            SqlValue::Integer(i) => SqlValueView::Integer(*i),
            SqlValue::Text(t) => SqlValueView::Text(t@),
            SqlValue::Real(b) => SqlValueView::Real(*b),
        }
    }
}

/// Every statement of the schema and of the record repository.
#[derive(Clone, Copy, Debug, PartialEq, Eq, Structural)]
pub enum StatementKind {
    CreateCalibrations,
    CreateMeasurements,
    CalibrationColumns,
    AddCustomerColumn,
    CreateReplacement,
    CopyIntoReplacement,
    DropCalibrations,
    RenameReplacement,
    InsertCalibration,
    FindCalibrationId,
    UpdateCalibration,
    DeleteMeasurements,
    InsertMeasurement,
    ListCalibrations,
    CalibrationByCertificate,
    MeasurementsOfCalibration,
}

impl StatementKind {
    /// The SQL text of the statement; parameters are positional.
    pub fn sql(self) -> &'static str {
        match self {
            StatementKind::CreateCalibrations => "CREATE TABLE IF NOT EXISTS calibrations (
                id INTEGER PRIMARY KEY,
                calibration_date TEXT NOT NULL,
                certificate_number TEXT NOT NULL UNIQUE,
                model_details TEXT NOT NULL,
                company_name TEXT NOT NULL,
                po_number TEXT NOT NULL,
                customer TEXT,
                created_at TEXT NOT NULL
            )",
            StatementKind::CreateMeasurements => "CREATE TABLE IF NOT EXISTS measurements (
                id INTEGER PRIMARY KEY,
                calibration_id INTEGER NOT NULL,
                name TEXT NOT NULL,
                voltage REAL NOT NULL,
                current REAL NOT NULL,
                frequency REAL NOT NULL,
                power REAL NOT NULL,
                FOREIGN KEY(calibration_id) REFERENCES calibrations(id)
            )",
            StatementKind::CalibrationColumns => "SELECT name FROM pragma_table_info('calibrations')",
            StatementKind::AddCustomerColumn => "ALTER TABLE calibrations ADD COLUMN customer TEXT",
            StatementKind::CreateReplacement => "CREATE TABLE calibrations_new (
                id INTEGER PRIMARY KEY,
                calibration_date TEXT NOT NULL,
                certificate_number TEXT NOT NULL UNIQUE,
                model_details TEXT NOT NULL,
                company_name TEXT NOT NULL,
                po_number TEXT NOT NULL,
                customer TEXT,
                created_at TEXT NOT NULL
            )",
            StatementKind::CopyIntoReplacement => "INSERT INTO calibrations_new
                SELECT id, calibration_date, certificate_number, model_details,
                       company_name, po_number, customer, created_at
                FROM calibrations",
            StatementKind::DropCalibrations => "DROP TABLE calibrations",
            StatementKind::RenameReplacement => "ALTER TABLE calibrations_new RENAME TO calibrations",
            StatementKind::InsertCalibration => "INSERT INTO calibrations (
                calibration_date, certificate_number, model_details,
                company_name, po_number, customer, created_at
            ) VALUES (?1, ?2, ?3, ?4, ?5, ?6, ?7)",
            StatementKind::FindCalibrationId => "SELECT id FROM calibrations WHERE certificate_number = ?1",
            StatementKind::UpdateCalibration => "UPDATE calibrations SET
                calibration_date = ?1,
                model_details = ?2,
                company_name = ?3,
                po_number = ?4,
                customer = ?5
            WHERE certificate_number = ?6",
            StatementKind::DeleteMeasurements => "DELETE FROM measurements WHERE calibration_id = ?1",
            StatementKind::InsertMeasurement => "INSERT INTO measurements (
                calibration_id, name, voltage, current, frequency, power
            ) VALUES (?1, ?2, ?3, ?4, ?5, ?6)",
            StatementKind::ListCalibrations => "SELECT id, calibration_date, certificate_number, model_details,
                    company_name, po_number, customer
             FROM calibrations
             ORDER BY created_at DESC",
            StatementKind::CalibrationByCertificate => "SELECT id, calibration_date, certificate_number, model_details,
                    company_name, po_number, customer
             FROM calibrations
             WHERE certificate_number = ?1",
            StatementKind::MeasurementsOfCalibration => "SELECT name, voltage, current, frequency, power
             FROM measurements
             WHERE calibration_id = ?1
             ORDER BY id",
        }
    }
}

/// A statement together with the values bound to its parameters, in order.
#[derive(Clone, Debug)]
pub struct Statement {
    pub kind: StatementKind,
    pub params: Vec<SqlValue>,
}

pub struct StatementView {
    pub kind: StatementKind,
    pub params: Seq<SqlValueView>,
}

pub open spec fn values_view(vs: Seq<SqlValue>) -> Seq<SqlValueView> {
    vs.map_values(|v: SqlValue| v@)
}

impl View for Statement {
    type V = StatementView;

    open spec fn view(&self) -> StatementView {
        StatementView { kind: self.kind, params: values_view(self.params@) }
    }
}

pub open spec fn statements_view(ss: Seq<Statement>) -> Seq<StatementView> {
    ss.map_values(|s: Statement| s@)
}

/// A statement that binds no parameter.
pub fn bare(kind: StatementKind) -> (r: Statement)
    ensures
        r@ == (StatementView { kind, params: Seq::empty() }),
{
    let r = Statement { kind, params: Vec::new() };
    assert(r@.params =~= Seq::empty());
    r
}

} // verus!
