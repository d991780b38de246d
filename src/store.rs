//! The record repository: which statements each operation runs, and how
//! the rows and failures that come back become records and errors.
//!
//! The shell runs the statements of one operation inside one transaction
//! on the single store connection, and commits only when all of them
//! succeeded.
use vstd::prelude::*;
use crate::model::{
    CalibrationData, CalibrationError, CalibrationView, Measurement, MeasurementView,
    measurements_view, opt_text_view,
};
use crate::statement::{
    SqlValue, SqlValueView, Statement, StatementKind, StatementView, bare, statements_view,
};

verus! {

/// SQLite's extended result code for a violated UNIQUE constraint.
pub const SQLITE_CONSTRAINT_UNIQUE: i32 = 2067;

/// A calibration row, as the shell reads it with `CalibrationByCertificate`
/// or `ListCalibrations`.
#[derive(Clone, Debug)]
pub struct CalibrationRow {
    pub id: i64,
    pub calibration_date: String,
    pub certificate_number: String,
    pub model_details: String,
    pub company_name: String,
    pub po_number: String,
    pub customer: Option<String>,
}

pub struct CalibrationRowView {
    pub id: i64,
    pub calibration_date: Seq<char>,
    pub certificate_number: Seq<char>,
    pub model_details: Seq<char>,
    pub company_name: Seq<char>,
    pub po_number: Seq<char>,
    pub customer: Option<Seq<char>>,
}

impl View for CalibrationRow {
    type V = CalibrationRowView;

    open spec fn view(&self) -> CalibrationRowView {
        CalibrationRowView {
            id: self.id,
            calibration_date: self.calibration_date@,
            certificate_number: self.certificate_number@,
            model_details: self.model_details@,
            company_name: self.company_name@,
            po_number: self.po_number@,
            customer: opt_text_view(self.customer),
        }
    }
}

/// What the shell reports of a statement that failed: SQLite's extended
/// result code when SQLite itself refused it, and the message.
#[derive(Clone, Debug)]
pub struct SqlFailure {
    pub extended_code: Option<i32>,
    pub message: String,
}

pub open spec fn opt_text_value(c: Option<Seq<char>>) -> SqlValueView {
    match c {
        Some(t) => SqlValueView::Text(t),
        None => SqlValueView::Null,
    }
}

/// The insert of the calibration row of `d`, stamped `created_at`.
pub open spec fn insert_calibration_of(d: CalibrationView, created_at: Seq<char>) -> StatementView {
    StatementView {
        kind: StatementKind::InsertCalibration,
        params: seq![
            SqlValueView::Text(d.calibration_date),
            SqlValueView::Text(d.certificate_number),
            SqlValueView::Text(d.model_details),
            SqlValueView::Text(d.company_name),
            SqlValueView::Text(d.po_number),
            opt_text_value(d.customer),
            SqlValueView::Text(created_at),
        ],
    }
}

/// The insert of `m` as a measurement of calibration `id`.
pub open spec fn insert_measurement_of(id: i64, m: MeasurementView) -> StatementView {
    StatementView {
        kind: StatementKind::InsertMeasurement,
        params: seq![
            SqlValueView::Integer(id),
            SqlValueView::Text(m.name),
            SqlValueView::Real(m.voltage),
            SqlValueView::Real(m.current),
            SqlValueView::Real(m.frequency),
            SqlValueView::Real(m.power),
        ],
    }
}

/// One insert per measurement, in the order given.
pub open spec fn insert_measurements_of(id: i64, ms: Seq<MeasurementView>) -> Seq<StatementView> {
    Seq::new(ms.len(), |i: int| insert_measurement_of(id, ms[i]))
}

/// The update of the header fields of the record with `d`'s certificate
/// number; the certificate number itself is only the key.
pub open spec fn update_calibration_of(d: CalibrationView) -> StatementView {
    StatementView {
        kind: StatementKind::UpdateCalibration,
        params: seq![
            SqlValueView::Text(d.calibration_date),
            SqlValueView::Text(d.model_details),
            SqlValueView::Text(d.company_name),
            SqlValueView::Text(d.po_number),
            opt_text_value(d.customer),
            SqlValueView::Text(d.certificate_number),
        ],
    }
}

pub open spec fn delete_measurements_of(id: i64) -> StatementView {
    StatementView {
        kind: StatementKind::DeleteMeasurements,
        params: seq![SqlValueView::Integer(id)],
    }
}

/// The statements of an update of calibration `id` to `d`: the header,
/// then every old measurement removed, then the new ones inserted.
pub open spec fn update_statements_of(id: i64, d: CalibrationView) -> Seq<StatementView> {
    seq![update_calibration_of(d), delete_measurements_of(id)] + insert_measurements_of(
        id,
        d.measurements,
    )
}

/// The record that a calibration row and its measurements make up.
pub open spec fn record_of_row(row: CalibrationRowView, ms: Seq<MeasurementView>) -> CalibrationView {
    CalibrationView {
        measurements: ms,
        calibration_date: row.calibration_date,
        certificate_number: row.certificate_number,
        model_details: row.model_details,
        company_name: row.company_name,
        po_number: row.po_number,
        customer: row.customer,
    }
}

fn text_value(s: &String) -> (r: SqlValue)
    ensures
        r@ == SqlValueView::Text(s@),
{
    SqlValue::Text(s.clone())
}

fn optional_text_value(s: &Option<String>) -> (r: SqlValue)
    ensures
        r@ == opt_text_value(opt_text_view(*s)),
{
    match s {
        Some(t) => SqlValue::Text(t.clone()),
        None => SqlValue::Null,
    }
}

/// Relies on chrono's `Local::now` and its `Display`: the current local
/// date and time as text. Nothing is known of the value.
#[verifier::external_body]
fn local_timestamp() -> (r: String) {
    chrono::Local::now().to_string()
}

/// The insert of the calibration row of `data`, stamped `created_at`.
pub fn calibration_insert(data: &CalibrationData, created_at: &String) -> (r: Statement)
    ensures
        r@ == insert_calibration_of(data@, created_at@),
{
    let mut params: Vec<SqlValue> = Vec::new();
    params.push(text_value(&data.calibration_date));
    params.push(text_value(&data.certificate_number));
    params.push(text_value(&data.model_details));
    params.push(text_value(&data.company_name));
    params.push(text_value(&data.po_number));
    params.push(optional_text_value(&data.customer));
    params.push(text_value(created_at));
    let r = Statement { kind: StatementKind::InsertCalibration, params };
    assert(r@.params =~= insert_calibration_of(data@, created_at@).params);
    r
}

/// The insert of the calibration row of `data`, stamped with the current
/// local time.
pub fn calibration_insert_now(data: &CalibrationData) -> (r: Statement)
    ensures
        exists|t: Seq<char>| r@ == insert_calibration_of(data@, t),
{
    let now = local_timestamp();
    calibration_insert(data, &now)
}

/// The insert of `m` as a measurement of calibration `id`.
pub fn measurement_insert(id: i64, m: &Measurement) -> (r: Statement)
    ensures
        r@ == insert_measurement_of(id, m@),
{
    let mut params: Vec<SqlValue> = Vec::new();
    params.push(SqlValue::Integer(id));
    params.push(text_value(&m.name));
    params.push(SqlValue::Real(m.voltage));
    params.push(SqlValue::Real(m.current));
    params.push(SqlValue::Real(m.frequency));
    params.push(SqlValue::Real(m.power));
    let r = Statement { kind: StatementKind::InsertMeasurement, params };
    assert(r@.params =~= insert_measurement_of(id, m@).params);
    r
}

/// The inserts of all of `ms` as measurements of calibration `id`, in order.
pub fn measurement_inserts(id: i64, ms: &Vec<Measurement>) -> (r: Vec<Statement>)
    ensures
        statements_view(r@) == insert_measurements_of(id, measurements_view(ms@)),
{
    let mut r: Vec<Statement> = Vec::new();
    let mut i: usize = 0;
    while i < ms.len()
        invariant
            i <= ms@.len(),
            statements_view(r@) == insert_measurements_of(id, measurements_view(ms@.take(i as int))),
        decreases ms@.len() - i,
    {
        let ghost before = r@;
        let s = measurement_insert(id, &ms[i]);
        r.push(s);
        proof {
            assert(statements_view(r@) =~= statements_view(before).push(s@));
            assert(insert_measurements_of(id, measurements_view(ms@.take(i + 1))) =~= insert_measurements_of(
                id,
                measurements_view(ms@.take(i as int)),
            ).push(insert_measurement_of(id, ms@[i as int]@)));
        }
        i = i + 1;
    }
    assert(ms@.take(ms@.len() as int) == ms@);
    r
}

/// The lookup of a calibration's id by its certificate number.
pub fn find_calibration_id(certificate_number: &String) -> (r: Statement)
    ensures
        r@ == (StatementView {
            kind: StatementKind::FindCalibrationId,
            params: seq![SqlValueView::Text(certificate_number@)],
        }),
{
    let mut params: Vec<SqlValue> = Vec::new();
    params.push(text_value(certificate_number));
    let r = Statement { kind: StatementKind::FindCalibrationId, params };
    assert(r@.params =~= seq![SqlValueView::Text(certificate_number@)]);
    r
}

/// The lookup of a calibration row by its certificate number.
pub fn calibration_by_certificate(certificate_number: &String) -> (r: Statement)
    ensures
        r@ == (StatementView {
            kind: StatementKind::CalibrationByCertificate,
            params: seq![SqlValueView::Text(certificate_number@)],
        }),
{
    let mut params: Vec<SqlValue> = Vec::new();
    params.push(text_value(certificate_number));
    let r = Statement { kind: StatementKind::CalibrationByCertificate, params };
    assert(r@.params =~= seq![SqlValueView::Text(certificate_number@)]);
    r
}

/// The measurements of calibration `id`, in the order they were stored.
pub fn measurements_of_calibration(id: i64) -> (r: Statement)
    ensures
        r@ == (StatementView {
            kind: StatementKind::MeasurementsOfCalibration,
            params: seq![SqlValueView::Integer(id)],
        }),
{
    let mut params: Vec<SqlValue> = Vec::new();
    params.push(SqlValue::Integer(id));
    let r = Statement { kind: StatementKind::MeasurementsOfCalibration, params };
    assert(r@.params =~= seq![SqlValueView::Integer(id)]);
    r
}

/// Every calibration row, the most recently created first.
pub fn list_calibrations() -> (r: Statement)
    ensures
        r@ == (StatementView { kind: StatementKind::ListCalibrations, params: Seq::empty() }),
{
    bare(StatementKind::ListCalibrations)
}

/// The statements that update the record with `data`'s certificate number,
/// given what `FindCalibrationId` found: `NotFound` when it found nothing.
pub fn update_statements(found: Option<i64>, data: &CalibrationData) -> (r: Result<
    Vec<Statement>,
    CalibrationError,
>)
    ensures
        found is None <==> r is Err,
        r is Err ==> r->Err_0 is NotFound,
        found matches Some(id) ==> (r is Ok && statements_view(r->Ok_0@) == update_statements_of(
            id,
            data@,
        )),
{
    match found {
        None => Err(CalibrationError::NotFound),
        Some(id) => {
            let mut params: Vec<SqlValue> = Vec::new();
            params.push(text_value(&data.calibration_date));
            params.push(text_value(&data.model_details));
            params.push(text_value(&data.company_name));
            params.push(text_value(&data.po_number));
            params.push(optional_text_value(&data.customer));
            params.push(text_value(&data.certificate_number));
            let header = Statement { kind: StatementKind::UpdateCalibration, params };
            assert(header@.params =~= update_calibration_of(data@).params);
            let mut delete_params: Vec<SqlValue> = Vec::new();
            delete_params.push(SqlValue::Integer(id));
            let delete = Statement { kind: StatementKind::DeleteMeasurements, params: delete_params };
            assert(delete@.params =~= delete_measurements_of(id).params);
            let mut r: Vec<Statement> = Vec::new();
            r.push(header);
            r.push(delete);
            let mut inserts = measurement_inserts(id, &data.measurements);
            let ghost first = r@;
            let ghost rest = inserts@;
            r.append(&mut inserts);
            assert(statements_view(r@) =~= statements_view(first) + statements_view(rest));
            assert(statements_view(first) =~= seq![update_calibration_of(data@), delete_measurements_of(id)]);
            Ok(r)
        },
    }
}

/// The error that a failed write reports: `DuplicateCertificate` when
/// SQLite refused it for a UNIQUE constraint (on a calibration row only the
/// certificate number is unique), `Storage` with the message otherwise.
pub fn classify_write_failure(f: &SqlFailure) -> (r: CalibrationError)
    ensures
        f.extended_code == Some(SQLITE_CONSTRAINT_UNIQUE) ==> r is DuplicateCertificate,
        f.extended_code != Some(SQLITE_CONSTRAINT_UNIQUE) ==> (r matches CalibrationError::Storage(
            m,
        ) && m@ == f.message@),
{
    match f.extended_code {
        Some(code) => {
            if code == SQLITE_CONSTRAINT_UNIQUE {
                CalibrationError::DuplicateCertificate
            } else {
                CalibrationError::Storage(f.message.clone())
            }
        },
        None => CalibrationError::Storage(f.message.clone()),
    }
}

/// The record that a calibration row and its measurements make up.
pub fn record_from_rows(row: CalibrationRow, measurements: Vec<Measurement>) -> (r: CalibrationData)
    ensures
        r@ == record_of_row(row@, measurements_view(measurements@)),
{
    CalibrationData {
        measurements,
        calibration_date: row.calibration_date,
        certificate_number: row.certificate_number,
        model_details: row.model_details,
        company_name: row.company_name,
        po_number: row.po_number,
        customer: row.customer,
    }
}

/// The record found by `CalibrationByCertificate`, or `NotFound` when no
/// row came back.
pub fn found_record(row: Option<CalibrationRow>, measurements: Vec<Measurement>) -> (r: Result<
    CalibrationData,
    CalibrationError,
>)
    ensures
        row is None <==> r is Err,
        r is Err ==> r->Err_0 is NotFound,
        row matches Some(w) ==> (r is Ok && r->Ok_0@ == record_of_row(
            w@,
            measurements_view(measurements@),
        )),
{
    match row {
        None => Err(CalibrationError::NotFound),
        Some(w) => Ok(record_from_rows(w, measurements)),
    }
}

} // verus!
