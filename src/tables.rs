//! What the repository's statements do to the stored rows.
//!
//! The measurements table is modelled as its rows in storage order, each a
//! calibration id and a measurement; the calibrations table as the row that
//! an insert creates. These are the meanings of the SQL texts of
//! `StatementKind`, stated once, so that the repository's plans can be
//! shown to have the effect the record operations promise.
use vstd::prelude::*;
use crate::model::{CalibrationView, MeasurementView};
use crate::statement::{SqlValueView, StatementKind, StatementView};
use crate::store::{
    CalibrationRowView, delete_measurements_of, insert_calibration_of, insert_measurements_of, insert_measurement_of,
    record_of_row, update_statements_of,
};

verus! {

/// The measurements of calibration `id`, in storage order, as
/// `MeasurementsOfCalibration` reads them.
pub open spec fn measurements_for(rows: Seq<(i64, MeasurementView)>, id: i64) -> Seq<MeasurementView>
    decreases rows.len(),
{
    if rows.len() == 0 {
        Seq::empty()
    } else if rows.last().0 == id {
        measurements_for(rows.drop_last(), id).push(rows.last().1)
    } else {
        measurements_for(rows.drop_last(), id)
    }
}

/// The rows that remain when every measurement of calibration `id` is
/// deleted.
pub open spec fn without_calibration(rows: Seq<(i64, MeasurementView)>, id: i64) -> Seq<
    (i64, MeasurementView),
>
    decreases rows.len(),
{
    if rows.len() == 0 {
        Seq::empty()
    } else if rows.last().0 == id {
        without_calibration(rows.drop_last(), id)
    } else {
        without_calibration(rows.drop_last(), id).push(rows.last())
    }
}

/// The measurements table after `s` has run on it. Only the insert and the
/// delete of measurements change it.
pub open spec fn apply_to_measurements(rows: Seq<(i64, MeasurementView)>, s: StatementView) -> Seq<
    (i64, MeasurementView),
> {
    if s.kind == StatementKind::InsertMeasurement && s.params.len() == 6 {
        match (s.params[0], s.params[1], s.params[2], s.params[3], s.params[4], s.params[5]) {
            (
                SqlValueView::Integer(id),
                SqlValueView::Text(name),
                SqlValueView::Real(voltage),
                SqlValueView::Real(current),
                SqlValueView::Real(frequency),
                SqlValueView::Real(power),
            ) => rows.push((id, MeasurementView { name, voltage, current, frequency, power })),
            _ => rows,
        }
    } else if s.kind == StatementKind::DeleteMeasurements && s.params.len() == 1 {
        match s.params[0] {
            SqlValueView::Integer(id) => without_calibration(rows, id),
            _ => rows,
        }
    } else {
        rows
    }
}

/// The measurements table after all of `ss` have run on it, in order.
pub open spec fn apply_all(rows: Seq<(i64, MeasurementView)>, ss: Seq<StatementView>) -> Seq<
    (i64, MeasurementView),
>
    decreases ss.len(),
{
    if ss.len() == 0 {
        rows
    } else {
        apply_to_measurements(apply_all(rows, ss.drop_last()), ss.last())
    }
}

/// The calibration row that an `InsertCalibration` creates under `id`.
pub open spec fn inserted_calibration_row(id: i64, s: StatementView) -> Option<CalibrationRowView> {
    if s.kind == StatementKind::InsertCalibration && s.params.len() == 7 {
        match (s.params[0], s.params[1], s.params[2], s.params[3], s.params[4], s.params[5]) {
            (
                SqlValueView::Text(calibration_date),
                SqlValueView::Text(certificate_number),
                SqlValueView::Text(model_details),
                SqlValueView::Text(company_name),
                SqlValueView::Text(po_number),
                customer_value,
            ) => match customer_value {
                SqlValueView::Text(c) => Some(
                    CalibrationRowView {
                        id,
                        calibration_date,
                        certificate_number,
                        model_details,
                        company_name,
                        po_number,
                        customer: Some(c),
                    },
                ),
                SqlValueView::Null => Some(
                    CalibrationRowView {
                        id,
                        calibration_date,
                        certificate_number,
                        model_details,
                        company_name,
                        po_number,
                        customer: None,
                    },
                ),
                _ => None,
            },
            _ => None,
        }
    } else {
        None
    }
}

proof fn lemma_apply_all_concat(
    rows: Seq<(i64, MeasurementView)>,
    a: Seq<StatementView>,
    b: Seq<StatementView>,
)
    ensures
        apply_all(rows, a + b) == apply_all(apply_all(rows, a), b),
    decreases b.len(),
{
    if b.len() == 0 {
        assert(a + b =~= a);
    } else {
        assert((a + b).drop_last() =~= a + b.drop_last());
        assert((a + b).last() == b.last());
        lemma_apply_all_concat(rows, a, b.drop_last());
    }
}

proof fn lemma_without_calibration(rows: Seq<(i64, MeasurementView)>, id: i64)
    ensures
        measurements_for(without_calibration(rows, id), id) == Seq::<MeasurementView>::empty(),
        forall|other: i64|
            other != id ==> #[trigger] measurements_for(without_calibration(rows, id), other)
                == measurements_for(rows, other),
    decreases rows.len(),
{
    if rows.len() > 0 {
        lemma_without_calibration(rows.drop_last(), id);
        let w = without_calibration(rows.drop_last(), id);
        if rows.last().0 != id {
            assert(w.push(rows.last()).drop_last() =~= w);
        }
        assert forall|other: i64| other != id implies #[trigger] measurements_for(
            without_calibration(rows, id),
            other,
        ) == measurements_for(rows, other) by {
            if rows.last().0 != id {
                assert(w.push(rows.last()).drop_last() =~= w);
                assert(measurements_for(w.push(rows.last()), other) == (if rows.last().0 == other {
                    measurements_for(w, other).push(rows.last().1)
                } else {
                    measurements_for(w, other)
                }));
            }
        }
    }
}

proof fn lemma_measurements_for_push(rows: Seq<(i64, MeasurementView)>, id: i64, m: MeasurementView)
    ensures
        measurements_for(rows.push((id, m)), id) == measurements_for(rows, id).push(m),
        forall|other: i64|
            other != id ==> #[trigger] measurements_for(rows.push((id, m)), other)
                == measurements_for(rows, other),
{
    assert(rows.push((id, m)).drop_last() =~= rows);
}

proof fn lemma_insert_measurements(
    rows: Seq<(i64, MeasurementView)>,
    id: i64,
    ms: Seq<MeasurementView>,
)
    ensures
        measurements_for(apply_all(rows, insert_measurements_of(id, ms)), id) == measurements_for(
            rows,
            id,
        ) + ms,
        forall|other: i64|
            other != id ==> #[trigger] measurements_for(
                apply_all(rows, insert_measurements_of(id, ms)),
                other,
            ) == measurements_for(rows, other),
    decreases ms.len(),
{
    let ss = insert_measurements_of(id, ms);
    if ms.len() == 0 {
        assert(measurements_for(rows, id) + ms =~= measurements_for(rows, id));
    } else {
        assert(ss.drop_last() =~= insert_measurements_of(id, ms.drop_last()));
        lemma_insert_measurements(rows, id, ms.drop_last());
        let before = apply_all(rows, ss.drop_last());
        assert(ss.last() == insert_measurement_of(id, ms.last()));
        assert(apply_all(rows, ss) == before.push((id, ms.last())));
        lemma_measurements_for_push(before, id, ms.last());
        assert(measurements_for(rows, id) + ms =~= (measurements_for(rows, id) + ms.drop_last()).push(
            ms.last(),
        ));
    }
}

/// Updating a record replaces its measurements.
///
/// Whatever the measurements table held, after the statements of an update
/// of calibration `id` to `d` have run, the measurements of `id` are
/// exactly those of `d`, in `d`'s order (none of the old ones is left
/// behind), and the measurements of every other calibration are as they
/// were.
pub proof fn lemma_update_replaces_measurements(
    rows: Seq<(i64, MeasurementView)>,
    id: i64,
    d: CalibrationView,
)
    ensures
        measurements_for(apply_all(rows, update_statements_of(id, d)), id) == d.measurements,
        forall|other: i64|
            other != id ==> #[trigger] measurements_for(
                apply_all(rows, update_statements_of(id, d)),
                other,
            ) == measurements_for(rows, other),
{
    let head = seq![
        update_statements_of(id, d)[0],
        update_statements_of(id, d)[1],
    ];
    let tail = insert_measurements_of(id, d.measurements);
    assert(update_statements_of(id, d) =~= head + tail);
    lemma_apply_all_concat(rows, head, tail);
    assert(head.drop_last().drop_last() =~= Seq::<StatementView>::empty());
    assert(head.drop_last().last() == head[0]);
    let cleared = without_calibration(rows, id);
    assert(head[0].kind == StatementKind::UpdateCalibration);
    assert(head[1] == delete_measurements_of(id));
    assert(apply_all(rows, head.drop_last().drop_last()) == rows);
    assert(apply_all(rows, head.drop_last()) == apply_to_measurements(rows, head[0]));
    assert(apply_to_measurements(rows, head[0]) == rows);
    assert(head.last() == head[1]);
    assert(apply_all(rows, head) == apply_to_measurements(rows, head[1]));
    assert(apply_all(rows, head) == cleared);
    lemma_without_calibration(rows, id);
    lemma_insert_measurements(cleared, id, d.measurements);
    assert(Seq::<MeasurementView>::empty() + d.measurements =~= d.measurements);
}

/// A created record reads back as it was written.
///
/// When calibration `id` has no measurements yet, the row that the insert
/// of `d` creates, together with the measurements that `d`'s measurement
/// inserts leave under `id`, make up `d` again: every text field, the
/// customer, and every measurement's name and readings, in order.
pub proof fn lemma_created_record_reads_back(
    rows: Seq<(i64, MeasurementView)>,
    id: i64,
    d: CalibrationView,
    created_at: Seq<char>,
)
    requires
        measurements_for(rows, id) == Seq::<MeasurementView>::empty(),
    ensures
        inserted_calibration_row(id, insert_calibration_of(d, created_at)) is Some,
        record_of_row(
            inserted_calibration_row(id, insert_calibration_of(d, created_at))->Some_0,
            measurements_for(apply_all(rows, insert_measurements_of(id, d.measurements)), id),
        ) == d,
{
    lemma_insert_measurements(rows, id, d.measurements);
    assert(Seq::<MeasurementView>::empty() + d.measurements =~= d.measurements);
}

} // verus!
