//! The calibration record and its measurements, as plain values.
use vstd::prelude::*;

verus! {

/// One reading set belonging to a record.
///
/// Each reading is held as the bit pattern of its IEEE-754 binary64 value,
/// so that the library carries readings exactly without doing arithmetic on
/// them.
#[derive(Clone, Debug)]
pub struct Measurement {
    pub name: String,
    pub voltage: u64,
    pub current: u64,
    pub frequency: u64,
    pub power: u64,
}

pub struct MeasurementView {
    pub name: Seq<char>,
    pub voltage: u64,
    pub current: u64,
    pub frequency: u64,
    pub power: u64,
}

impl View for Measurement {
    type V = MeasurementView;

    open spec fn view(&self) -> MeasurementView {
        MeasurementView {
            name: self.name@,
            voltage: self.voltage,
            current: self.current,
            frequency: self.frequency,
            power: self.power,
        }
    }
}

/// A certified calibration event: its header fields and its measurements.
#[derive(Clone, Debug)]
pub struct CalibrationData {
    pub measurements: Vec<Measurement>,
    pub calibration_date: String,
    pub certificate_number: String,
    pub model_details: String,
    pub company_name: String,
    pub po_number: String,
    pub customer: Option<String>,
}

pub struct CalibrationView {
    pub measurements: Seq<MeasurementView>,
    pub calibration_date: Seq<char>,
    pub certificate_number: Seq<char>,
    pub model_details: Seq<char>,
    pub company_name: Seq<char>,
    pub po_number: Seq<char>,
    pub customer: Option<Seq<char>>,
}

pub open spec fn opt_text_view(s: Option<String>) -> Option<Seq<char>> {
    match s {
        Some(t) => Some(t@),
        None => None,
    }
}

pub open spec fn measurements_view(ms: Seq<Measurement>) -> Seq<MeasurementView> {
    ms.map_values(|m: Measurement| m@)
}

impl View for CalibrationData {
    type V = CalibrationView;

    open spec fn view(&self) -> CalibrationView {
        CalibrationView {
            measurements: measurements_view(self.measurements@),
            calibration_date: self.calibration_date@,
            certificate_number: self.certificate_number@,
            model_details: self.model_details@,
            company_name: self.company_name@,
            po_number: self.po_number@,
            customer: opt_text_view(self.customer),
        }
    }
}

/// The failures that the store and the renderer report.
#[derive(Clone, Debug)]
pub enum CalibrationError {
    /// A record with the same certificate number already exists.
    DuplicateCertificate,
    /// No record has the requested certificate number.
    NotFound,
    /// The store could not be locked, read or written.
    Storage(String),
    /// The certificate document could not be produced or written.
    Render(String),
    /// The on-disk schema could not be brought up to date.
    Migration(String),
}

} // verus!
