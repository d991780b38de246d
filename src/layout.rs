//! The fixed layout of a certificate page.
//!
//! Lines run top to bottom at fixed margins. When the record names a
//! customer, a customer line follows the company line and every later line
//! moves down by one step; no other position depends on the record.
use vstd::prelude::*;
use crate::model::{CalibrationData, CalibrationView, Measurement, MeasurementView};

verus! {

/// Page width, in millimetres (A4 portrait).
pub const PAGE_WIDTH_MM: u32 = 210;
/// Page height, in millimetres (A4 portrait).
pub const PAGE_HEIGHT_MM: u32 = 297;

pub const TITLE_FONT_SIZE: u32 = 20;
pub const SECTION_FONT_SIZE: u32 = 14;
pub const BODY_FONT_SIZE: u32 = 12;

pub const TITLE_X_MM: u32 = 105;
pub const TITLE_Y_MM: i64 = 280;
pub const LEFT_MARGIN_MM: u32 = 20;
pub const MEASUREMENT_NAME_X_MM: u32 = 30;
pub const READING_X_MM: u32 = 40;
pub const COMPANY_Y_MM: i64 = 260;

/// Vertical distance between consecutive lines.
pub const LINE_STEP_MM: i64 = 10;
/// Vertical distance from a measurement's power line to the next
/// measurement's name line.
pub const MEASUREMENT_GAP_MM: i64 = 15;
/// Vertical distance between the name lines of consecutive measurements.
pub const MEASUREMENT_STRIDE_MM: i64 = 55;

/// No vector of measurements is longer: each element takes 56 bytes and
/// an allocation holds at most `isize::MAX` bytes. The bound keeps every
/// vertical position within `i64`.
pub const MAX_MEASUREMENTS: u64 = 160_000_000_000_000_000;

/// One line of text placed on the page.
///
/// The drawn text is `text`, then the reading in decimal when there is one,
/// then `suffix`. Positions are measured from the bottom left corner; a
/// vertical position below zero lies past the bottom of the page.
#[derive(Clone, Debug)]
pub struct TextLine {
    pub text: String,
    pub reading: Option<u64>,
    pub suffix: String,
    pub font_size: u32,
    pub x_mm: u32,
    pub y_mm: i64,
}

pub struct TextLineView {
    pub text: Seq<char>,
    pub reading: Option<u64>,
    pub suffix: Seq<char>,
    pub font_size: u32,
    pub x_mm: u32,
    pub y_mm: int,
}

impl View for TextLine {
    type V = TextLineView;

    open spec fn view(&self) -> TextLineView {
        TextLineView {
            text: self.text@,
            reading: self.reading,
            suffix: self.suffix@,
            font_size: self.font_size,
            x_mm: self.x_mm,
            y_mm: self.y_mm as int,
        }
    }
}

pub open spec fn lines_view(ls: Seq<TextLine>) -> Seq<TextLineView> {
    ls.map_values(|l: TextLine| l@)
}

/// How far the lines after the company line move down, keyed by whether
/// the record names a customer.
pub open spec fn customer_offset(has_customer: bool) -> int {
    if has_customer {
        LINE_STEP_MM as int
    } else {
        0
    }
}

pub open spec fn plain_line(text: Seq<char>, font_size: u32, x: u32, y: int) -> TextLineView {
    TextLineView { text, reading: None, suffix: Seq::empty(), font_size, x_mm: x, y_mm: y }
}

pub open spec fn reading_line(label: Seq<char>, reading: u64, unit: Seq<char>, y: int) -> TextLineView {
    TextLineView {
        text: label,
        reading: Some(reading),
        suffix: unit,
        font_size: BODY_FONT_SIZE,
        x_mm: READING_X_MM,
        y_mm: y,
    }
}

pub open spec fn field_line(label: Seq<char>, value: Seq<char>, y: int) -> TextLineView {
    plain_line(label + value, BODY_FONT_SIZE, LEFT_MARGIN_MM, y)
}

/// The header of the page: title, company, the customer when there is one,
/// the record's fields and the heading of the measurement section.
pub open spec fn header_layout(d: CalibrationView) -> Seq<TextLineView> {
    let s = customer_offset(d.customer is Some);
    let top = seq![
        plain_line("Calibration Certificate"@, TITLE_FONT_SIZE, TITLE_X_MM, TITLE_Y_MM as int),
        field_line("Company: "@, d.company_name, COMPANY_Y_MM as int),
    ];
    let customer = match d.customer {
        Some(c) => seq![field_line("Customer: "@, c, COMPANY_Y_MM - LINE_STEP_MM)],
        None => Seq::empty(),
    };
    let fields = seq![
        field_line("Certificate Number: "@, d.certificate_number, 250 - s),
        field_line("PO Number: "@, d.po_number, 240 - s),
        field_line("Model Details: "@, d.model_details, 230 - s),
        field_line("Calibration Date: "@, d.calibration_date, 220 - s),
        plain_line("Calibration Measurements:"@, SECTION_FONT_SIZE, LEFT_MARGIN_MM, 200 - s),
    ];
    top + customer + fields
}

/// Where the first measurement's name line stands.
pub open spec fn first_measurement_y(d: CalibrationView) -> int {
    190 - customer_offset(d.customer is Some)
}

/// The five lines of one measurement, its name line at height `y`.
pub open spec fn measurement_block(m: MeasurementView, y: int) -> Seq<TextLineView> {
    seq![
        plain_line("Measurement: "@ + m.name, BODY_FONT_SIZE, MEASUREMENT_NAME_X_MM, y),
        reading_line("  Voltage: "@, m.voltage, " V"@, y - 10),
        reading_line("  Current: "@, m.current, " A"@, y - 20),
        reading_line("  Frequency: "@, m.frequency, " Hz"@, y - 30),
        reading_line("  Power: "@, m.power, " W"@, y - 40),
    ]
}

/// The blocks of all measurements in order, the first at height `y0`.
pub open spec fn measurement_blocks(ms: Seq<MeasurementView>, y0: int) -> Seq<TextLineView>
    decreases ms.len(),
{
    if ms.len() == 0 {
        Seq::empty()
    } else {
        measurement_blocks(ms.drop_last(), y0) + measurement_block(
            ms.last(),
            y0 - MEASUREMENT_STRIDE_MM * (ms.len() - 1),
        )
    }
}

/// Every line of the certificate of `d`, in drawing order.
pub open spec fn certificate_layout_of(d: CalibrationView) -> Seq<TextLineView> {
    header_layout(d) + measurement_blocks(d.measurements, first_measurement_y(d))
}

fn text_line(text: String, font_size: u32, x_mm: u32, y_mm: i64) -> (r: TextLine)
    ensures
        r@ == plain_line(text@, font_size, x_mm, y_mm as int),
{
    let r = TextLine { text, reading: None, suffix: String::new(), font_size, x_mm, y_mm };
    r
}

fn labelled(label: &str, value: &String) -> (r: String)
    ensures
        r@ == label@ + value@,
{
    String::from_str(label).concat(value.as_str())
}

fn reading_text_line(label: &str, reading: u64, unit: &str, y_mm: i64) -> (r: TextLine)
    ensures
        r@ == reading_line(label@, reading, unit@, y_mm as int),
{
    TextLine {
        text: String::from_str(label),
        reading: Some(reading),
        suffix: String::from_str(unit),
        font_size: BODY_FONT_SIZE,
        x_mm: READING_X_MM,
        y_mm,
    }
}

/// The lines of one measurement, its name line at height `y`.
fn push_measurement_block(lines: &mut Vec<TextLine>, m: &Measurement, y: i64)
    requires
        y - 40 >= i64::MIN,
    ensures
        lines_view(final(lines)@) == lines_view(old(lines)@) + measurement_block(m@, y as int),
{
    let ghost start = old(lines)@;
    lines.push(text_line(labelled("Measurement: ", &m.name), BODY_FONT_SIZE, MEASUREMENT_NAME_X_MM, y));
    lines.push(reading_text_line("  Voltage: ", m.voltage, " V", y - 10));
    lines.push(reading_text_line("  Current: ", m.current, " A", y - 20));
    lines.push(reading_text_line("  Frequency: ", m.frequency, " Hz", y - 30));
    lines.push(reading_text_line("  Power: ", m.power, " W", y - 40));
    assert(lines_view(lines@) =~= lines_view(start) + measurement_block(m@, y as int));
}

/// Lays out the certificate of `data`: every line with its text, font size
/// and position, in drawing order.
pub fn certificate_layout(data: &CalibrationData) -> (r: Vec<TextLine>)
    requires
        data.measurements@.len() <= MAX_MEASUREMENTS,
    ensures
        lines_view(r@) == certificate_layout_of(data@),
{
    let has_customer = data.customer.is_some();
    let shift: i64 = if has_customer { LINE_STEP_MM } else { 0 };
    let mut lines: Vec<TextLine> = Vec::new();
    lines.push(text_line(
        String::from_str("Calibration Certificate"),
        TITLE_FONT_SIZE,
        TITLE_X_MM,
        TITLE_Y_MM,
    ));
    lines.push(text_line(labelled("Company: ", &data.company_name), BODY_FONT_SIZE, LEFT_MARGIN_MM, COMPANY_Y_MM));
    match &data.customer {
        Some(c) => {
            lines.push(text_line(labelled("Customer: ", c), BODY_FONT_SIZE, LEFT_MARGIN_MM, COMPANY_Y_MM - LINE_STEP_MM));
        },
        None => {},
    }
    lines.push(text_line(labelled("Certificate Number: ", &data.certificate_number), BODY_FONT_SIZE, LEFT_MARGIN_MM, 250 - shift));
    lines.push(text_line(labelled("PO Number: ", &data.po_number), BODY_FONT_SIZE, LEFT_MARGIN_MM, 240 - shift));
    lines.push(text_line(labelled("Model Details: ", &data.model_details), BODY_FONT_SIZE, LEFT_MARGIN_MM, 230 - shift));
    lines.push(text_line(labelled("Calibration Date: ", &data.calibration_date), BODY_FONT_SIZE, LEFT_MARGIN_MM, 220 - shift));
    lines.push(text_line(
        String::from_str("Calibration Measurements:"),
        SECTION_FONT_SIZE,
        LEFT_MARGIN_MM,
        200 - shift,
    ));
    let ghost d = data@;
    assert(lines_view(lines@) =~= header_layout(d));
    let y0: i64 = 190 - shift;
    let mut y: i64 = y0;
    let mut i: usize = 0;
    while i < data.measurements.len()
        invariant
            i <= data.measurements@.len() <= MAX_MEASUREMENTS,
            d == data@,
            y0 as int == first_measurement_y(d),
            y == y0 - MEASUREMENT_STRIDE_MM * i,
            lines_view(lines@) == header_layout(d) + measurement_blocks(
                d.measurements.take(i as int),
                y0 as int,
            ),
        decreases data.measurements@.len() - i,
    {
        let ghost before = lines@;
        push_measurement_block(&mut lines, &data.measurements[i], y);
        proof {
            let ms = d.measurements;
            assert(ms.take(i + 1).drop_last() =~= ms.take(i as int));
            assert(ms.take(i + 1).last() == data.measurements@[i as int]@);
            assert(lines_view(lines@) =~= header_layout(d) + measurement_blocks(
                ms.take(i + 1),
                y0 as int,
            ));
        }
        y = y - MEASUREMENT_STRIDE_MM;
        i = i + 1;
    }
    assert(d.measurements.take(i as int) =~= d.measurements);
    lines
}

/// `l` moved down by `dy`.
pub open spec fn shifted(l: TextLineView, dy: int) -> TextLineView {
    TextLineView {
        text: l.text,
        reading: l.reading,
        suffix: l.suffix,
        font_size: l.font_size,
        x_mm: l.x_mm,
        y_mm: l.y_mm - dy,
    }
}

/// `d` with its customer set to `c`.
pub open spec fn with_customer(d: CalibrationView, c: Seq<char>) -> CalibrationView {
    CalibrationView {
        measurements: d.measurements,
        calibration_date: d.calibration_date,
        certificate_number: d.certificate_number,
        model_details: d.model_details,
        company_name: d.company_name,
        po_number: d.po_number,
        customer: Some(c),
    }
}

proof fn lemma_blocks_shift(ms: Seq<MeasurementView>, y0: int, dy: int)
    ensures
        measurement_blocks(ms, y0 - dy) == measurement_blocks(ms, y0).map_values(
            |l: TextLineView| shifted(l, dy),
        ),
    decreases ms.len(),
{
    if ms.len() > 0 {
        lemma_blocks_shift(ms.drop_last(), y0, dy);
        let f = |l: TextLineView| shifted(l, dy);
        let y = y0 - MEASUREMENT_STRIDE_MM * (ms.len() - 1);
        assert(measurement_block(ms.last(), y - dy) =~= measurement_block(ms.last(), y).map_values(f));
        assert(y0 - dy - MEASUREMENT_STRIDE_MM * (ms.len() - 1) == y - dy);
        assert(measurement_blocks(ms, y0).map_values(f) =~= measurement_blocks(
            ms.drop_last(),
            y0,
        ).map_values(f) + measurement_block(ms.last(), y).map_values(f));
    }
}

/// Naming a customer adds one line and moves what follows it down.
///
/// Compared with the layout of a record without a customer, the layout of
/// the same record with a customer keeps the title and company lines, has
/// the customer line one step below the company line, and has every other
/// line one step lower than before, with the same text, font and margin.
/// The customer line is the only line that the record without a customer
/// lacks.
pub proof fn lemma_customer_line_shifts_layout(d: CalibrationView, c: Seq<char>)
    requires
        d.customer is None,
    ensures
        certificate_layout_of(with_customer(d, c)).len() == certificate_layout_of(d).len() + 1,
        certificate_layout_of(with_customer(d, c))[0] == certificate_layout_of(d)[0],
        certificate_layout_of(with_customer(d, c))[1] == certificate_layout_of(d)[1],
        certificate_layout_of(with_customer(d, c))[2] == field_line(
            "Customer: "@,
            c,
            certificate_layout_of(d)[1].y_mm - LINE_STEP_MM,
        ),
        forall|i: int|
            2 <= i < certificate_layout_of(d).len() ==> #[trigger] certificate_layout_of(
                with_customer(d, c),
            )[i + 1] == shifted(certificate_layout_of(d)[i], LINE_STEP_MM as int),
{
    let e = with_customer(d, c);
    let a = certificate_layout_of(d);
    let b = certificate_layout_of(e);
    let f = |l: TextLineView| shifted(l, LINE_STEP_MM as int);
    lemma_blocks_shift(d.measurements, 190, LINE_STEP_MM as int);
    let ha = header_layout(d);
    let hb = header_layout(e);
    assert(ha.len() == 7);
    assert(hb.len() == 8);
    let ba = measurement_blocks(d.measurements, 190);
    let bb = measurement_blocks(d.measurements, 180);
    assert(bb == ba.map_values(f));
    assert(a == ha + ba);
    assert(b == hb + bb);
    assert forall|i: int| 2 <= i < a.len() implies #[trigger] b[i + 1] == shifted(a[i], LINE_STEP_MM as int) by {
        if i < 7 {
            assert(a[i] == ha[i]);
            assert(b[i + 1] == hb[i + 1]);
        } else {
            assert(a[i] == ba[i - 7]);
            assert(b[i + 1] == bb[i - 7]);
        }
    }
}

} // verus!
