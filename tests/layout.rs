use calibration_certs::layout::{certificate_layout, TextLine, PAGE_HEIGHT_MM, PAGE_WIDTH_MM};
use calibration_certs::model::{CalibrationData, Measurement};
use calibration_certs::paths::{certificate_file_name, certificate_path, customer_folder, underscore_spaces};
use printpdf::{BuiltinFont, Mm, PdfDocument};

fn measurement(name: &str, v: f64, c: f64, f: f64, p: f64) -> Measurement {
    Measurement {
        name: name.to_string(),
        voltage: v.to_bits(),
        current: c.to_bits(),
        frequency: f.to_bits(),
        power: p.to_bits(),
    }
}

fn record(customer: Option<&str>, ms: Vec<Measurement>) -> CalibrationData {
    CalibrationData {
        measurements: ms,
        calibration_date: "2024-05-01".to_string(),
        certificate_number: "C-001".to_string(),
        model_details: "Fluke 87V".to_string(),
        company_name: "Calibration Labs".to_string(),
        po_number: "PO-77".to_string(),
        customer: customer.map(|c| c.to_string()),
    }
}

fn drawn(l: &TextLine) -> String {
    match l.reading {
        Some(b) => format!("{}{}{}", l.text, f64::from_bits(b), l.suffix),
        None => format!("{}{}", l.text, l.suffix),
    }
}

fn summary(ls: &[TextLine]) -> Vec<(String, u32, u32, i64)> {
    ls.iter().map(|l| (drawn(l), l.font_size, l.x_mm, l.y_mm)).collect()
}

#[test]
fn layout_without_customer() {
    let d = record(None, vec![measurement("Range 1", 230.0, 1.5, 50.0, 345.0), measurement("Range 2", 12.0, 0.5, 60.0, 6.0)]);
    let got = summary(&certificate_layout(&d));
    let want: Vec<(String, u32, u32, i64)> = vec![
        ("Calibration Certificate".to_string(), 20, 105, 280),
        ("Company: Calibration Labs".to_string(), 12, 20, 260),
        ("Certificate Number: C-001".to_string(), 12, 20, 250),
        ("PO Number: PO-77".to_string(), 12, 20, 240),
        ("Model Details: Fluke 87V".to_string(), 12, 20, 230),
        ("Calibration Date: 2024-05-01".to_string(), 12, 20, 220),
        ("Calibration Measurements:".to_string(), 14, 20, 200),
        ("Measurement: Range 1".to_string(), 12, 30, 190),
        ("  Voltage: 230 V".to_string(), 12, 40, 180),
        ("  Current: 1.5 A".to_string(), 12, 40, 170),
        ("  Frequency: 50 Hz".to_string(), 12, 40, 160),
        ("  Power: 345 W".to_string(), 12, 40, 150),
        ("Measurement: Range 2".to_string(), 12, 30, 135),
        ("  Voltage: 12 V".to_string(), 12, 40, 125),
        ("  Current: 0.5 A".to_string(), 12, 40, 115),
        ("  Frequency: 60 Hz".to_string(), 12, 40, 105),
        ("  Power: 6 W".to_string(), 12, 40, 95),
    ];
    assert_eq!(got, want);
}

#[test]
fn customer_line_shifts_later_lines() {
    let ms = vec![measurement("Range 1", 230.0, 1.5, 50.0, 345.0)];
    let plain = certificate_layout(&record(None, ms.clone()));
    let with = certificate_layout(&record(Some("Acme"), ms));
    assert_eq!(with.len(), plain.len() + 1);
    assert_eq!(summary(&with[..2]), summary(&plain[..2]));
    assert_eq!(drawn(&with[2]), "Customer: Acme");
    assert_eq!(with[2].y_mm, 250);
    for i in 2..plain.len() {
        assert_eq!(drawn(&with[i + 1]), drawn(&plain[i]));
        assert_eq!(with[i + 1].x_mm, plain[i].x_mm);
        assert_eq!(with[i + 1].font_size, plain[i].font_size);
        assert_eq!(with[i + 1].y_mm, plain[i].y_mm - 10);
    }
    assert!(!plain.iter().any(|l| l.text.starts_with("Customer:")));
}

#[test]
fn layout_without_measurements_ends_at_section_heading() {
    let ls = certificate_layout(&record(None, vec![]));
    assert_eq!(ls.len(), 7);
    assert_eq!(drawn(&ls[6]), "Calibration Measurements:");
}

#[test]
fn long_record_runs_past_the_page() {
    let ms: Vec<Measurement> = (0..5).map(|i| measurement(&format!("m{}", i), 1.0, 1.0, 1.0, 1.0)).collect();
    let ls = certificate_layout(&record(None, ms));
    assert_eq!(ls.len(), 7 + 25);
    assert_eq!(ls.last().unwrap().y_mm, 190 - 4 * 55 - 40);
    assert!(ls.last().unwrap().y_mm < 0);
}

#[test]
fn page_is_a4_portrait() {
    assert_eq!((PAGE_WIDTH_MM, PAGE_HEIGHT_MM), (210, 297));
}

#[test]
fn rendered_layout_is_a_pdf_document() {
    let d = record(Some("Acme"), vec![measurement("Range 1", 230.0, 1.5, 50.0, 345.0)]);
    let (doc, page, layer) = PdfDocument::new(
        "Calibration Certificate",
        Mm(PAGE_WIDTH_MM as f32),
        Mm(PAGE_HEIGHT_MM as f32),
        "Layer 1",
    );
    let font = doc.add_builtin_font(BuiltinFont::Helvetica).unwrap();
    let current = doc.get_page(page).get_layer(layer);
    for l in certificate_layout(&d) {
        current.use_text(drawn(&l), l.font_size as f32, Mm(l.x_mm as f32), Mm(l.y_mm as f32), &font);
    }
    let bytes = doc.save_to_bytes().unwrap();
    assert!(bytes.len() > 100);
    assert!(bytes.starts_with(b"%PDF-"));
    assert!(bytes.windows(5).any(|w| w == b"%%EOF"));
}

#[test]
fn spaces_become_underscores() {
    assert_eq!(underscore_spaces("Acme Corp Ltd"), "Acme_Corp_Ltd");
    assert_eq!(underscore_spaces(""), "");
    assert_eq!(underscore_spaces("Zoë  Co"), "Zoë__Co");
}

#[test]
fn customer_folder_defaults_to_general() {
    assert_eq!(customer_folder(&None), "general");
    assert_eq!(customer_folder(&Some("Big Co".to_string())), "Big_Co");
}

#[test]
fn certificate_file_is_named_by_number() {
    assert_eq!(certificate_file_name(&"C-001".to_string()), "C-001.pdf");
}

#[test]
fn certificate_path_segments() {
    assert_eq!(certificate_path(&record(Some("Acme Corp"), vec![])), vec!["certificates", "Acme_Corp", "C-001.pdf"]);
    assert_eq!(certificate_path(&record(None, vec![])), vec!["certificates", "general", "C-001.pdf"]);
}
