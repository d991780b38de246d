//! Where a record's certificate is written, relative to the output
//! directory: `certificates/<customer or "general">/<certificate number>.pdf`.
use vstd::prelude::*;
use crate::model::{CalibrationData, opt_text_view};

verus! {

/// `s` with every space replaced by an underscore.
pub open spec fn underscored(s: Seq<char>) -> Seq<char> {
    s.map_values(|c: char| if c == ' ' { '_' } else { c })
}

/// The folder of a customer's certificates; records without a customer go
/// to `general`.
pub open spec fn customer_folder_of(customer: Option<Seq<char>>) -> Seq<char> {
    match customer {
        Some(c) => underscored(c),
        None => "general"@,
    }
}

/// The path segments of the certificate of a record, below the output
/// directory.
pub open spec fn certificate_path_of(
    customer: Option<Seq<char>>,
    certificate_number: Seq<char>,
) -> Seq<Seq<char>> {
    seq!["certificates"@, customer_folder_of(customer), certificate_number + ".pdf"@]
}

/// `s` with every space replaced by an underscore.
pub fn underscore_spaces(s: &str) -> (r: String)
    ensures
        r@ == underscored(s@),
{
    let n = s.unicode_len();
    let mut r = String::new();
    let mut i: usize = 0;
    while i < n
        invariant
            n == s@.len(),
            i <= n,
            r@ == underscored(s@.take(i as int)),
        decreases n - i,
    {
        let c = s.get_char(i);
        let ghost before = r@;
        if c == ' ' {
            r.append("_");
            proof {
                reveal_strlit("_");
            }
            assert("_"@ =~= seq!['_']);
        } else {
            let piece = s.substring_char(i, i + 1);
            r.append(piece);
            assert(piece@ =~= seq![c]);
        }
        assert(r@ =~= before.push(if c == ' ' { '_' } else { c }));
        assert(s@.take(i + 1) =~= s@.take(i as int).push(c));
        assert(r@ =~= underscored(s@.take(i + 1)));
        i = i + 1;
    }
    assert(s@.take(n as int) =~= s@);
    r
}

/// The folder of a customer's certificates; records without a customer go
/// to `general`.
pub fn customer_folder(customer: &Option<String>) -> (r: String)
    ensures
        r@ == customer_folder_of(opt_text_view(*customer)),
{
    match customer {
        Some(c) => underscore_spaces(c.as_str()),
        None => String::from_str("general"),
    }
}

/// The file name of a certificate: its number with the `.pdf` extension.
pub fn certificate_file_name(certificate_number: &String) -> (r: String)
    ensures
        r@ == certificate_number@ + ".pdf"@,
{
    certificate_number.clone().concat(".pdf")
}

/// The path segments of the certificate of `data`, below the output
/// directory: the certificates folder, the customer's folder, the file.
pub fn certificate_path(data: &CalibrationData) -> (r: Vec<String>)
    ensures
        r@.map_values(|s: String| s@) == certificate_path_of(
            opt_text_view(data.customer),
            data.certificate_number@,
        ),
{
    let mut r: Vec<String> = Vec::new();
    r.push(String::from_str("certificates"));
    r.push(customer_folder(&data.customer));
    r.push(certificate_file_name(&data.certificate_number));
    assert(r@.map_values(|s: String| s@) =~= certificate_path_of(
        opt_text_view(data.customer),
        data.certificate_number@,
    ));
    r
}

} // verus!
