use arriva::fetch::{decode_accents, form_fields, form_pairs, PostType};

fn pairs(v: &[(&str, &str)]) -> Vec<(String, String)> {
    v.iter().map(|(a, b)| (a.to_string(), b.to_string())).collect()
}

#[test]
fn accents_are_decoded() {
    assert_eq!(decode_accents("Coru\\u00f1a"), "Coru\u{f1}a");
    assert_eq!(decode_accents("\\u00c1\\u00e9\\u00ed\\u00f3\\u00fa\\u00fc\\u00e7\\u00c7"), "\u{c1}\u{e9}\u{ed}\u{f3}\u{fa}\u{fc}\u{e7}\u{c7}");
    assert_eq!(decode_accents("\\u00c9\\u00cd\\u00d3\\u00da\\u00dc\\u00e1\\u00f1"), "\u{c9}\u{cd}\u{d3}\u{da}\u{dc}\u{e1}\u{f1}");
}

#[test]
fn other_text_is_kept() {
    assert_eq!(decode_accents(""), "");
    assert_eq!(decode_accents("plain"), "plain");
    assert_eq!(decode_accents("\\u00F1"), "\\u00F1");
    assert_eq!(decode_accents("\\u0041"), "\\u0041");
    assert_eq!(decode_accents("end\\u00f"), "end\\u00f");
    assert_eq!(decode_accents("\\\\u00e1"), "\\\u{e1}");
}

#[test]
fn form_fields_decode_and_split() {
    let payload = "controller=buses&method=goSearch&data%5Bfrom%5D=5274&data%5Bto%5D=4802&data%5Bdate%5D=19-04-2024";
    assert_eq!(
        form_fields(payload),
        Some(pairs(&[
            ("controller", "buses"),
            ("method", "goSearch"),
            ("data[from]", "5274"),
            ("data[to]", "4802"),
            ("data[date]", "19-04-2024"),
        ]))
    );
}

#[test]
fn form_piece_without_equals_fails() {
    assert_eq!(form_fields("a=1&b"), None);
    assert_eq!(form_fields(""), None);
    assert_eq!(form_fields("a=1&"), None);
}

#[test]
fn form_value_stops_at_second_equals() {
    assert_eq!(form_pairs("a=b=c&d="), Some(pairs(&[("a", "b"), ("d", "")])));
}

#[test]
fn form_body_that_is_not_utf8_fails() {
    assert_eq!(form_fields("a=%FF"), None);
}

#[test]
fn post_types_differ() {
    assert_ne!(PostType::FORM, PostType::BODY);
}
