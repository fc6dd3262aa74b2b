use generator::cexpr::{cexpr, cexpr_with, parse_inverse_number, CType};

fn chars_of_expression(s: &str) -> Vec<char> {
    s.chars().collect()
}

#[test]
fn inverted_wide_integer() {
    assert_eq!(cexpr("(~0ULL)"), Some((CType::U64, "!0".to_string())));
}

#[test]
fn inverted_integer() {
    assert_eq!(cexpr("(~0U)"), Some((CType::U32, "!0".to_string())));
}

#[test]
fn inverted_integer_with_subtraction() {
    assert_eq!(cexpr("(~0U-1)"), Some((CType::U32, "!0-1".to_string())));
    assert_eq!(cexpr("(~12ULL-345)"), Some((CType::U64, "!12-345".to_string())));
}

#[test]
fn float_literal_has_two_fraction_digits() {
    assert_eq!(cexpr("1000.0f"), Some((CType::Float, "1000.00".to_string())));
    assert_eq!(cexpr("0.5f"), Some((CType::Float, "0.50".to_string())));
    assert_eq!(cexpr("-2f"), Some((CType::Float, "-2.00".to_string())));
    assert_eq!(cexpr("1.5e1f"), Some((CType::Float, "15.00".to_string())));
}

#[test]
fn text_after_the_literal_is_ignored() {
    assert_eq!(cexpr("(~0U) and more"), Some((CType::U32, "!0".to_string())));
    assert_eq!(cexpr("1.0f32"), Some((CType::Float, "1.00".to_string())));
}

#[test]
fn other_text_is_no_expression() {
    assert_eq!(cexpr(""), None);
    assert_eq!(cexpr("(~0UL)"), None);
    assert_eq!(cexpr("(~U)"), None);
    assert_eq!(cexpr("(~0)"), None);
    assert_eq!(cexpr("(~0U-)"), None);
    assert_eq!(cexpr("(~0U"), None);
    assert_eq!(cexpr("~0U"), None);
    assert_eq!(cexpr("1000.0"), None);
    assert_eq!(cexpr("f"), None);
    assert_eq!(cexpr("1ef"), None);
    assert_eq!(cexpr("42"), None);
}

#[test]
fn float_literals_of_every_shape() {
    assert_eq!(cexpr("1.f"), Some((CType::Float, "1.00".to_string())));
    assert_eq!(cexpr(".5f"), Some((CType::Float, "0.50".to_string())));
    assert_eq!(cexpr("+1e-3f"), Some((CType::Float, "0.00".to_string())));
    assert_eq!(cexpr("2.5E2f"), Some((CType::Float, "250.00".to_string())));
    assert_eq!(cexpr(".f"), None);
    assert_eq!(cexpr("1e+f"), None);
    assert_eq!(cexpr("1.0 f"), None);
    assert_eq!(cexpr("1.0F"), None);
}

#[test]
fn what_was_read_as_a_float_is_taken_as_given() {
    let read = |text: &str, rest: &str| Some((text.to_string(), rest.to_string()));
    assert_eq!(
        cexpr_with("1000.0f", read("1000.00", "f")),
        Some((CType::Float, "1000.00".to_string()))
    );
    assert_eq!(
        cexpr_with("1000.0f32", read("1000.00", "f32")),
        Some((CType::Float, "1000.00".to_string()))
    );
    assert_eq!(cexpr_with("1000.0", read("1000.00", "")), None);
    assert_eq!(cexpr_with("1000.0g", read("1000.00", "g")), None);
    assert_eq!(cexpr_with("1000.0f", None), None);
    assert_eq!(cexpr_with("(~0U)", None), Some((CType::U32, "!0".to_string())));
    assert_eq!(cexpr_with("(~0U)", read("ignored", ")")), Some((CType::U32, "!0".to_string())));
}

#[test]
fn inverse_number_alone() {
    assert_eq!(
        parse_inverse_number(&chars_of_expression("(~7ULL)")),
        Some((CType::U64, "!7".to_string()))
    );
    assert_eq!(parse_inverse_number(&chars_of_expression("1.0f")), None);
}

#[test]
fn scalar_type_names() {
    assert_eq!(CType::USize.to_tokens(), "usize");
    assert_eq!(CType::U32.to_tokens(), "u32");
    assert_eq!(CType::U64.to_tokens(), "u64");
    assert_eq!(CType::Float.to_tokens(), "f32");
}
