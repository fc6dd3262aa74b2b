use generator::cexpr::CType;
use generator::constant::{ConstVal, Constant};
use generator::error::GenError;
use generator::registry::{ExtensionConstant, RegistryConstant};
use generator::types::ToTokens;

fn registry_constant(
    number: Option<i32>,
    hex: Option<&str>,
    bitpos: Option<u32>,
    c_expression: Option<&str>,
) -> RegistryConstant {
    RegistryConstant {
        name: "VK_SAMPLE".to_string(),
        notation: None,
        number,
        hex: hex.map(|s| s.to_string()),
        bitpos,
        c_expression: c_expression.map(|s| s.to_string()),
    }
}

#[test]
fn bits_of_a_wide_value() {
    assert_eq!(ConstVal::U64(17).bits(), 17);
}

#[test]
fn value_of_a_number() {
    assert_eq!(Constant::Number(0).value(), Some(ConstVal::U64(0)));
    assert_eq!(Constant::Number(7).value(), Some(ConstVal::U64(7)));
    assert_eq!(Constant::Number(i32::MAX).value(), Some(ConstVal::U64(0x7fff_ffff)));
}

#[test]
fn value_of_a_negative_number_is_sign_extended() {
    assert_eq!(Constant::Number(-1).value(), Some(ConstVal::U64(u64::MAX)));
    assert_eq!(Constant::Number(-2).value(), Some(ConstVal::U64(u64::MAX - 1)));
    assert_eq!(
        Constant::Number(i32::MIN).value(),
        Some(ConstVal::U64(0xffff_ffff_8000_0000))
    );
}

#[test]
fn value_of_hexadecimal_text() {
    assert_eq!(Constant::Hex("1F".to_string()).value(), Some(ConstVal::U64(31)));
    assert_eq!(Constant::Hex("ff".to_string()).value(), Some(ConstVal::U64(255)));
    assert_eq!(Constant::Hex("+10".to_string()).value(), Some(ConstVal::U64(16)));
    assert_eq!(
        Constant::Hex("FFFFFFFFFFFFFFFF".to_string()).value(),
        Some(ConstVal::U64(u64::MAX))
    );
    assert_eq!(
        Constant::Hex("0000000000000000000001".to_string()).value(),
        Some(ConstVal::U64(1))
    );
}

#[test]
fn hexadecimal_text_that_is_no_number_has_no_value() {
    assert_eq!(Constant::Hex("".to_string()).value(), None);
    assert_eq!(Constant::Hex("+".to_string()).value(), None);
    assert_eq!(Constant::Hex("-1".to_string()).value(), None);
    assert_eq!(Constant::Hex("0x10".to_string()).value(), None);
    assert_eq!(Constant::Hex("12G".to_string()).value(), None);
    assert_eq!(Constant::Hex("10000000000000000".to_string()).value(), None);
}

#[test]
fn hexadecimal_value_agrees_with_the_standard_library() {
    for text in ["0", "7", "a", "AbC", "+ff", "deadBEEF", "", "+", "-", "xyz", "1 ", "fffffffffffffffff"] {
        assert_eq!(
            Constant::Hex(text.to_string()).value(),
            u64::from_str_radix(text, 16).ok().map(ConstVal::U64),
            "for {:?}",
            text
        );
    }
}

#[test]
fn value_of_a_bit_position() {
    assert_eq!(Constant::BitPos(0).value(), Some(ConstVal::U64(1)));
    assert_eq!(Constant::BitPos(3).value(), Some(ConstVal::U64(8)));
    assert_eq!(Constant::BitPos(30).value(), Some(ConstVal::U64(0x4000_0000)));
    assert_eq!(Constant::BitPos(31).value(), Some(ConstVal::U64(0x8000_0000)));
    assert_eq!(Constant::BitPos(32).value(), Some(ConstVal::U64(0x1_0000_0000)));
    assert_eq!(Constant::BitPos(63).value(), Some(ConstVal::U64(0x8000_0000_0000_0000)));
}

#[test]
fn every_bit_position_of_the_word_is_a_single_bit() {
    for pos in 0..64u32 {
        let value = Constant::BitPos(pos).value().unwrap().bits();
        assert_eq!(value, 1u64 << pos);
        assert_eq!(value.count_ones(), 1);
        let text = Constant::BitPos(pos).to_tokens().unwrap();
        assert_eq!(text, format!("0b{:b}", value));
    }
}

#[test]
fn bit_positions_beyond_the_word() {
    assert_eq!(Constant::BitPos(64).value(), None);
    assert_eq!(Constant::BitPos(u32::MAX).value(), None);
    assert_eq!(Constant::BitPos(64).to_tokens(), Err(GenError::BitPosition));
}

#[test]
fn expressions_and_text_have_no_value() {
    assert_eq!(Constant::CExpr("(~0U)".to_string()).value(), None);
    assert_eq!(Constant::Text("hello".to_string()).value(), None);
}

#[test]
fn scalar_types() {
    assert_eq!(Constant::Number(1).ty(), Ok(CType::USize));
    assert_eq!(Constant::Hex("1".to_string()).ty(), Ok(CType::USize));
    assert_eq!(Constant::CExpr("(~0U)".to_string()).ty(), Ok(CType::U32));
    assert_eq!(Constant::CExpr("(~0ULL)".to_string()).ty(), Ok(CType::U64));
    assert_eq!(Constant::CExpr("1000.0f".to_string()).ty(), Ok(CType::Float));
    assert_eq!(Constant::CExpr("nonsense".to_string()).ty(), Err(GenError::Expression));
    assert_eq!(Constant::BitPos(1).ty(), Err(GenError::Untyped));
    assert_eq!(Constant::Text("t".to_string()).ty(), Err(GenError::Untyped));
}

#[test]
fn texts_of_constants() {
    assert_eq!(Constant::Number(0).to_tokens(), Ok("0".to_string()));
    assert_eq!(Constant::Number(256).to_tokens(), Ok("256".to_string()));
    assert_eq!(Constant::Number(-17).to_tokens(), Ok("-17".to_string()));
    assert_eq!(Constant::Number(i32::MIN).to_tokens(), Ok("-2147483648".to_string()));
    assert_eq!(Constant::Number(i32::MAX).to_tokens(), Ok("2147483647".to_string()));
    assert_eq!(Constant::Hex("1F".to_string()).to_tokens(), Ok("0x1F".to_string()));
    assert_eq!(Constant::Text("name".to_string()).to_tokens(), Ok("\"name\"".to_string()));
    assert_eq!(
        Constant::Text("a \"b\" \\ c".to_string()).to_tokens(),
        Ok("\"a \\\"b\\\" \\\\ c\"".to_string())
    );
    assert_eq!(Constant::CExpr("(~0U-1)".to_string()).to_tokens(), Ok("!0-1".to_string()));
    assert_eq!(Constant::CExpr("1000.0f".to_string()).to_tokens(), Ok("1000.00".to_string()));
    assert_eq!(Constant::CExpr("?".to_string()).to_tokens(), Err(GenError::Expression));
    assert_eq!(Constant::BitPos(0).to_tokens(), Ok("0b1".to_string()));
    assert_eq!(Constant::BitPos(4).to_tokens(), Ok("0b10000".to_string()));
    assert_eq!(
        Constant::BitPos(31).to_tokens(),
        Ok("0b10000000000000000000000000000000".to_string())
    );
    assert_eq!(Constant::BitPos(63).to_tokens(), Ok(format!("0b1{}", "0".repeat(63))));
}

#[test]
fn first_present_form_wins() {
    assert_eq!(
        Constant::from_constant(&registry_constant(Some(1), Some("2"), Some(3), Some("(~0U)"))),
        Ok(Constant::Number(1))
    );
    assert_eq!(
        Constant::from_constant(&registry_constant(None, Some("2"), Some(3), Some("(~0U)"))),
        Ok(Constant::Hex("2".to_string()))
    );
    assert_eq!(
        Constant::from_constant(&registry_constant(None, None, Some(3), Some("(~0U)"))),
        Ok(Constant::BitPos(3))
    );
    assert_eq!(
        Constant::from_constant(&registry_constant(None, None, None, Some("(~0U)"))),
        Ok(Constant::CExpr("(~0U)".to_string()))
    );
}

#[test]
fn constant_without_any_form() {
    assert_eq!(
        Constant::from_constant(&registry_constant(None, None, None, None)),
        Err(GenError::NoValue)
    );
}

#[test]
fn extension_constant_may_be_text() {
    let mut c = ExtensionConstant {
        name: "VK_KHR_SURFACE_EXTENSION_NAME".to_string(),
        text: Some("VK_KHR_surface".to_string()),
        number: None,
        hex: None,
        bitpos: None,
        c_expression: None,
    };
    assert_eq!(Constant::from_extension(&c), Ok(Constant::Text("VK_KHR_surface".to_string())));
    c.bitpos = Some(2);
    assert_eq!(Constant::from_extension(&c), Ok(Constant::BitPos(2)));
    c.bitpos = None;
    c.text = None;
    assert_eq!(Constant::from_extension(&c), Err(GenError::NoValue));
}

#[test]
fn resolved_values_as_literals() {
    assert_eq!(ConstVal::U32(5).to_tokens(), "5u32");
    assert_eq!(ConstVal::U32(u32::MAX).to_tokens(), "4294967295u32");
    assert_eq!(ConstVal::U64(0).to_tokens(), "0u64");
    assert_eq!(ConstVal::U64(u64::MAX).to_tokens(), "18446744073709551615u64");
    assert_eq!(ConstVal::Float(1.0f32.to_bits()).to_tokens(), "f32::from_bits(1065353216u32)");
    assert_eq!(f32::from_bits(1065353216u32), 1.0);
}
