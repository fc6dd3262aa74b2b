use generator::decl::{BitflagsDecl, Description, EnumDecl, FlagConstant, Variant};
use generator::enums::{
    find_vendor_tag, generate_bitflags, generate_enum, generate_result, to_variant_ident,
    variant_ident_from_camel, EnumType,
};
use generator::error::GenError;
use generator::registry::{Enumeration, EnumerationElement, RegistryConstant};

fn numbered(name: &str, number: i32, notation: Option<&str>) -> EnumerationElement {
    EnumerationElement::Enum(RegistryConstant {
        name: name.to_string(),
        notation: notation.map(|s| s.to_string()),
        number: Some(number),
        hex: None,
        bitpos: None,
        c_expression: None,
    })
}

fn hexed(name: &str, hex: &str) -> EnumerationElement {
    EnumerationElement::Enum(RegistryConstant {
        name: name.to_string(),
        notation: None,
        number: None,
        hex: Some(hex.to_string()),
        bitpos: None,
        c_expression: None,
    })
}

fn bit(name: &str, pos: u32) -> EnumerationElement {
    EnumerationElement::Enum(RegistryConstant {
        name: name.to_string(),
        notation: None,
        number: None,
        hex: None,
        bitpos: Some(pos),
        c_expression: None,
    })
}

fn expression(name: &str, text: &str) -> EnumerationElement {
    EnumerationElement::Enum(RegistryConstant {
        name: name.to_string(),
        notation: None,
        number: None,
        hex: None,
        bitpos: None,
        c_expression: Some(text.to_string()),
    })
}

fn variant(name: &str, value: &str) -> Variant {
    Variant { name: name.to_string(), value: value.to_string() }
}

fn flag(name: &str, value: &str, bits: Option<u64>) -> FlagConstant {
    FlagConstant { name: name.to_string(), value: value.to_string(), bits }
}

#[test]
fn vendor_tags() {
    assert_eq!(find_vendor_tag("PresentModeKHR"), Some("KHR".chars().collect()));
    assert_eq!(find_vendor_tag("FooAMD"), Some("AMD".chars().collect()));
    assert_eq!(find_vendor_tag("FooNN"), Some("NN".chars().collect()));
    assert_eq!(find_vendor_tag("FooNV"), Some("NV".chars().collect()));
    assert_eq!(find_vendor_tag("FooEXT"), Some("EXT".chars().collect()));
    assert_eq!(find_vendor_tag("FooNVX"), Some("NVX".chars().collect()));
    assert_eq!(find_vendor_tag("FooKHX"), Some("KHX".chars().collect()));
    assert_eq!(find_vendor_tag("Result"), None);
    assert_eq!(find_vendor_tag("KHRFoo"), None);
    assert_eq!(find_vendor_tag(""), None);
}

#[test]
fn variant_identifiers() {
    assert_eq!(to_variant_ident("Result", "VK_SUCCESS"), Ok("Success".to_string()));
    assert_eq!(to_variant_ident("Result", "VK_NOT_READY"), Ok("NotReady".to_string()));
    assert_eq!(
        to_variant_ident("ImageLayout", "VK_IMAGE_LAYOUT_GENERAL"),
        Ok("General".to_string())
    );
}

#[test]
fn variant_identifier_that_would_start_with_a_digit() {
    assert_eq!(to_variant_ident("ImageType", "VK_IMAGE_TYPE_1D"), Ok("Type1d".to_string()));
}

#[test]
fn vendor_tag_is_stripped_from_both_names() {
    assert_eq!(
        to_variant_ident("PresentModeKHR", "VK_PRESENT_MODE_IMMEDIATE_KHR"),
        Ok("Immediate".to_string())
    );
}

#[test]
fn vendor_tag_is_stripped_wherever_it_stands() {
    assert_eq!(
        to_variant_ident("ModeNV", "VK_MODE_NVIDIA_NV"),
        Ok("Idia".to_string())
    );
}

#[test]
fn variant_name_too_short_for_the_prefix() {
    assert_eq!(to_variant_ident("Result", "V"), Err(GenError::ShortName));
    assert_eq!(to_variant_ident("Result", ""), Err(GenError::ShortName));
    assert_eq!(to_variant_ident("FooKHR", "KHR"), Err(GenError::ShortName));
}

#[test]
fn variant_from_camel_forms() {
    assert_eq!(variant_ident_from_camel("Result", "VkSuccess"), Ok("Success".to_string()));
    assert_eq!(variant_ident_from_camel("Ab", "VkAbXAbYAb"), Ok("XY".to_string()));
    assert_eq!(variant_ident_from_camel("", "VkSuccess"), Ok("Success".to_string()));
    assert_eq!(variant_ident_from_camel("Foo", "Vk2d"), Ok("Type2d".to_string()));
    assert_eq!(variant_ident_from_camel("Foo", "VkFoo"), Ok("".to_string()));
    assert_eq!(variant_ident_from_camel("Foo", "V"), Err(GenError::ShortName));
}

#[test]
fn result_enumeration() {
    let e = Enumeration {
        name: "VkResult".to_string(),
        elements: vec![
            numbered("VK_SUCCESS", 0, Some("Command completed successfully")),
            numbered("VK_NOT_READY", 1, None),
        ],
    };
    let expected = EnumDecl {
        name: "Result".to_string(),
        variants: vec![variant("Success", "0"), variant("NotReady", "1")],
        descriptions: Some(vec![
            Description {
                variant: "Success".to_string(),
                text: "Command completed successfully".to_string(),
            },
            Description { variant: "NotReady".to_string(), text: "".to_string() },
        ]),
    };
    assert_eq!(generate_enum(&e), Ok(EnumType::Enum(expected.clone())));
    assert_eq!(generate_result("Result", &e), Ok(expected));
}

#[test]
fn queue_flag_bits() {
    let e = Enumeration {
        name: "VkQueueFlagBits".to_string(),
        elements: vec![hexed("VK_QUEUE_GRAPHICS_BIT", "1"), hexed("VK_QUEUE_COMPUTE_BIT", "2")],
    };
    match generate_enum(&e) {
        Ok(EnumType::Bitflags(d)) => {
            assert_eq!(d.name, "QueueFlags");
            assert_eq!(d.all, 0b11);
            assert_eq!(
                d.constants,
                vec![
                    flag("QUEUE_GRAPHICS_BIT", "0x1", Some(1)),
                    flag("QUEUE_COMPUTE_BIT", "0x2", Some(2)),
                ]
            );
            assert_eq!(d.all().flags(), 0b11);
            assert_eq!(d.empty().flags(), 0);
            assert_eq!(d.constant(0).map(|c| c.flags()), Some(1));
            assert_eq!(d.constant(1).map(|c| c.flags()), Some(2));
            assert_eq!(d.constant(2), None);
        }
        other => panic!("not a bit-flag type: {:?}", other),
    }
}

#[test]
fn zero_constants_are_aliases() {
    let e = Enumeration {
        name: "VkCullModeFlagBits".to_string(),
        elements: vec![
            numbered("VK_CULL_MODE_NONE", 0, None),
            bit("VK_CULL_MODE_FRONT_BIT", 0),
            EnumerationElement::Notation("a remark".to_string()),
            bit("VK_CULL_MODE_BACK_BIT", 1),
            EnumerationElement::UnusedRange,
            hexed("VK_CULL_MODE_FRONT_AND_BACK", "3"),
        ],
    };
    let expected = BitflagsDecl {
        name: "CullModeFlags".to_string(),
        all: 0b11,
        constants: vec![
            flag("CULL_MODE_FRONT_BIT", "0b1", Some(1)),
            flag("CULL_MODE_BACK_BIT", "0b10", Some(2)),
            flag("CULL_MODE_FRONT_AND_BACK", "0x3", Some(3)),
        ],
    };
    assert_eq!(generate_enum(&e), Ok(EnumType::Bitflags(expected)));
}

#[test]
fn every_constant_is_within_the_mask() {
    let elements = vec![bit("VK_A_BIT", 0), bit("VK_B_BIT", 5), hexed("VK_C_BIT", "F0"), bit("VK_D_BIT", 31)];
    let d = generate_bitflags("TestFlags".to_string(), &elements).unwrap();
    assert_eq!(d.all, 0x8000_00f1);
    let mut union = 0u64;
    for c in &d.constants {
        let bits = c.bits.unwrap();
        assert_ne!(bits, 0);
        assert_eq!(bits & !d.all, 0);
        union |= bits;
    }
    assert_eq!(union, d.all);
}

#[test]
fn unresolved_flag_constant_is_declared_without_bits() {
    let elements = vec![bit("VK_A_BIT", 1), expression("VK_B_BIT", "(~0U)")];
    let d = generate_bitflags("TestFlags".to_string(), &elements).unwrap();
    assert_eq!(d.all, 0b10);
    assert_eq!(d.constants, vec![flag("A_BIT", "0b10", Some(2)), flag("B_BIT", "!0", None)]);
    assert_eq!(d.constant(1), None);
}

#[test]
fn empty_bit_flag_type() {
    let d = generate_bitflags("TestFlags".to_string(), &vec![]).unwrap();
    assert_eq!(d.all, 0);
    assert!(d.constants.is_empty());
}

#[test]
fn plain_enumeration() {
    let e = Enumeration {
        name: "VkImageType".to_string(),
        elements: vec![
            numbered("VK_IMAGE_TYPE_1D", 0, None),
            EnumerationElement::Notation("a remark".to_string()),
            numbered("VK_IMAGE_TYPE_2D", 1, None),
            hexed("VK_IMAGE_TYPE_3D", "2"),
        ],
    };
    let expected = EnumDecl {
        name: "ImageType".to_string(),
        variants: vec![variant("Type1d", "0"), variant("Type2d", "1"), variant("Type3d", "0x2")],
        descriptions: None,
    };
    assert_eq!(generate_enum(&e), Ok(EnumType::Enum(expected)));
}

#[test]
fn constant_without_value_is_skipped_in_a_plain_enumeration() {
    let e = Enumeration {
        name: "VkThing".to_string(),
        elements: vec![
            numbered("VK_THING_A", 1, None),
            expression("VK_THING_B", "(~0U)"),
            hexed("VK_THING_C", "not hex"),
            numbered("VK_THING_D", -4, None),
        ],
    };
    let expected = EnumDecl {
        name: "Thing".to_string(),
        variants: vec![variant("A", "1"), variant("D", "-4")],
        descriptions: None,
    };
    assert_eq!(generate_enum(&e), Ok(EnumType::Enum(expected)));
}

#[test]
fn enumeration_errors() {
    let short = Enumeration { name: "V".to_string(), elements: vec![] };
    assert_eq!(generate_enum(&short), Err(GenError::ShortName));
    let formless = Enumeration {
        name: "VkThing".to_string(),
        elements: vec![EnumerationElement::Enum(RegistryConstant {
            name: "VK_THING_A".to_string(),
            notation: None,
            number: None,
            hex: None,
            bitpos: None,
            c_expression: None,
        })],
    };
    assert_eq!(generate_enum(&formless), Err(GenError::NoValue));
    let bad_expression = Enumeration {
        name: "VkThingFlagBits".to_string(),
        elements: vec![expression("VK_THING_A_BIT", "whatever")],
    };
    assert_eq!(generate_enum(&bad_expression), Err(GenError::Expression));
    let high_bit = Enumeration {
        name: "VkThingFlagBits".to_string(),
        elements: vec![bit("VK_THING_A_BIT", 64)],
    };
    assert_eq!(generate_enum(&high_bit), Err(GenError::BitPosition));
    let short_constant = Enumeration {
        name: "VkThingFlagBits".to_string(),
        elements: vec![bit("VK", 1)],
    };
    assert_eq!(generate_enum(&short_constant), Err(GenError::ShortName));
}

#[test]
fn first_error_wins() {
    let e = Enumeration {
        name: "VkThingFlagBits".to_string(),
        elements: vec![bit("VK_OK_BIT", 1), bit("VK_HIGH_BIT", 64), expression("VK_BAD_BIT", "?")],
    };
    assert_eq!(generate_enum(&e), Err(GenError::BitPosition));
}

#[test]
fn highest_bit_of_a_narrow_mask() {
    let e = Enumeration {
        name: "VkTopFlagBits".to_string(),
        elements: vec![bit("VK_TOP_BIT", 31)],
    };
    match generate_enum(&e) {
        Ok(EnumType::Bitflags(d)) => {
            assert_eq!(d.all, 0x8000_0000);
            assert_eq!(d.constants[0].bits, Some(0x8000_0000));
            assert_eq!(d.constants[0].value, format!("0b{:b}", 0x8000_0000u64));
        }
        other => panic!("not a bit-flag type: {:?}", other),
    }
}

#[test]
fn wide_bit_positions() {
    let elements = vec![bit("VK_LOW_BIT", 0), bit("VK_WIDE_BIT", 40), bit("VK_TOP_BIT", 63)];
    let d = generate_bitflags("WideFlags".to_string(), &elements).unwrap();
    assert_eq!(d.all, 1 | (1 << 40) | (1 << 63));
    assert_eq!(d.constant(2).map(|c| c.flags()), Some(1 << 63));
}

#[test]
fn two_constants_with_one_identifier_fail_the_enumeration() {
    let e = Enumeration {
        name: "VkXKHR".to_string(),
        elements: vec![numbered("VK_A_KHR", 0, None), numbered("VK_A_KHRKHR", 1, None)],
    };
    assert_eq!(to_variant_ident("XKHR", "VK_A_KHR"), to_variant_ident("XKHR", "VK_A_KHRKHR"));
    assert_eq!(generate_enum(&e), Err(GenError::DuplicateIdentifier));
    let result = Enumeration {
        name: "VkResult".to_string(),
        elements: vec![numbered("VK_SUCCESS", 0, None), numbered("VK_success", 1, None)],
    };
    assert_eq!(generate_enum(&result), Err(GenError::DuplicateIdentifier));
}

#[test]
fn a_skipped_constant_takes_no_identifier() {
    let e = Enumeration {
        name: "VkThing".to_string(),
        elements: vec![expression("VK_THING_A", "(~0U)"), numbered("VK_THING_A", 1, None)],
    };
    let expected = EnumDecl {
        name: "Thing".to_string(),
        variants: vec![variant("A", "1")],
        descriptions: None,
    };
    assert_eq!(generate_enum(&e), Ok(EnumType::Enum(expected)));
}

#[test]
fn variant_identifiers_are_pairwise_distinct() {
    let e = Enumeration {
        name: "VkImageType".to_string(),
        elements: vec![
            numbered("VK_IMAGE_TYPE_1D", 0, None),
            numbered("VK_IMAGE_TYPE_2D", 1, None),
            numbered("VK_IMAGE_TYPE_3D", 2, None),
        ],
    };
    match generate_enum(&e) {
        Ok(EnumType::Enum(d)) => {
            for i in 0..d.variants.len() {
                for j in i + 1..d.variants.len() {
                    assert_ne!(d.variants[i].name, d.variants[j].name);
                }
            }
        }
        other => panic!("not an enumeration: {:?}", other),
    }
}

#[test]
fn two_flag_constants_with_one_name_fail_the_type() {
    let elements = vec![bit("VK_A_BIT", 0), bit("XX_A_BIT", 1)];
    assert_eq!(
        generate_bitflags("TestFlags".to_string(), &elements),
        Err(GenError::DuplicateIdentifier)
    );
    let aliases = vec![bit("VK_A_BIT", 0), numbered("XX_A_BIT", 0, None)];
    assert_eq!(
        generate_bitflags("TestFlags".to_string(), &aliases).map(|d| d.constants.len()),
        Ok(1)
    );
}

#[test]
fn an_earlier_error_comes_before_a_later_repeat() {
    let elements = vec![bit("VK_A_BIT", 0), bit("VK", 1), bit("XX_A_BIT", 2)];
    assert_eq!(generate_bitflags("TestFlags".to_string(), &elements), Err(GenError::ShortName));
    let elements = vec![bit("VK_A_BIT", 0), bit("XX_A_BIT", 2), bit("VK", 1)];
    assert_eq!(
        generate_bitflags("TestFlags".to_string(), &elements),
        Err(GenError::DuplicateIdentifier)
    );
}
