use generator::cexpr::CType;
use generator::decl::{ConstDecl, Definition};
use generator::error::GenError;
use generator::registry::{
    Command, DefinitionsElement, EnumsElement, Enumeration, EnumerationElement, Extension,
    Feature, Field, Handle, HandleType, Reference, Registry, RegistryConstant, RegistryElement,
    Requirement, Typedef,
};
use generator::source::generate_source;

fn pass_field(basetype: &str) -> Field {
    Field {
        name: Some("x".to_string()),
        basetype: basetype.to_string(),
        reference: None,
        array: None,
        size: None,
        size_enumref: None,
    }
}

fn pass_constant(name: &str, number: Option<i32>, bitpos: Option<u32>) -> RegistryConstant {
    RegistryConstant {
        name: name.to_string(),
        notation: None,
        number,
        hex: None,
        bitpos,
        c_expression: None,
    }
}

fn small_registry() -> Registry {
    Registry {
        elements: vec![
            RegistryElement::Other,
            RegistryElement::Constants(vec![pass_constant("VK_TRUE", Some(1), None)]),
            RegistryElement::Definitions(vec![
                DefinitionsElement::Typedef(Typedef {
                    name: "VkFlags".to_string(),
                    basetype: "uint32_t".to_string(),
                }),
                DefinitionsElement::Other,
                DefinitionsElement::Handle(Handle { name: "".to_string(), ty: HandleType::Dispatch }),
                DefinitionsElement::Handle(Handle {
                    name: "VkFence".to_string(),
                    ty: HandleType::NoDispatch,
                }),
            ]),
            RegistryElement::Enums(vec![
                EnumsElement::Notation("remark".to_string()),
                EnumsElement::Enumeration(Enumeration {
                    name: "VkResult".to_string(),
                    elements: vec![EnumerationElement::Enum(pass_constant("VK_SUCCESS", Some(0), None))],
                }),
                EnumsElement::Enumeration(Enumeration {
                    name: "VkQueueFlagBits".to_string(),
                    elements: vec![EnumerationElement::Enum(pass_constant(
                        "VK_QUEUE_GRAPHICS_BIT",
                        None,
                        Some(0),
                    ))],
                }),
            ]),
            RegistryElement::Commands(vec![
                Command {
                    name: "vkCreateInstance".to_string(),
                    return_type: pass_field("VkResult"),
                    param: vec![pass_field("VkInstanceCreateInfo")],
                },
                Command {
                    name: "vkQueueSubmit".to_string(),
                    return_type: pass_field("VkResult"),
                    param: vec![pass_field("VkQueue")],
                },
            ]),
            RegistryElement::Features(vec![Feature {
                version: "1.0000000000".to_string(),
                elements: vec![Requirement::Require(vec![
                    Reference::CommandReference("vkCreateInstance".to_string()),
                    Reference::CommandReference("vkQueueSubmit".to_string()),
                ])],
            }]),
            RegistryElement::Extensions(vec![
                Extension { name: "VK_KHR_empty".to_string(), elements: vec![] },
                Extension {
                    name: "VK_KHR_swapchain".to_string(),
                    elements: vec![Requirement::Require(vec![Reference::CommandReference(
                        "vkQueueSubmit".to_string(),
                    )])],
                },
            ]),
            RegistryElement::Constants(vec![pass_constant("VK_FALSE", Some(0), None)]),
        ],
    }
}

#[test]
fn units_of_a_small_registry() {
    let source = generate_source(&small_registry()).unwrap();
    assert_eq!(source.enums.len(), 1);
    assert_eq!(source.enums[0].name, "Result");
    assert!(source.enums[0].descriptions.is_some());
    assert_eq!(source.bitflags.len(), 1);
    assert_eq!(source.bitflags[0].name, "QueueFlags");
    assert_eq!(source.bitflags[0].all, 1);
    assert_eq!(source.definitions.len(), 2);
    assert!(matches!(source.definitions[0], Definition::Typedef(_)));
    assert!(matches!(source.definitions[1], Definition::Handle(_)));
    assert_eq!(source.features.len(), 1);
    assert_eq!(source.features[0].instance.as_ref().unwrap().name, "InstanceFnV1_0");
    assert_eq!(source.features[0].device.as_ref().unwrap().slots.len(), 1);
    assert_eq!(source.extensions.len(), 1);
    assert_eq!(source.extensions[0].name, "KhrSwapchainFn");
    assert_eq!(
        source.constants,
        vec![
            ConstDecl { name: "VK_TRUE".to_string(), ty: CType::USize, value: "1".to_string() },
            ConstDecl { name: "VK_FALSE".to_string(), ty: CType::USize, value: "0".to_string() },
        ]
    );
}

#[test]
fn empty_registry() {
    let source = generate_source(&Registry { elements: vec![] }).unwrap();
    assert!(source.enums.is_empty());
    assert!(source.bitflags.is_empty());
    assert!(source.definitions.is_empty());
    assert!(source.features.is_empty());
    assert!(source.extensions.is_empty());
    assert!(source.constants.is_empty());
}

#[test]
fn a_defect_anywhere_fails_the_pass() {
    let mut registry = small_registry();
    registry.elements.push(RegistryElement::Constants(vec![pass_constant("VK_NOTHING", None, None)]));
    assert_eq!(generate_source(&registry), Err(GenError::NoValue));
}

#[test]
fn errors_come_in_the_order_of_generation() {
    let mut registry = small_registry();
    registry.elements.insert(
        0,
        RegistryElement::Constants(vec![pass_constant("VK_NOTHING", None, None)]),
    );
    registry.elements.push(RegistryElement::Enums(vec![EnumsElement::Enumeration(Enumeration {
        name: "V".to_string(),
        elements: vec![],
    })]));
    assert_eq!(generate_source(&registry), Err(GenError::ShortName));
}
