use generator::decl::{Aggregate, Alias, BitflagsDecl, Definition, FnPointerDecl, HandleDecl, Member};
use generator::definitions::{
    generate_bitmask, generate_definition, generate_funcptr, generate_handle, generate_struct,
    generate_typedef, generate_union, strip_prefix,
};
use generator::error::GenError;
use generator::registry::{
    ArrayType, Bitmask, DefinitionsElement, Field, FunctionPointer, Handle, HandleType,
    ReferenceType, Struct, StructElement, Typedef, Union,
};

fn definition_field(name: &str, basetype: &str) -> Field {
    Field {
        name: Some(name.to_string()),
        basetype: basetype.to_string(),
        reference: None,
        array: None,
        size: None,
        size_enumref: None,
    }
}

fn extent() -> Struct {
    Struct {
        name: "VkExtent2D".to_string(),
        elements: vec![
            StructElement::Notation("size of a rectangle".to_string()),
            StructElement::Member(definition_field("width", "uint32_t")),
            StructElement::Notation("in between".to_string()),
            StructElement::Member(definition_field("height", "uint32_t")),
        ],
    }
}

#[test]
fn prefix_of_two_characters() {
    assert_eq!(strip_prefix("VkDevice"), Ok("Device".to_string()));
    assert_eq!(strip_prefix("ab"), Ok("".to_string()));
    assert_eq!(strip_prefix("a"), Err(GenError::ShortName));
    assert_eq!(strip_prefix(""), Err(GenError::ShortName));
}

#[test]
fn typedefs() {
    let t = Typedef { name: "VkFlags".to_string(), basetype: "uint32_t".to_string() };
    assert_eq!(
        generate_typedef(&t),
        Alias { name: "Flags".to_string(), target: "uint32_t".to_string() }
    );
    let t = Typedef { name: "VkBool32".to_string(), basetype: "int".to_string() };
    assert_eq!(
        generate_typedef(&t),
        Alias { name: "Bool32".to_string(), target: "c_int".to_string() }
    );
}

#[test]
fn bit_mask_without_bits() {
    let b = Bitmask { name: "VkInstanceCreateFlags".to_string(), enumref: None };
    assert_eq!(
        generate_bitmask(&b),
        Ok(Some(BitflagsDecl { name: "InstanceCreateFlags".to_string(), all: 0, constants: vec![] }))
    );
}

#[test]
fn bit_mask_that_is_skipped() {
    let placeholder = Bitmask { name: "".to_string(), enumref: None };
    assert_eq!(generate_bitmask(&placeholder), Ok(None));
    let declared_elsewhere =
        Bitmask { name: "VkQueueFlags".to_string(), enumref: Some("VkQueueFlagBits".to_string()) };
    assert_eq!(generate_bitmask(&declared_elsewhere), Ok(None));
    let short = Bitmask { name: "V".to_string(), enumref: None };
    assert_eq!(generate_bitmask(&short), Err(GenError::ShortName));
}

#[test]
fn struct_fields_keep_their_order() {
    assert_eq!(
        generate_struct(&extent()),
        Ok(Aggregate {
            name: "Extent2D".to_string(),
            fields: vec![
                Member { name: "width".to_string(), ty: "uint32_t".to_string() },
                Member { name: "height".to_string(), ty: "uint32_t".to_string() },
            ],
        })
    );
}

#[test]
fn struct_with_an_array_and_a_pointer() {
    let mut name = definition_field("deviceName", "char");
    name.array = Some(ArrayType::Static);
    name.size_enumref = Some("VK_MAX_NAME".to_string());
    let mut next = definition_field("pNext", "void");
    next.reference = Some(ReferenceType::Pointer);
    let s = Struct {
        name: "VkProps".to_string(),
        elements: vec![StructElement::Member(next), StructElement::Member(name)],
    };
    assert_eq!(
        generate_struct(&s),
        Ok(Aggregate {
            name: "Props".to_string(),
            fields: vec![
                Member { name: "p_next".to_string(), ty: "*mut c_void".to_string() },
                Member { name: "device_name".to_string(), ty: "[c_char; VK_MAX_NAME]".to_string() },
            ],
        })
    );
}

#[test]
fn struct_with_an_array_without_size() {
    let mut bad = definition_field("values", "float");
    bad.array = Some(ArrayType::Static);
    let s = Struct {
        name: "VkBad".to_string(),
        elements: vec![
            StructElement::Member(definition_field("ok", "int")),
            StructElement::Member(bad),
            StructElement::Member(definition_field("later", "int")),
        ],
    };
    assert_eq!(generate_struct(&s), Err(GenError::ArraySize));
}

#[test]
fn empty_struct() {
    let s = Struct { name: "VkNothing".to_string(), elements: vec![] };
    assert_eq!(generate_struct(&s), Ok(Aggregate { name: "Nothing".to_string(), fields: vec![] }));
}

#[test]
fn unions() {
    let u = Union {
        name: "VkClearColorValue".to_string(),
        elements: vec![definition_field("float32", "float"), definition_field("int32", "int32_t")],
    };
    assert_eq!(
        generate_union(&u),
        Ok(Aggregate {
            name: "ClearColorValue".to_string(),
            fields: vec![
                Member { name: "float32".to_string(), ty: "c_float".to_string() },
                Member { name: "int32".to_string(), ty: "int32_t".to_string() },
            ],
        })
    );
}

#[test]
fn handles() {
    let d = Handle { name: "VkDevice".to_string(), ty: HandleType::Dispatch };
    assert_eq!(
        generate_handle(&d),
        Ok(Some(HandleDecl { name: "Device".to_string(), dispatchable: true }))
    );
    let n = Handle { name: "VkFence".to_string(), ty: HandleType::NoDispatch };
    assert_eq!(
        generate_handle(&n),
        Ok(Some(HandleDecl { name: "Fence".to_string(), dispatchable: false }))
    );
}

#[test]
fn placeholder_handle_is_skipped() {
    let h = Handle { name: "".to_string(), ty: HandleType::Dispatch };
    assert_eq!(generate_handle(&h), Ok(None));
    let h = Handle { name: "V".to_string(), ty: HandleType::NoDispatch };
    assert_eq!(generate_handle(&h), Err(GenError::ShortName));
}

#[test]
fn function_pointer_types() {
    let mut ret = definition_field("", "void");
    ret.reference = Some(ReferenceType::Pointer);
    let fp = FunctionPointer { name: "PFN_vkAllocationFunction".to_string(), return_type: ret };
    assert_eq!(
        generate_funcptr(&fp),
        Ok(FnPointerDecl {
            name: "PFN_vkAllocationFunction".to_string(),
            return_type: "*mut c_void".to_string(),
        })
    );
}

#[test]
fn definitions_by_kind() {
    let t = Typedef { name: "VkFlags".to_string(), basetype: "uint32_t".to_string() };
    assert_eq!(
        generate_definition(&DefinitionsElement::Typedef(t)),
        Ok(Some(Definition::Typedef(Alias {
            name: "Flags".to_string(),
            target: "uint32_t".to_string()
        })))
    );
    assert!(matches!(
        generate_definition(&DefinitionsElement::Struct(extent())),
        Ok(Some(Definition::Struct(_)))
    ));
    let u = Union { name: "VkU".to_string(), elements: vec![] };
    assert_eq!(
        generate_definition(&DefinitionsElement::Union(u)),
        Ok(Some(Definition::Union(Aggregate { name: "U".to_string(), fields: vec![] })))
    );
    let h = Handle { name: "".to_string(), ty: HandleType::Dispatch };
    assert_eq!(generate_definition(&DefinitionsElement::Handle(h)), Ok(None));
    let b = Bitmask { name: "VkAFlags".to_string(), enumref: None };
    assert!(matches!(
        generate_definition(&DefinitionsElement::Bitmask(b)),
        Ok(Some(Definition::Bitmask(_)))
    ));
    let fp = FunctionPointer { name: "PFN_x".to_string(), return_type: definition_field("", "void") };
    assert!(matches!(
        generate_definition(&DefinitionsElement::FuncPtr(fp)),
        Ok(Some(Definition::FuncPtr(_)))
    ));
    assert_eq!(generate_definition(&DefinitionsElement::Other), Ok(None));
}
