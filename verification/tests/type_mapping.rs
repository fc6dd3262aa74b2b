use generator::error::GenError;
use generator::registry::{ArrayType, Field, ReferenceType};
use generator::types::{name_to_tokens, to_type_tokens, FieldExt, ToTokens};

fn plain_field(name: Option<&str>, basetype: &str) -> Field {
    Field {
        name: name.map(|s| s.to_string()),
        basetype: basetype.to_string(),
        reference: None,
        array: None,
        size: None,
        size_enumref: None,
    }
}

#[test]
fn foreign_scalars_are_mapped() {
    assert_eq!(name_to_tokens("HANDLE"), "*const c_void");
    assert_eq!(name_to_tokens("LPCWSTR"), "*const wchar_t");
    assert_eq!(name_to_tokens("DWORD"), "c_uint");
    assert_eq!(name_to_tokens("int"), "c_int");
    assert_eq!(name_to_tokens("void"), "c_void");
    assert_eq!(name_to_tokens("char"), "c_char");
    assert_eq!(name_to_tokens("float"), "c_float");
    assert_eq!(name_to_tokens("long"), "c_ulong");
}

#[test]
fn other_types_lose_the_prefix() {
    assert_eq!(name_to_tokens("VkDevice"), "Device");
    assert_eq!(name_to_tokens("Vk"), "");
    assert_eq!(name_to_tokens("uint32_t"), "uint32_t");
    assert_eq!(name_to_tokens("vkDevice"), "vkDevice");
    assert_eq!(name_to_tokens("V"), "V");
    assert_eq!(name_to_tokens(""), "");
}

#[test]
fn flag_bits_become_flags() {
    assert_eq!(name_to_tokens("VkQueueFlagBits"), "QueueFlags");
    assert_eq!(name_to_tokens("VkFlagBitsFlagBits"), "FlagsFlags");
    assert_eq!(name_to_tokens("FlagBit"), "FlagBit");
}

#[test]
fn pointer_qualifiers() {
    assert_eq!(ReferenceType::Pointer.to_tokens(), "*mut");
    assert_eq!(ReferenceType::PointerToPointer.to_tokens(), "*mut");
    assert_eq!(ReferenceType::PointerToConstPointer.to_tokens(), "*const");
}

#[test]
fn type_expressions() {
    assert_eq!(to_type_tokens("VkDevice", None), "Device");
    assert_eq!(to_type_tokens("void", Some(&ReferenceType::Pointer)), "*mut c_void");
    assert_eq!(
        to_type_tokens("char", Some(&ReferenceType::PointerToConstPointer)),
        "*const c_char"
    );
}

#[test]
fn field_identifiers() {
    assert_eq!(plain_field(Some("pCreateInfo"), "int").param_ident(), "p_create_info");
    assert_eq!(plain_field(Some("device"), "int").param_ident(), "device");
    assert_eq!(plain_field(Some("type"), "int").param_ident(), "ty");
    assert_eq!(plain_field(None, "int").param_ident(), "field");
    assert_eq!(plain_field(Some("sType"), "int").param_ident(), "s_type");
}

#[test]
fn field_types() {
    let mut f = plain_field(Some("x"), "VkDevice");
    assert_eq!(f.type_tokens(), Ok("Device".to_string()));
    f.reference = Some(ReferenceType::PointerToPointer);
    assert_eq!(f.type_tokens(), Ok("*mut Device".to_string()));
    f.array = Some(ArrayType::Dynamic);
    assert_eq!(f.type_tokens(), Ok("*mut Device".to_string()));
}

#[test]
fn static_arrays() {
    let mut f = plain_field(Some("x"), "float");
    f.array = Some(ArrayType::Static);
    f.size = Some("4".to_string());
    assert_eq!(f.type_tokens(), Ok("[c_float; 4]".to_string()));
    f.size_enumref = Some("VK_UUID_SIZE".to_string());
    assert_eq!(f.type_tokens(), Ok("[c_float; 4]".to_string()));
    f.size = None;
    assert_eq!(f.type_tokens(), Ok("[c_float; VK_UUID_SIZE]".to_string()));
    f.reference = Some(ReferenceType::Pointer);
    assert_eq!(f.type_tokens(), Ok("[c_float; VK_UUID_SIZE]".to_string()));
}

#[test]
fn static_array_without_size_is_an_error() {
    let mut f = plain_field(Some("x"), "float");
    f.array = Some(ArrayType::Static);
    assert_eq!(f.type_tokens(), Err(GenError::ArraySize));
}

#[test]
fn fields_are_duplicable() {
    assert!(plain_field(None, "int").is_clone());
}
