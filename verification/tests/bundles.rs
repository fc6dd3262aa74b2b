use generator::assemble::{
    generate_constant, generate_core_spec, generate_extension, partition_commands,
    required_commands,
};
use generator::cexpr::CType;
use generator::command::CommandMap;
use generator::decl::ConstDecl;
use generator::error::GenError;
use generator::registry::{
    Command, Extension, Feature, Field, Reference, RegistryConstant, Requirement,
};

fn bundle_field(basetype: &str) -> Field {
    Field {
        name: Some("x".to_string()),
        basetype: basetype.to_string(),
        reference: None,
        array: None,
        size: None,
        size_enumref: None,
    }
}

fn bundle_command(name: &str, first: Option<&str>) -> Command {
    Command {
        name: name.to_string(),
        return_type: bundle_field("void"),
        param: first.iter().map(|t| bundle_field(t)).collect(),
    }
}

fn known_commands() -> Vec<Command> {
    vec![
        bundle_command("vkCreateInstance", Some("VkInstanceCreateInfo")),
        bundle_command("vkDestroyDevice", Some("VkDevice")),
        bundle_command("vkEnumerateVersion", None),
        bundle_command("vkQueueSubmit", Some("VkQueue")),
    ]
}

fn index_of(commands: &Vec<Command>) -> CommandMap<'_> {
    let mut index = CommandMap::new();
    for c in commands {
        index.insert(c);
    }
    index
}

fn requiring(names: &[&str]) -> Requirement {
    Requirement::Require(
        names.iter().map(|n| Reference::CommandReference(n.to_string())).collect(),
    )
}

fn top_constant(name: &str) -> RegistryConstant {
    RegistryConstant {
        name: name.to_string(),
        notation: None,
        number: None,
        hex: None,
        bitpos: None,
        c_expression: None,
    }
}

#[test]
fn unknown_references_are_dropped() {
    let commands = known_commands();
    let index = index_of(&commands);
    let elements = vec![
        requiring(&["vkDestroyDevice", "vkUnknown"]),
        Requirement::Notation("remark".to_string()),
        Requirement::Remove(vec![Reference::CommandReference("vkQueueSubmit".to_string())]),
        Requirement::Require(vec![
            Reference::Other,
            Reference::CommandReference("vkCreateInstance".to_string()),
        ]),
    ];
    let found: Vec<&str> =
        required_commands(&elements, &index).iter().map(|c| c.name.as_str()).collect();
    assert_eq!(found, vec!["vkDestroyDevice", "vkCreateInstance"]);
}

#[test]
fn a_command_required_twice_is_found_twice() {
    let commands = known_commands();
    let index = index_of(&commands);
    let elements = vec![requiring(&["vkQueueSubmit"]), requiring(&["vkQueueSubmit"])];
    assert_eq!(required_commands(&elements, &index).len(), 2);
}

#[test]
fn partition_keeps_the_order() {
    let commands = known_commands();
    let refs: Vec<&Command> = commands.iter().collect();
    let (instance, device) = partition_commands(&refs);
    let instance: Vec<&str> = instance.iter().map(|c| c.name.as_str()).collect();
    let device: Vec<&str> = device.iter().map(|c| c.name.as_str()).collect();
    assert_eq!(instance, vec!["vkCreateInstance", "vkEnumerateVersion"]);
    assert_eq!(device, vec!["vkDestroyDevice", "vkQueueSubmit"]);
}

#[test]
fn extension_table() {
    let commands = known_commands();
    let index = index_of(&commands);
    let ext = Extension {
        name: "VK_KHR_surface".to_string(),
        elements: vec![requiring(&["vkQueueSubmit", "vkMissing", "vkCreateInstance"])],
    };
    let table = generate_extension(&ext, &index).unwrap().unwrap();
    assert_eq!(table.name, "KhrSurfaceFn");
    let slots: Vec<&str> = table.slots.iter().map(|s| s.name.as_str()).collect();
    assert_eq!(slots, vec!["queue_submit", "create_instance"]);
}

#[test]
fn extension_without_known_commands_gives_nothing() {
    let commands = known_commands();
    let index = index_of(&commands);
    let ext = Extension { name: "VK_EXT_nothing".to_string(), elements: vec![requiring(&["vkMissing"])] };
    assert_eq!(generate_extension(&ext, &index), Ok(None));
    let ext = Extension { name: "".to_string(), elements: vec![] };
    assert_eq!(generate_extension(&ext, &index), Ok(None));
}

#[test]
fn extension_with_a_short_name_still_gets_a_table() {
    let commands = known_commands();
    let index = index_of(&commands);
    let ext = Extension { name: "".to_string(), elements: vec![requiring(&["vkQueueSubmit"])] };
    assert_eq!(generate_extension(&ext, &index).unwrap().unwrap().name, "");
    let ext = Extension { name: "x".to_string(), elements: vec![requiring(&["vkQueueSubmit"])] };
    assert_eq!(generate_extension(&ext, &index).unwrap().unwrap().name, "n");
}

#[test]
fn core_revision_tables() {
    let commands = known_commands();
    let index = index_of(&commands);
    let feature = Feature {
        version: "1.0000000000".to_string(),
        elements: vec![requiring(&[
            "vkCreateInstance",
            "vkDestroyDevice",
            "vkGone",
            "vkEnumerateVersion",
            "vkQueueSubmit",
        ])],
    };
    let spec = generate_core_spec(&feature, &index).unwrap();
    let instance = spec.instance.unwrap();
    let device = spec.device.unwrap();
    assert_eq!(instance.name, "InstanceFnV1_0");
    assert_eq!(device.name, "DeviceFnV1_0");
    let names: Vec<&str> = instance.slots.iter().map(|s| s.entry_point.as_str()).collect();
    assert_eq!(names, vec!["vkCreateInstance", "vkEnumerateVersion"]);
    let names: Vec<&str> = device.slots.iter().map(|s| s.entry_point.as_str()).collect();
    assert_eq!(names, vec!["vkDestroyDevice", "vkQueueSubmit"]);
}

#[test]
fn empty_bucket_gives_no_table() {
    let commands = known_commands();
    let index = index_of(&commands);
    let feature = Feature {
        version: "1.1000000238".to_string(),
        elements: vec![requiring(&["vkDestroyDevice"])],
    };
    let spec = generate_core_spec(&feature, &index).unwrap();
    assert_eq!(spec.instance, None);
    assert_eq!(spec.device.unwrap().name, "DeviceFnV1_10");
    let feature = Feature { version: "1.0000000000".to_string(), elements: vec![] };
    let spec = generate_core_spec(&feature, &index).unwrap();
    assert_eq!(spec.instance, None);
    assert_eq!(spec.device, None);
}

#[test]
fn core_revision_with_a_bad_version() {
    let commands = known_commands();
    let index = index_of(&commands);
    let feature = Feature { version: "1.1".to_string(), elements: vec![] };
    assert_eq!(generate_core_spec(&feature, &index), Err(GenError::Version));
}

#[test]
fn top_level_constants() {
    let mut c = top_constant("VK_MAX_MEMORY_TYPES");
    c.number = Some(32);
    assert_eq!(
        generate_constant(&c),
        Ok(ConstDecl { name: "VK_MAX_MEMORY_TYPES".to_string(), ty: CType::USize, value: "32".to_string() })
    );
    let mut c = top_constant("VK_WHOLE_SIZE");
    c.c_expression = Some("(~0ULL)".to_string());
    assert_eq!(
        generate_constant(&c),
        Ok(ConstDecl { name: "VK_WHOLE_SIZE".to_string(), ty: CType::U64, value: "!0".to_string() })
    );
    let mut c = top_constant("VK_LOD_CLAMP_NONE");
    c.c_expression = Some("1000.0f".to_string());
    assert_eq!(
        generate_constant(&c),
        Ok(ConstDecl { name: "VK_LOD_CLAMP_NONE".to_string(), ty: CType::Float, value: "1000.00".to_string() })
    );
    let mut c = top_constant("VK_SUBPASS_EXTERNAL");
    c.c_expression = Some("(~0U)".to_string());
    assert_eq!(
        generate_constant(&c),
        Ok(ConstDecl { name: "VK_SUBPASS_EXTERNAL".to_string(), ty: CType::U32, value: "!0".to_string() })
    );
    let mut c = top_constant("VK_HEX");
    c.hex = Some("ff".to_string());
    assert_eq!(
        generate_constant(&c),
        Ok(ConstDecl { name: "VK_HEX".to_string(), ty: CType::USize, value: "0xff".to_string() })
    );
}

#[test]
fn top_level_constant_errors() {
    assert_eq!(generate_constant(&top_constant("VK_NONE")), Err(GenError::NoValue));
    let mut c = top_constant("VK_BAD");
    c.c_expression = Some("sizeof(int)".to_string());
    assert_eq!(generate_constant(&c), Err(GenError::Expression));
    let mut c = top_constant("VK_BIT");
    c.bitpos = Some(3);
    assert_eq!(generate_constant(&c), Err(GenError::Untyped));
    let mut c = top_constant("VK_HIGH_BIT");
    c.bitpos = Some(32);
    assert_eq!(generate_constant(&c), Err(GenError::Untyped));
    let mut c = top_constant("VK_BEYOND");
    c.bitpos = Some(64);
    assert_eq!(generate_constant(&c), Err(GenError::BitPosition));
}
