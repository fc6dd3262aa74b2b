//! The API registry as plain data: what the generators read of each node.
//!
//! Names are kept as the registry writes them (`VkDevice`, `vkCreateInstance`,
//! `VK_SUCCESS`); nothing here is normalized.

use vstd::prelude::*;

verus! {

/// How a field refers to its base type.
#[derive(Clone, Copy, Debug, PartialEq, Eq, Structural)]
pub enum ReferenceType {
    Pointer,
    PointerToPointer,
    PointerToConstPointer,
}

/// Whether an array field has a size that is known when the bindings are built.
#[derive(Clone, Copy, Debug, PartialEq, Eq, Structural)]
pub enum ArrayType {
    Dynamic,
    Static,
}

/// A member of a struct or union, a parameter of a command, or a return type.
#[derive(Clone, Debug, PartialEq, Eq)]
pub struct Field {
    pub name: Option<String>,
    pub basetype: String,
    pub reference: Option<ReferenceType>,
    pub array: Option<ArrayType>,
    /// The element count of a static array, as a number.
    pub size: Option<String>,
    /// The element count of a static array, as the name of a constant.
    pub size_enumref: Option<String>,
}

/// An entry point of the API.
#[derive(Clone, Debug, PartialEq, Eq)]
pub struct Command {
    pub name: String,
    pub return_type: Field,
    pub param: Vec<Field>,
}

/// A constant of the registry, top-level or inside an enumeration.  One of the
/// four value forms is expected to be present.
#[derive(Clone, Debug, PartialEq, Eq)]
pub struct RegistryConstant {
    pub name: String,
    pub notation: Option<String>,
    pub number: Option<i32>,
    pub hex: Option<String>,
    pub bitpos: Option<u32>,
    pub c_expression: Option<String>,
}

/// A constant that an extension declares; it may also be a text.
#[derive(Clone, Debug, PartialEq, Eq)]
pub struct ExtensionConstant {
    pub name: String,
    pub text: Option<String>,
    pub number: Option<i32>,
    pub hex: Option<String>,
    pub bitpos: Option<u32>,
    pub c_expression: Option<String>,
}

/// One element of an enumeration; only a constant declares something.
#[derive(Clone, Debug, PartialEq, Eq)]
pub enum EnumerationElement {
    Notation(String),
    Enum(RegistryConstant),
    UnusedRange,
}

/// An enumeration with its constants.
#[derive(Clone, Debug, PartialEq, Eq)]
pub struct Enumeration {
    pub name: String,
    pub elements: Vec<EnumerationElement>,
}

/// A name given to a base type.
#[derive(Clone, Debug, PartialEq, Eq)]
pub struct Typedef {
    pub name: String,
    pub basetype: String,
}

/// The type of a set of flags.
#[derive(Clone, Debug, PartialEq, Eq)]
pub struct Bitmask {
    pub name: String,
    /// The enumeration that declares the bits of this mask, if any does.
    pub enumref: Option<String>,
}

/// The kind of a handle.
#[derive(Clone, Copy, Debug, PartialEq, Eq, Structural)]
pub enum HandleType {
    Dispatch,
    NoDispatch,
}

/// An opaque reference to an object of the API.
#[derive(Clone, Debug, PartialEq, Eq)]
pub struct Handle {
    pub name: String,
    pub ty: HandleType,
}

/// One element of a struct; only a member is a field.
#[derive(Clone, Debug, PartialEq, Eq)]
pub enum StructElement {
    Notation(String),
    Member(Field),
}

/// A struct with its members in layout order.
#[derive(Clone, Debug, PartialEq, Eq)]
pub struct Struct {
    pub name: String,
    pub elements: Vec<StructElement>,
}

/// A union with its members.
#[derive(Clone, Debug, PartialEq, Eq)]
pub struct Union {
    pub name: String,
    pub elements: Vec<Field>,
}

/// The type of a callback.
#[derive(Clone, Debug, PartialEq, Eq)]
pub struct FunctionPointer {
    pub name: String,
    pub return_type: Field,
}

/// One definition of the registry.
#[derive(Clone, Debug, PartialEq, Eq)]
pub enum DefinitionsElement {
    Typedef(Typedef),
    Struct(Struct),
    Bitmask(Bitmask),
    Handle(Handle),
    FuncPtr(FunctionPointer),
    Union(Union),
    /// A node from which nothing is generated.
    Other,
}

/// One thing that a feature or an extension requires.
#[derive(Clone, Debug, PartialEq, Eq)]
pub enum Reference {
    /// A command, by its name in the registry.
    CommandReference(String),
    /// Anything else.
    Other,
}

/// One element of a feature or of an extension.
#[derive(Clone, Debug, PartialEq, Eq)]
pub enum Requirement {
    Notation(String),
    Require(Vec<Reference>),
    Remove(Vec<Reference>),
}

/// A core revision of the API.
#[derive(Clone, Debug, PartialEq, Eq)]
pub struct Feature {
    /// The version number written with ten digits after the point, as in
    /// `1.0000000000`.
    pub version: String,
    pub elements: Vec<Requirement>,
}

/// An optional bundle layered on the core API.
#[derive(Clone, Debug, PartialEq, Eq)]
pub struct Extension {
    pub name: String,
    pub elements: Vec<Requirement>,
}

/// One element of an `Enums` node.
#[derive(Clone, Debug, PartialEq, Eq)]
pub enum EnumsElement {
    Notation(String),
    Enumeration(Enumeration),
}

/// One top-level node of the registry.
#[derive(Clone, Debug, PartialEq, Eq)]
pub enum RegistryElement {
    Definitions(Vec<DefinitionsElement>),
    Constants(Vec<RegistryConstant>),
    Enums(Vec<EnumsElement>),
    Commands(Vec<Command>),
    Features(Vec<Feature>),
    Extensions(Vec<Extension>),
    /// A node from which nothing is generated.
    Other,
}

/// The whole registry.
#[derive(Clone, Debug, PartialEq, Eq)]
pub struct Registry {
    pub elements: Vec<RegistryElement>,
}

} // verus!
