//! The declarations that the generators produce, one type for each kind of
//! unit of the bindings, and their views.

use crate::cexpr::CType;
use crate::flags::{Bitflags, FlagsView};
use crate::seqs::views;
use vstd::prelude::*;

verus! {

/// A named thing with a type expression: a field of a struct or union, or a
/// parameter of a command.
#[derive(Clone, Debug, PartialEq, Eq)]
pub struct Member {
    pub name: String,
    pub ty: String,
}

/// The view of [`Member`]: the same, with every text as a sequence of
/// characters.
pub ghost struct MemberView {
    pub name: Seq<char>,
    pub ty: Seq<char>,
}

impl View for Member {
    type V = MemberView;

    open spec fn view(&self) -> MemberView {
        MemberView { name: self.name@, ty: self.ty@ }
    }
}

/// One slot of a function table: a command to be resolved at load time.
#[derive(Clone, Debug, PartialEq, Eq)]
pub struct Slot {
    /// The identifier of the slot and of its forwarding wrapper.
    pub name: String,
    /// The name by which the command is resolved: its name in the registry.
    pub entry_point: String,
    pub params: Vec<Member>,
    pub return_type: String,
}

/// The view of [`Slot`]: the same, with every text as a sequence of
/// characters.
pub ghost struct SlotView {
    pub name: Seq<char>,
    pub entry_point: Seq<char>,
    pub params: Seq<MemberView>,
    pub return_type: Seq<char>,
}

impl View for Slot {
    type V = SlotView;

    open spec fn view(&self) -> SlotView {
        SlotView {
            name: self.name@,
            entry_point: self.entry_point@,
            params: views(self.params@),
            return_type: self.return_type@,
        }
    }
}

/// A function table: a type with one slot per command, in the given order.
#[derive(Clone, Debug, PartialEq, Eq)]
pub struct FnTable {
    pub name: String,
    pub slots: Vec<Slot>,
}

/// The view of [`FnTable`]: the same, with every text as a sequence of
/// characters.
pub ghost struct FnTableView {
    pub name: Seq<char>,
    pub slots: Seq<SlotView>,
}

impl View for FnTable {
    type V = FnTableView;

    open spec fn view(&self) -> FnTableView {
        FnTableView { name: self.name@, slots: views(self.slots@) }
    }
}

/// A named value: a variant of an enumeration with its discriminant, or a
/// constant of a bit-flag type with its bits.
#[derive(Clone, Debug, PartialEq, Eq)]
pub struct Variant {
    pub name: String,
    /// The text that stands for the value in the bindings.
    pub value: String,
}

/// The view of [`Variant`]: the same, with every text as a sequence of
/// characters.
pub ghost struct VariantView {
    pub name: Seq<char>,
    pub value: Seq<char>,
}

impl View for Variant {
    type V = VariantView;

    open spec fn view(&self) -> VariantView {
        VariantView { name: self.name@, value: self.value@ }
    }
}

/// The text that describes one variant of the result enumeration.
#[derive(Clone, Debug, PartialEq, Eq)]
pub struct Description {
    pub variant: String,
    pub text: String,
}

/// The view of [`Description`]: the same, with every text as a sequence of
/// characters.
pub ghost struct DescriptionView {
    pub variant: Seq<char>,
    pub text: Seq<char>,
}

impl View for Description {
    type V = DescriptionView;

    open spec fn view(&self) -> DescriptionView {
        DescriptionView { variant: self.variant@, text: self.text@ }
    }
}

/// A closed enumeration.  The result enumeration also carries a description
/// for each variant.
#[derive(Clone, Debug, PartialEq, Eq)]
pub struct EnumDecl {
    pub name: String,
    pub variants: Vec<Variant>,
    pub descriptions: Option<Vec<Description>>,
}

/// The view of [`EnumDecl`]: the same, with every text as a sequence of
/// characters.
pub ghost struct EnumDeclView {
    pub name: Seq<char>,
    pub variants: Seq<VariantView>,
    pub descriptions: Option<Seq<DescriptionView>>,
}

impl View for EnumDecl {
    type V = EnumDeclView;

    open spec fn view(&self) -> EnumDeclView {
        EnumDeclView {
            name: self.name@,
            variants: views(self.variants@),
            descriptions: match self.descriptions {
                Some(d) => Some(views(d@)),
                None => None,
            },
        }
    }
}

/// A constant of a bit-flag type.
#[derive(Clone, Debug, PartialEq, Eq)]
pub struct FlagConstant {
    pub name: String,
    /// The text that stands for the constant's bits in the bindings.
    pub value: String,
    /// The bits themselves, where the registry's form resolves to a value.
    pub bits: Option<u64>,
}

/// The view of [`FlagConstant`]: the same, with every text as a sequence of
/// characters.
pub ghost struct FlagConstantView {
    pub name: Seq<char>,
    pub value: Seq<char>,
    pub bits: Option<u64>,
}

impl View for FlagConstant {
    type V = FlagConstantView;

    open spec fn view(&self) -> FlagConstantView {
        FlagConstantView { name: self.name@, value: self.value@, bits: self.bits }
    }
}

/// A bit-flag type: its constants, and the mask of all the bits it declares.
/// Every value of the type has the algebra of [`Bitflags`] over that mask.
#[derive(Clone, Debug, PartialEq, Eq)]
pub struct BitflagsDecl {
    pub name: String,
    pub all: u64,
    pub constants: Vec<FlagConstant>,
}

/// The view of [`BitflagsDecl`]: the same, with every text as a sequence of
/// characters.
pub ghost struct BitflagsDeclView {
    pub name: Seq<char>,
    pub all: u64,
    pub constants: Seq<FlagConstantView>,
}

/// The bitwise OR of the resolved bits of the given constants.
pub open spec fn or_of_bits(constants: Seq<FlagConstantView>) -> u64
    decreases constants.len(),
{
    if constants.len() == 0 {
        0
    } else {
        or_of_bits(constants.drop_last()) | match constants.last().bits {
            Some(v) => v,
            None => 0,
        }
    }
}

impl BitflagsDeclView {
    /// The mask is the bitwise OR of the resolved bits of the declared
    /// constants.
    pub open spec fn mask_is_union(self) -> bool {
        self.all == or_of_bits(self.constants)
    }

    /// Every constant with resolved bits has some bit set, and all its bits
    /// lie within the mask.
    pub open spec fn covers_constants(self) -> bool {
        forall|i: int|
            0 <= i < self.constants.len() ==> match (#[trigger] self.constants[i]).bits {
                Some(v) => v != 0 && v & !self.all == 0,
                None => true,
            }
    }
}

impl View for BitflagsDecl {
    type V = BitflagsDeclView;

    open spec fn view(&self) -> BitflagsDeclView {
        BitflagsDeclView { name: self.name@, all: self.all, constants: views(self.constants@) }
    }
}

impl BitflagsDecl {
    /// The value of the declared type that has every declared bit.
    pub fn all(&self) -> (r: Bitflags)
        ensures
            r@ == (FlagsView { all: self.all, flags: self.all }),
    {
        Bitflags::all(self.all)
    }

    /// The value of the declared type that has no bit.
    pub fn empty(&self) -> (r: Bitflags)
        ensures
            r@ == (FlagsView { all: self.all, flags: 0 }),
    {
        Bitflags::empty(self.all)
    }

    /// The `index`-th declared constant as a value of the declared type;
    /// `None` where there is no such constant or its bits are not resolved.
    pub fn constant(&self, index: usize) -> (r: Option<Bitflags>)
        ensures
            match r {
                Some(v) => index < self.constants.len() && self.constants[index as int].bits
                    == Some(v@.flags) && v@.all == self.all,
                None => index >= self.constants.len() || self.constants[index as int].bits
                    is None,
            },
    {
        if index < self.constants.len() {
            match self.constants[index].bits {
                Some(bits) => Some(Bitflags::new(self.all, bits)),
                None => None,
            }
        } else {
            None
        }
    }
}

/// A struct or a union: its fields in the order of the registry.
#[derive(Clone, Debug, PartialEq, Eq)]
pub struct Aggregate {
    pub name: String,
    pub fields: Vec<Member>,
}

/// The view of [`Aggregate`]: the same, with every text as a sequence of
/// characters.
pub ghost struct AggregateView {
    pub name: Seq<char>,
    pub fields: Seq<MemberView>,
}

impl View for Aggregate {
    type V = AggregateView;

    open spec fn view(&self) -> AggregateView {
        AggregateView { name: self.name@, fields: views(self.fields@) }
    }
}

/// An opaque handle.  A dispatchable handle is pointer-sized and offers only
/// its null value; a non-dispatchable one is a 64-bit integer with total
/// order, equality, hashing, a null value and a hexadecimal rendering.
#[derive(Clone, Debug, PartialEq, Eq)]
pub struct HandleDecl {
    pub name: String,
    pub dispatchable: bool,
}

/// The view of [`HandleDecl`]: the same, with every text as a sequence of
/// characters.
pub ghost struct HandleDeclView {
    pub name: Seq<char>,
    pub dispatchable: bool,
}

impl View for HandleDecl {
    type V = HandleDeclView;

    open spec fn view(&self) -> HandleDeclView {
        HandleDeclView { name: self.name@, dispatchable: self.dispatchable }
    }
}

/// A name for a type expression.
#[derive(Clone, Debug, PartialEq, Eq)]
pub struct Alias {
    pub name: String,
    pub target: String,
}

/// The view of [`Alias`]: the same, with every text as a sequence of
/// characters.
pub ghost struct AliasView {
    pub name: Seq<char>,
    pub target: Seq<char>,
}

impl View for Alias {
    type V = AliasView;

    open spec fn view(&self) -> AliasView {
        AliasView { name: self.name@, target: self.target@ }
    }
}

/// A name for the type of a function without parameters that returns the
/// given type.
#[derive(Clone, Debug, PartialEq, Eq)]
pub struct FnPointerDecl {
    pub name: String,
    pub return_type: String,
}

/// The view of [`FnPointerDecl`]: the same, with every text as a sequence of
/// characters.
pub ghost struct FnPointerDeclView {
    pub name: Seq<char>,
    pub return_type: Seq<char>,
}

impl View for FnPointerDecl {
    type V = FnPointerDeclView;

    open spec fn view(&self) -> FnPointerDeclView {
        FnPointerDeclView { name: self.name@, return_type: self.return_type@ }
    }
}

/// What a definition of the registry becomes.
#[derive(Clone, Debug, PartialEq, Eq)]
pub enum Definition {
    Typedef(Alias),
    Struct(Aggregate),
    Bitmask(BitflagsDecl),
    Handle(HandleDecl),
    FuncPtr(FnPointerDecl),
    Union(Aggregate),
}

/// The view of [`Definition`]: the same, with every text as a sequence of
/// characters.
pub ghost enum DefinitionView {
    Typedef(AliasView),
    Struct(AggregateView),
    Bitmask(BitflagsDeclView),
    Handle(HandleDeclView),
    FuncPtr(FnPointerDeclView),
    Union(AggregateView),
}

impl View for Definition {
    type V = DefinitionView;

    open spec fn view(&self) -> DefinitionView {
        match *self {
            Definition::Typedef(d) => DefinitionView::Typedef(d@),
            Definition::Struct(d) => DefinitionView::Struct(d@),
            Definition::Bitmask(d) => DefinitionView::Bitmask(d@),
            Definition::Handle(d) => DefinitionView::Handle(d@),
            Definition::FuncPtr(d) => DefinitionView::FuncPtr(d@),
            Definition::Union(d) => DefinitionView::Union(d@),
        }
    }
}

/// The function tables of one core revision: one for its instance-level
/// commands and one for its device-level commands, each present where the
/// revision has such commands.
#[derive(Clone, Debug, PartialEq, Eq)]
pub struct CoreSpec {
    pub instance: Option<FnTable>,
    pub device: Option<FnTable>,
}

/// The view of [`CoreSpec`]: the same, with every text as a sequence of
/// characters.
pub ghost struct CoreSpecView {
    pub instance: Option<FnTableView>,
    pub device: Option<FnTableView>,
}

impl View for CoreSpec {
    type V = CoreSpecView;

    open spec fn view(&self) -> CoreSpecView {
        CoreSpecView {
            instance: match self.instance {
                Some(t) => Some(t@),
                None => None,
            },
            device: match self.device {
                Some(t) => Some(t@),
                None => None,
            },
        }
    }
}

/// A named constant with its scalar type.
#[derive(Clone, Debug, PartialEq, Eq)]
pub struct ConstDecl {
    pub name: String,
    pub ty: CType,
    pub value: String,
}

/// The view of [`ConstDecl`]: the same, with every text as a sequence of
/// characters.
pub ghost struct ConstDeclView {
    pub name: Seq<char>,
    pub ty: CType,
    pub value: Seq<char>,
}

impl View for ConstDecl {
    type V = ConstDeclView;

    open spec fn view(&self) -> ConstDeclView {
        ConstDeclView { name: self.name@, ty: self.ty, value: self.value@ }
    }
}

} // verus!
