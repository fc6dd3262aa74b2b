//! The text of the bindings: one unit of source text for each declaration.
//!
//! Handles and bit-flag types are written as invocations of three macros,
//! whose definitions [`define_handle_macro`], [`handle_nondispatchable_macro`]
//! and [`vk_bitflags_wrapped_macro`] give.

use crate::decl::{
    Aggregate, AggregateView, Alias, AliasView, BitflagsDecl, BitflagsDeclView, ConstDecl,
    ConstDeclView, CoreSpec, CoreSpecView, Definition, DefinitionView, Description,
    DescriptionView, EnumDecl, EnumDeclView, FlagConstant, FlagConstantView, FnPointerDecl,
    FnPointerDeclView, FnTable, FnTableView, HandleDecl, HandleDeclView, Member, MemberView, Slot,
    SlotView, Variant, VariantView,
};
use crate::seqs::views;
use crate::source::{Source, SourceView};
use crate::text::{binary_string, binary_text, escape, escaped};
use vstd::prelude::*;
use vstd::string::StringExecFns;

verus! {

/// The definition of the macro that declares a dispatchable handle: a
/// pointer-sized opaque value that offers only its null value.
pub const DEFINE_HANDLE: &'static str = "macro_rules! define_handle {
    ($name: ident) => {
        #[derive(Clone, Copy, Debug)]
        #[repr(C)]
        pub struct $name {
            ptr: *mut u8,
        }

        unsafe impl Send for $name {}
        unsafe impl Sync for $name {}

        impl $name {
            pub unsafe fn null() -> Self {
                $name {
                    ptr: ::std::ptr::null_mut(),
                }
            }
        }
    };
}
";

/// The definition of the macro that declares a non-dispatchable handle: a
/// 64-bit number with order, equality, hashing, a null value and a rendering
/// as a pointer.
pub const HANDLE_NONDISPATCHABLE: &'static str = "macro_rules! handle_nondispatchable {
    ($name: ident) => {
        #[repr(C)]
        #[derive(Eq, PartialEq, Ord, PartialOrd, Clone, Copy, Hash)]
        pub struct $name(uint64_t);

        impl $name {
            pub fn null() -> $name {
                $name(0)
            }
        }

        impl ::std::fmt::Pointer for $name {
            fn fmt(&self, f: &mut ::std::fmt::Formatter) -> ::std::result::Result<(), ::std::fmt::Error> {
                write!(f, \"0x{:x}\", self.0)
            }
        }

        impl ::std::fmt::Debug for $name {
            fn fmt(&self, f: &mut ::std::fmt::Formatter) -> ::std::result::Result<(), ::std::fmt::Error> {
                write!(f, \"0x{:x}\", self.0)
            }
        }
    };
}
";

/// The definition of the macro that declares a bit-flag type from its name,
/// the mask of all its bits and the type of its raw word.
pub const VK_BITFLAGS_WRAPPED: &'static str = "macro_rules! vk_bitflags_wrapped {
    ($name: ident, $all: expr, $flag_type: ty) => {
        #[repr(C)]
        #[derive(Clone, Copy, PartialEq, Eq, PartialOrd, Ord, Hash)]
        pub struct $name {
            flags: $flag_type,
        }

        impl Default for $name {
            fn default() -> $name {
                $name { flags: 0 }
            }
        }

        impl ::std::fmt::Debug for $name {
            fn fmt(&self, f: &mut ::std::fmt::Formatter) -> ::std::result::Result<(), ::std::fmt::Error> {
                write!(f, \"{}({:b})\", stringify!($name), self.flags)
            }
        }

        impl $name {
            #[inline]
            pub fn empty() -> $name {
                $name { flags: 0 }
            }

            #[inline]
            pub fn all() -> $name {
                $name { flags: $all }
            }

            #[inline]
            pub fn flags(self) -> $flag_type {
                self.flags
            }

            #[inline]
            pub fn from_flags(flags: $flag_type) -> Option<$name> {
                if flags & !$all == 0 {
                    Some($name { flags: flags })
                } else {
                    None
                }
            }

            #[inline]
            pub fn from_flags_truncate(flags: $flag_type) -> $name {
                $name { flags: flags & $all }
            }

            #[inline]
            pub fn is_empty(self) -> bool {
                self == $name::empty()
            }

            #[inline]
            pub fn is_all(self) -> bool {
                self & $name::all() == $name::all()
            }

            #[inline]
            pub fn intersects(self, other: $name) -> bool {
                self & other != $name::empty()
            }

            /// Returns true if `other` is a subset of `self`
            #[inline]
            pub fn subset(self, other: $name) -> bool {
                self & other == other
            }
        }

        impl ::std::ops::BitOr for $name {
            type Output = $name;

            #[inline]
            fn bitor(self, rhs: $name) -> $name {
                $name { flags: self.flags | rhs.flags }
            }
        }

        impl ::std::ops::BitOrAssign for $name {
            #[inline]
            fn bitor_assign(&mut self, rhs: $name) {
                *self = *self | rhs
            }
        }

        impl ::std::ops::BitAnd for $name {
            type Output = $name;

            #[inline]
            fn bitand(self, rhs: $name) -> $name {
                $name { flags: self.flags & rhs.flags }
            }
        }

        impl ::std::ops::BitAndAssign for $name {
            #[inline]
            fn bitand_assign(&mut self, rhs: $name) {
                *self = *self & rhs
            }
        }

        impl ::std::ops::BitXor for $name {
            type Output = $name;

            #[inline]
            fn bitxor(self, rhs: $name) -> $name {
                $name { flags: self.flags ^ rhs.flags }
            }
        }

        impl ::std::ops::BitXorAssign for $name {
            #[inline]
            fn bitxor_assign(&mut self, rhs: $name) {
                *self = *self ^ rhs
            }
        }

        impl ::std::ops::Sub for $name {
            type Output = $name;

            #[inline]
            fn sub(self, rhs: $name) -> $name {
                self & !rhs
            }
        }

        impl ::std::ops::SubAssign for $name {
            #[inline]
            fn sub_assign(&mut self, rhs: $name) {
                *self = *self - rhs
            }
        }

        impl ::std::ops::Not for $name {
            type Output = $name;

            #[inline]
            fn not(self) -> $name {
                self ^ $name::all()
            }
        }
    };
}
";

/// The definition of the macro for dispatchable handles.
pub fn define_handle_macro() -> (r: String)
    ensures
        r@ == DEFINE_HANDLE@,
{
    String::from_str(DEFINE_HANDLE)
}

/// The definition of the macro for non-dispatchable handles.
pub fn handle_nondispatchable_macro() -> (r: String)
    ensures
        r@ == HANDLE_NONDISPATCHABLE@,
{
    String::from_str(HANDLE_NONDISPATCHABLE)
}

/// The definition of the macro for bit-flag types.
pub fn vk_bitflags_wrapped_macro() -> (r: String)
    ensures
        r@ == VK_BITFLAGS_WRAPPED@,
{
    String::from_str(VK_BITFLAGS_WRAPPED)
}

/// The texts of the items of a sequence, one after the other.  Every item is
/// written by the same rule, which may depend on one text that is the same
/// for all of them.
pub open spec fn joined<V>(
    context: Seq<char>,
    items: Seq<V>,
    text: spec_fn(Seq<char>, V) -> Seq<char>,
) -> Seq<char>
    decreases items.len(),
{
    if items.len() == 0 {
        Seq::empty()
    } else {
        joined(context, items.drop_last(), text) + text(context, items.last())
    }
}

fn render_each<T: View, F: Fn(&str, &T) -> String>(
    context: &str,
    items: &Vec<T>,
    render: F,
    Ghost(text): Ghost<spec_fn(Seq<char>, T::V) -> Seq<char>>,
) -> (r: String)
    requires
        forall|c: &str, item: &T| call_requires(render, (c, item)),
        forall|c: &str, item: &T, out: String|
            call_ensures(render, (c, item), out) ==> out@ == text(c@, item@),
    ensures
        r@ == joined(context@, views(items@), text),
{
    let mut out = String::new();
    let mut i: usize = 0;
    assert(views(items@).take(0) == Seq::<T::V>::empty());
    while i < items.len()
        invariant
            i <= items.len(),
            forall|c: &str, item: &T| call_requires(render, (c, item)),
            forall|c: &str, item: &T, out: String|
                call_ensures(render, (c, item), out) ==> out@ == text(c@, item@),
            out@ == joined(context@, views(items@).take(i as int), text),
        decreases items.len() - i,
    {
        let piece = render(context, &items[i]);
        proof {
            assert(views(items@).take(i + 1).drop_last() == views(items@).take(i as int));
            assert(views(items@).take(i + 1).last() == items@[i as int]@);
        }
        out.append(piece.as_str());
        i += 1;
    }
    assert(views(items@).take(items.len() as int) == views(items@));
    out
}

/// A type alias.
pub open spec fn alias_text(a: AliasView) -> Seq<char> {
    "pub type "@ + a.name + " = "@ + a.target + ";\n"@
}

/// Writes a type alias.
pub fn render_alias(a: &Alias) -> (r: String)
    ensures
        r@ == alias_text(a@),
{
    let mut out = String::from_str("pub type ");
    out.append(a.name.as_str());
    out.append(" = ");
    out.append(a.target.as_str());
    out.append(";\n");
    out
}

/// The type of a function without parameters.
pub open spec fn fn_pointer_text(d: FnPointerDeclView) -> Seq<char> {
    "pub type "@ + d.name + " = unsafe extern \"system\" fn() -> "@ + d.return_type + ";\n"@
}

/// Writes the type of a function pointer.
pub fn render_fn_pointer(d: &FnPointerDecl) -> (r: String)
    ensures
        r@ == fn_pointer_text(d@),
{
    let mut out = String::from_str("pub type ");
    out.append(d.name.as_str());
    out.append(" = unsafe extern \"system\" fn() -> ");
    out.append(d.return_type.as_str());
    out.append(";\n");
    out
}

/// One field of a struct or union.
pub open spec fn member_line(context: Seq<char>, m: MemberView) -> Seq<char> {
    "    pub "@ + m.name + ": "@ + m.ty + ",\n"@
}

fn render_member(context: &str, m: &Member) -> (r: String)
    ensures
        r@ == member_line(context@, m@),
{
    let mut out = String::from_str("    pub ");
    out.append(m.name.as_str());
    out.append(": ");
    out.append(m.ty.as_str());
    out.append(",\n");
    out
}

/// A struct: duplicable bit for bit, laid out as in C, its fields in order.
pub open spec fn struct_text(a: AggregateView) -> Seq<char> {
    "#[derive(Copy, Clone)]\n#[repr(C)]\npub struct "@ + a.name + " {\n"@ + joined(
        a.name,
        a.fields,
        |c: Seq<char>, m: MemberView| member_line(c, m),
    ) + "}\n"@
}

/// Writes a struct.
pub fn render_struct(a: &Aggregate) -> (r: String)
    ensures
        r@ == struct_text(a@),
{
    let mut out = String::from_str("#[derive(Copy, Clone)]\n#[repr(C)]\npub struct ");
    out.append(a.name.as_str());
    out.append(" {\n");
    let fields = render_each(
        a.name.as_str(),
        &a.fields,
        render_member,
        Ghost(|c: Seq<char>, m: MemberView| member_line(c, m)),
    );
    out.append(fields.as_str());
    out.append("}\n");
    out
}

/// A union: duplicable bit for bit, laid out as in C, its fields in order.
pub open spec fn union_text(a: AggregateView) -> Seq<char> {
    "#[repr(C)]\n#[derive(Copy, Clone)]\npub union "@ + a.name + " {\n"@ + joined(
        a.name,
        a.fields,
        |c: Seq<char>, m: MemberView| member_line(c, m),
    ) + "}\n"@
}

/// Writes a union.
pub fn render_union(a: &Aggregate) -> (r: String)
    ensures
        r@ == union_text(a@),
{
    let mut out = String::from_str("#[repr(C)]\n#[derive(Copy, Clone)]\npub union ");
    out.append(a.name.as_str());
    out.append(" {\n");
    let fields = render_each(
        a.name.as_str(),
        &a.fields,
        render_member,
        Ghost(|c: Seq<char>, m: MemberView| member_line(c, m)),
    );
    out.append(fields.as_str());
    out.append("}\n");
    out
}

/// A handle, declared by the macro of its kind.
pub open spec fn handle_text(h: HandleDeclView) -> Seq<char> {
    if h.dispatchable {
        "define_handle!("@ + h.name + ");\n"@
    } else {
        "handle_nondispatchable!("@ + h.name + ");\n"@
    }
}

/// Writes the declaration of a handle.
pub fn render_handle(h: &HandleDecl) -> (r: String)
    ensures
        r@ == handle_text(h@),
{
    let mut out = if h.dispatchable {
        String::from_str("define_handle!(")
    } else {
        String::from_str("handle_nondispatchable!(")
    };
    out.append(h.name.as_str());
    out.append(");\n");
    out
}

/// One constant of the bit-flag type `context`.
pub open spec fn flag_constant_line(context: Seq<char>, c: FlagConstantView) -> Seq<char> {
    "pub const "@ + c.name + ": "@ + context + " = "@ + context + " { flags: "@ + c.value
        + " };\n"@
}

fn render_flag_constant(context: &str, c: &FlagConstant) -> (r: String)
    ensures
        r@ == flag_constant_line(context@, c@),
{
    let mut out = String::from_str("pub const ");
    out.append(c.name.as_str());
    out.append(": ");
    out.append(context);
    out.append(" = ");
    out.append(context);
    out.append(" { flags: ");
    out.append(c.value.as_str());
    out.append(" };\n");
    out
}

/// A bit-flag type: its constants, then the type itself with its mask in
/// binary.
pub open spec fn bitflags_text(d: BitflagsDeclView) -> Seq<char> {
    joined(d.name, d.constants, |c: Seq<char>, k: FlagConstantView| flag_constant_line(c, k))
        + "vk_bitflags_wrapped!("@ + d.name + ", 0b"@ + binary_text(d.all as nat)
        + ", Flags);\n"@
}

/// Writes a bit-flag type with its constants.
pub fn render_bitflags(d: &BitflagsDecl) -> (r: String)
    ensures
        r@ == bitflags_text(d@),
{
    let mut out = render_each(
        d.name.as_str(),
        &d.constants,
        render_flag_constant,
        Ghost(|c: Seq<char>, k: FlagConstantView| flag_constant_line(c, k)),
    );
    out.append("vk_bitflags_wrapped!(");
    out.append(d.name.as_str());
    out.append(", 0b");
    out.append(binary_string(d.all).as_str());
    out.append(", Flags);\n");
    out
}

/// One variant of an enumeration with its discriminant.
pub open spec fn variant_line(context: Seq<char>, v: VariantView) -> Seq<char> {
    "    "@ + v.name + " = "@ + v.value + ",\n"@
}

fn render_variant(context: &str, v: &Variant) -> (r: String)
    ensures
        r@ == variant_line(context@, v@),
{
    let mut out = String::from_str("    ");
    out.append(v.name.as_str());
    out.append(" = ");
    out.append(v.value.as_str());
    out.append(",\n");
    out
}

/// The case of the result enumeration `context` that writes the description
/// of one variant.
pub open spec fn description_arm(context: Seq<char>, d: DescriptionView) -> Seq<char> {
    "            "@ + context + "::"@ + d.variant + " => write!(fmt, \"{}\", \""@ + escaped(d.text)
        + "\"),\n"@
}

fn render_description(context: &str, d: &Description) -> (r: String)
    ensures
        r@ == description_arm(context@, d@),
{
    let mut out = String::from_str("            ");
    out.append(context);
    out.append("::");
    out.append(d.variant.as_str());
    out.append(" => write!(fmt, \"{}\", \"");
    out.append(escape(d.text.as_str()).as_str());
    out.append("\"),\n");
    out
}

/// What the result enumeration `name` offers beyond its variants: it is an
/// error, and it is displayed as its name followed by its description.
pub open spec fn result_impls_text(name: Seq<char>, descriptions: Seq<DescriptionView>) -> Seq<
    char,
> {
    "impl ::std::error::Error for "@ + name
        + " {\n    fn description(&self) -> &str {\n        \"vk::Result\"\n    }\n}\nimpl ::std::fmt::Display for "@
        + name
        + " {\n    fn fmt(&self, fmt: &mut ::std::fmt::Formatter) -> ::std::fmt::Result {\n        writeln!(fmt, \"vk::Result::{:?}\", self)?;\n        match self {\n"@
        + joined(name, descriptions, |c: Seq<char>, d: DescriptionView| description_arm(c, d))
        + "        }\n    }\n}\n"@
}

fn render_result_impls(name: &str, descriptions: &Vec<Description>) -> (r: String)
    ensures
        r@ == result_impls_text(name@, views(descriptions@)),
{
    let mut out = String::from_str("impl ::std::error::Error for ");
    out.append(name);
    out.append(
        " {\n    fn description(&self) -> &str {\n        \"vk::Result\"\n    }\n}\nimpl ::std::fmt::Display for ",
    );
    out.append(name);
    out.append(
        " {\n    fn fmt(&self, fmt: &mut ::std::fmt::Formatter) -> ::std::fmt::Result {\n        writeln!(fmt, \"vk::Result::{:?}\", self)?;\n        match self {\n",
    );
    let arms = render_each(
        name,
        descriptions,
        render_description,
        Ghost(|c: Seq<char>, d: DescriptionView| description_arm(c, d)),
    );
    out.append(arms.as_str());
    out.append("        }\n    }\n}\n");
    out
}

/// A closed enumeration, laid out as in C, each variant with its discriminant;
/// for the result enumeration, also what it offers as an error.
pub open spec fn enum_text(d: EnumDeclView) -> Seq<char> {
    "#[derive(Debug, Clone, Copy, PartialEq, Eq, PartialOrd, Ord, Hash)]\n#[repr(C)]\npub enum "@
        + d.name + " {\n"@ + joined(
        d.name,
        d.variants,
        |c: Seq<char>, v: VariantView| variant_line(c, v),
    ) + "}\n"@ + match d.descriptions {
        Some(descriptions) => result_impls_text(d.name, descriptions),
        None => Seq::empty(),
    }
}

/// Writes a closed enumeration.
pub fn render_enum(d: &EnumDecl) -> (r: String)
    ensures
        r@ == enum_text(d@),
{
    let mut out = String::from_str(
        "#[derive(Debug, Clone, Copy, PartialEq, Eq, PartialOrd, Ord, Hash)]\n#[repr(C)]\npub enum ",
    );
    out.append(d.name.as_str());
    out.append(" {\n");
    let variants = render_each(
        d.name.as_str(),
        &d.variants,
        render_variant,
        Ghost(|c: Seq<char>, v: VariantView| variant_line(c, v)),
    );
    out.append(variants.as_str());
    out.append("}\n");
    match &d.descriptions {
        Some(descriptions) => {
            let impls = render_result_impls(d.name.as_str(), descriptions);
            out.append(impls.as_str());
        },
        None => {
            assert(out@ + Seq::<char>::empty() == out@);
        },
    }
    out
}

/// A named constant.
pub open spec fn const_text(c: ConstDeclView) -> Seq<char> {
    "pub const "@ + c.name + ": "@ + c.ty.name() + " = "@ + c.value + ";\n"@
}

/// Writes a named constant.
pub fn render_constant(c: &ConstDecl) -> (r: String)
    ensures
        r@ == const_text(c@),
{
    let mut out = String::from_str("pub const ");
    out.append(c.name.as_str());
    out.append(": ");
    out.append(c.ty.to_tokens().as_str());
    out.append(" = ");
    out.append(c.value.as_str());
    out.append(";\n");
    out
}

/// One parameter in a signature.
pub open spec fn param_decl(context: Seq<char>, m: MemberView) -> Seq<char> {
    m.name + ": "@ + m.ty + ", "@
}

fn render_param_decl(context: &str, m: &Member) -> (r: String)
    ensures
        r@ == param_decl(context@, m@),
{
    let mut out = m.name.clone();
    out.append(": ");
    out.append(m.ty.as_str());
    out.append(", ");
    out
}

/// One argument in a call.
pub open spec fn param_name(context: Seq<char>, m: MemberView) -> Seq<char> {
    m.name + ", "@
}

fn render_param_name(context: &str, m: &Member) -> (r: String)
    ensures
        r@ == param_name(context@, m@),
{
    let mut out = m.name.clone();
    out.append(", ");
    out
}

/// The parameters of a slot as they stand in a signature.
pub open spec fn params_text(s: SlotView) -> Seq<char> {
    joined(s.name, s.params, |c: Seq<char>, m: MemberView| param_decl(c, m))
}

fn render_params(s: &Slot) -> (r: String)
    ensures
        r@ == params_text(s@),
{
    render_each(
        s.name.as_str(),
        &s.params,
        render_param_decl,
        Ghost(|c: Seq<char>, m: MemberView| param_decl(c, m)),
    )
}

/// The field of a table that holds one slot.
pub open spec fn slot_field(context: Seq<char>, s: SlotView) -> Seq<char> {
    "    "@ + s.name + ": extern \"system\" fn("@ + params_text(s) + ") -> "@ + s.return_type
        + ",\n"@
}

fn render_slot_field(context: &str, s: &Slot) -> (r: String)
    ensures
        r@ == slot_field(context@, s@),
{
    let mut out = String::from_str("    ");
    out.append(s.name.as_str());
    out.append(": extern \"system\" fn(");
    out.append(render_params(s).as_str());
    out.append(") -> ");
    out.append(s.return_type.as_str());
    out.append(",\n");
    out
}

/// The copy of one slot when a table is duplicated.
pub open spec fn slot_copy(context: Seq<char>, s: SlotView) -> Seq<char> {
    "            "@ + s.name + ": self."@ + s.name + ",\n"@
}

fn render_slot_copy(context: &str, s: &Slot) -> (r: String)
    ensures
        r@ == slot_copy(context@, s@),
{
    let mut out = String::from_str("            ");
    out.append(s.name.as_str());
    out.append(": self.");
    out.append(s.name.as_str());
    out.append(",\n");
    out
}

/// The resolution of one slot when a table is loaded: the entry point is
/// asked for, and noted where it is not found.
pub open spec fn slot_load(context: Seq<char>, s: SlotView) -> Seq<char> {
    "            "@ + s.name + ": unsafe {\n                let raw_name = stringify!("@
        + s.entry_point
        + ");\n                let cname = CString::new(raw_name).unwrap();\n                let val = f(&cname);\n                if val.is_null() {\n                    err_str.push(raw_name);\n                }\n                mem::transmute(val)\n            },\n"@
}

fn render_slot_load(context: &str, s: &Slot) -> (r: String)
    ensures
        r@ == slot_load(context@, s@),
{
    let mut out = String::from_str("            ");
    out.append(s.name.as_str());
    out.append(": unsafe {\n                let raw_name = stringify!(");
    out.append(s.entry_point.as_str());
    out.append(
        ");\n                let cname = CString::new(raw_name).unwrap();\n                let val = f(&cname);\n                if val.is_null() {\n                    err_str.push(raw_name);\n                }\n                mem::transmute(val)\n            },\n",
    );
    out
}

/// The wrapper that forwards a call to one slot.
pub open spec fn slot_wrapper(context: Seq<char>, s: SlotView) -> Seq<char> {
    "    pub fn "@ + s.name + "(&self, "@ + params_text(s) + ") -> "@ + s.return_type
        + " {\n        (self."@ + s.name + ")("@ + joined(
        s.name,
        s.params,
        |c: Seq<char>, m: MemberView| param_name(c, m),
    ) + ")\n    }\n"@
}

fn render_slot_wrapper(context: &str, s: &Slot) -> (r: String)
    ensures
        r@ == slot_wrapper(context@, s@),
{
    let mut out = String::from_str("    pub fn ");
    out.append(s.name.as_str());
    out.append("(&self, ");
    out.append(render_params(s).as_str());
    out.append(") -> ");
    out.append(s.return_type.as_str());
    out.append(" {\n        (self.");
    out.append(s.name.as_str());
    out.append(")(");
    let names = render_each(
        s.name.as_str(),
        &s.params,
        render_param_name,
        Ghost(|c: Seq<char>, m: MemberView| param_name(c, m)),
    );
    out.append(names.as_str());
    out.append(")\n    }\n");
    out
}

/// A function table: the type with one field per slot, its duplication, its
/// loading and one forwarding wrapper per slot, all in slot order.
pub open spec fn table_text(t: FnTableView) -> Seq<char> {
    "pub struct "@ + t.name + " {\n"@ + joined(
        t.name,
        t.slots,
        |c: Seq<char>, s: SlotView| slot_field(c, s),
    ) + "}\nunsafe impl Send for "@ + t.name + " {}\nunsafe impl Sync for "@ + t.name
        + " {}\nimpl ::std::clone::Clone for "@ + t.name
        + " {\n    fn clone(&self) -> Self {\n        "@ + t.name + " {\n"@ + joined(
        t.name,
        t.slots,
        |c: Seq<char>, s: SlotView| slot_copy(c, s),
    ) + "        }\n    }\n}\nimpl "@ + t.name
        + " {\n    pub fn load<F>(mut f: F) -> ::std::result::Result<Self, Vec<&'static str>>\n    where\n        F: FnMut(&::std::ffi::CStr) -> *const c_void,\n    {\n        use std::ffi::CString;\n        use std::mem;\n        let mut err_str = Vec::new();\n        let s = "@
        + t.name + " {\n"@ + joined(t.name, t.slots, |c: Seq<char>, s: SlotView| slot_load(c, s))
        + "        };\n        if err_str.is_empty() {\n            Ok(s)\n        } else {\n            Err(err_str)\n        }\n    }\n"@
        + joined(t.name, t.slots, |c: Seq<char>, s: SlotView| slot_wrapper(c, s)) + "}\n"@
}

/// Writes a function table.
pub fn render_table(t: &FnTable) -> (r: String)
    ensures
        r@ == table_text(t@),
{
    let name = t.name.as_str();
    let mut out = String::from_str("pub struct ");
    out.append(name);
    out.append(" {\n");
    let fields = render_each(
        name,
        &t.slots,
        render_slot_field,
        Ghost(|c: Seq<char>, s: SlotView| slot_field(c, s)),
    );
    out.append(fields.as_str());
    out.append("}\nunsafe impl Send for ");
    out.append(name);
    out.append(" {}\nunsafe impl Sync for ");
    out.append(name);
    out.append(" {}\nimpl ::std::clone::Clone for ");
    out.append(name);
    out.append(" {\n    fn clone(&self) -> Self {\n        ");
    out.append(name);
    out.append(" {\n");
    let copies = render_each(
        name,
        &t.slots,
        render_slot_copy,
        Ghost(|c: Seq<char>, s: SlotView| slot_copy(c, s)),
    );
    out.append(copies.as_str());
    out.append("        }\n    }\n}\nimpl ");
    out.append(name);
    out.append(
        " {\n    pub fn load<F>(mut f: F) -> ::std::result::Result<Self, Vec<&'static str>>\n    where\n        F: FnMut(&::std::ffi::CStr) -> *const c_void,\n    {\n        use std::ffi::CString;\n        use std::mem;\n        let mut err_str = Vec::new();\n        let s = ",
    );
    out.append(name);
    out.append(" {\n");
    let loads = render_each(
        name,
        &t.slots,
        render_slot_load,
        Ghost(|c: Seq<char>, s: SlotView| slot_load(c, s)),
    );
    out.append(loads.as_str());
    out.append(
        "        };\n        if err_str.is_empty() {\n            Ok(s)\n        } else {\n            Err(err_str)\n        }\n    }\n",
    );
    let wrappers = render_each(
        name,
        &t.slots,
        render_slot_wrapper,
        Ghost(|c: Seq<char>, s: SlotView| slot_wrapper(c, s)),
    );
    out.append(wrappers.as_str());
    out.append("}\n");
    out
}

/// A table, or nothing where there is none.
pub open spec fn optional_table_text(t: Option<FnTableView>) -> Seq<char> {
    match t {
        Some(t) => table_text(t),
        None => Seq::empty(),
    }
}

/// The tables of a core revision: the instance-level one, then the
/// device-level one.
pub open spec fn core_spec_text(s: CoreSpecView) -> Seq<char> {
    optional_table_text(s.instance) + optional_table_text(s.device)
}

/// Writes the tables of a core revision.
pub fn render_core_spec(s: &CoreSpec) -> (r: String)
    ensures
        r@ == core_spec_text(s@),
{
    let mut out = String::new();
    match &s.instance {
        Some(t) => {
            out.append(render_table(t).as_str());
        },
        None => {},
    }
    let ghost first = out@;
    match &s.device {
        Some(t) => {
            out.append(render_table(t).as_str());
        },
        None => {
            assert(first + Seq::<char>::empty() == first);
        },
    }
    assert(Seq::<char>::empty() + optional_table_text(s@.instance) == optional_table_text(
        s@.instance,
    ));
    out
}

/// The unit of a definition, by its kind.
pub open spec fn definition_text(d: DefinitionView) -> Seq<char> {
    match d {
        DefinitionView::Typedef(a) => alias_text(a),
        DefinitionView::Struct(a) => struct_text(a),
        DefinitionView::Bitmask(b) => bitflags_text(b),
        DefinitionView::Handle(h) => handle_text(h),
        DefinitionView::FuncPtr(f) => fn_pointer_text(f),
        DefinitionView::Union(a) => union_text(a),
    }
}

/// Writes the unit of a definition.
pub fn render_definition(d: &Definition) -> (r: String)
    ensures
        r@ == definition_text(d@),
{
    match d {
        Definition::Typedef(a) => render_alias(a),
        Definition::Struct(a) => render_struct(a),
        Definition::Bitmask(b) => render_bitflags(b),
        Definition::Handle(h) => render_handle(h),
        Definition::FuncPtr(f) => render_fn_pointer(f),
        Definition::Union(a) => render_union(a),
    }
}

fn core_spec_unit(context: &str, s: &CoreSpec) -> (r: String)
    ensures
        r@ == core_spec_text(s@),
{
    render_core_spec(s)
}

fn table_unit(context: &str, t: &FnTable) -> (r: String)
    ensures
        r@ == table_text(t@),
{
    render_table(t)
}

fn definition_unit(context: &str, d: &Definition) -> (r: String)
    ensures
        r@ == definition_text(d@),
{
    render_definition(d)
}

fn enum_unit(context: &str, d: &EnumDecl) -> (r: String)
    ensures
        r@ == enum_text(d@),
{
    render_enum(d)
}

fn bitflags_unit(context: &str, d: &BitflagsDecl) -> (r: String)
    ensures
        r@ == bitflags_text(d@),
{
    render_bitflags(d)
}

fn constant_unit(context: &str, c: &ConstDecl) -> (r: String)
    ensures
        r@ == const_text(c@),
{
    render_constant(c)
}

/// The whole text of the bindings: the import of the C types, the three
/// macros, then the units of the core revisions, the extensions, the
/// definitions, the enumerations, the bit-flag types and the constants.
pub open spec fn source_text(s: SourceView) -> Seq<char> {
    "use libc::*;\n"@ + VK_BITFLAGS_WRAPPED@ + HANDLE_NONDISPATCHABLE@ + DEFINE_HANDLE@ + joined(
        Seq::empty(),
        s.features,
        |c: Seq<char>, f: CoreSpecView| core_spec_text(f),
    ) + joined(Seq::empty(), s.extensions, |c: Seq<char>, t: FnTableView| table_text(t)) + joined(
        Seq::empty(),
        s.definitions,
        |c: Seq<char>, d: DefinitionView| definition_text(d),
    ) + joined(Seq::empty(), s.enums, |c: Seq<char>, d: EnumDeclView| enum_text(d)) + joined(
        Seq::empty(),
        s.bitflags,
        |c: Seq<char>, d: BitflagsDeclView| bitflags_text(d),
    ) + joined(Seq::empty(), s.constants, |c: Seq<char>, k: ConstDeclView| const_text(k))
}

/// Writes the whole text of the bindings.
pub fn render_source(s: &Source) -> (r: String)
    ensures
        r@ == source_text(s@),
{
    let mut out = String::from_str("use libc::*;\n");
    out.append(VK_BITFLAGS_WRAPPED);
    out.append(HANDLE_NONDISPATCHABLE);
    out.append(DEFINE_HANDLE);
    let nothing = String::new();
    let features = render_each(
        nothing.as_str(),
        &s.features,
        core_spec_unit,
        Ghost(|c: Seq<char>, f: CoreSpecView| core_spec_text(f)),
    );
    out.append(features.as_str());
    let extensions = render_each(
        nothing.as_str(),
        &s.extensions,
        table_unit,
        Ghost(|c: Seq<char>, t: FnTableView| table_text(t)),
    );
    out.append(extensions.as_str());
    let definitions = render_each(
        nothing.as_str(),
        &s.definitions,
        definition_unit,
        Ghost(|c: Seq<char>, d: DefinitionView| definition_text(d)),
    );
    out.append(definitions.as_str());
    let enums = render_each(
        nothing.as_str(),
        &s.enums,
        enum_unit,
        Ghost(|c: Seq<char>, d: EnumDeclView| enum_text(d)),
    );
    out.append(enums.as_str());
    let bitflags = render_each(
        nothing.as_str(),
        &s.bitflags,
        bitflags_unit,
        Ghost(|c: Seq<char>, d: BitflagsDeclView| bitflags_text(d)),
    );
    out.append(bitflags.as_str());
    let constants = render_each(
        nothing.as_str(),
        &s.constants,
        constant_unit,
        Ghost(|c: Seq<char>, k: ConstDeclView| const_text(k)),
    );
    out.append(constants.as_str());
    out
}

} // verus!
