//! The type mapper: from the registry's base types and modifiers to the type
//! expressions of the bindings, and the names of fields.

use crate::case::{snake_case, to_snake_case};
use crate::error::GenError;
use crate::registry::{ArrayType, Field, ReferenceType};
use crate::text::{
    chars_of, concat_strings, has_prefix, replace_all, replace_in, same_text, starts_with,
    string_of, string_of_range,
};
use vstd::prelude::*;
use vstd::string::StringExecFns;

verus! {

/// A registry node that stands for a fixed piece of the bindings' text.
pub trait ToTokens {
    spec fn tokens(&self) -> Seq<char>;

    fn to_tokens(&self) -> (r: String)
        ensures
            r@ == self.tokens(),
    ;
}

impl ToTokens for ReferenceType {
    /// The pointer qualifier: a pointer to a const pointer is `*const`, the
    /// other two are `*mut`.
    open spec fn tokens(&self) -> Seq<char> {
        match self {
            ReferenceType::Pointer => "*mut"@,
            ReferenceType::PointerToPointer => "*mut"@,
            ReferenceType::PointerToConstPointer => "*const"@,
        }
    }

    fn to_tokens(&self) -> (r: String) {
        match self {
            ReferenceType::Pointer => String::from_str("*mut"),
            ReferenceType::PointerToPointer => String::from_str("*mut"),
            ReferenceType::PointerToConstPointer => String::from_str("*const"),
        }
    }
}

/// The portable equivalent of a foreign scalar type; any other name loses the
/// prefix `Vk` if it has it.
pub open spec fn mapped_base(name: Seq<char>) -> Seq<char> {
    if name == "HANDLE"@ {
        "*const c_void"@
    } else if name == "LPCWSTR"@ {
        "*const wchar_t"@
    } else if name == "DWORD"@ {
        "c_uint"@
    } else if name == "int"@ {
        "c_int"@
    } else if name == "void"@ {
        "c_void"@
    } else if name == "char"@ {
        "c_char"@
    } else if name == "float"@ {
        "c_float"@
    } else if name == "long"@ {
        "c_ulong"@
    } else if starts_with(name, "Vk"@) {
        name.skip(2)
    } else {
        name
    }
}

/// The name of a type in the bindings: the mapped base type, with every
/// `FlagBits` in it turned into `Flags`.
pub open spec fn mapped_name(name: Seq<char>) -> Seq<char> {
    replace_all(mapped_base(name), "FlagBits"@, "Flags"@)
}

/// A type expression: the type's name, behind the pointer qualifier and a
/// space where there is a reference.
pub open spec fn type_expr(name: Seq<char>, reference: Option<ReferenceType>) -> Seq<char> {
    match reference {
        Some(r) => r.tokens() + seq![' '] + mapped_name(name),
        None => mapped_name(name),
    }
}

/// The fixed-size array type `[elem; size]`.
pub open spec fn array_expr(elem: Seq<char>, size: Seq<char>) -> Seq<char> {
    seq!['['] + elem + seq![';', ' '] + size + seq![']']
}

fn map_base(base: &str) -> (r: String)
    ensures
        r@ == mapped_base(base@),
{
    if same_text(base, "HANDLE") {
        String::from_str("*const c_void")
    } else if same_text(base, "LPCWSTR") {
        String::from_str("*const wchar_t")
    } else if same_text(base, "DWORD") {
        String::from_str("c_uint")
    } else if same_text(base, "int") {
        String::from_str("c_int")
    } else if same_text(base, "void") {
        String::from_str("c_void")
    } else if same_text(base, "char") {
        String::from_str("c_char")
    } else if same_text(base, "float") {
        String::from_str("c_float")
    } else if same_text(base, "long") {
        String::from_str("c_ulong")
    } else {
        let chars = chars_of(base);
        let prefix = chars_of("Vk");
        proof {
            reveal_strlit("Vk");
        }
        if has_prefix(&chars, &prefix) {
            string_of_range(&chars, 2, chars.len())
        } else {
            string_of(&chars)
        }
    }
}

/// The name of a type in the bindings.
pub fn name_to_tokens(base: &str) -> (r: String)
    ensures
        r@ == mapped_name(base@),
{
    let base = map_base(base);
    let chars = chars_of(base.as_str());
    let from = chars_of("FlagBits");
    let to = chars_of("Flags");
    let renamed = replace_in(&chars, &from, &to);
    string_of(&renamed)
}

/// A type expression from a base type and an optional reference.
pub fn to_type_tokens(base: &str, reference: Option<&ReferenceType>) -> (r: String)
    ensures
        r@ == type_expr(
            base@,
            match reference {
                Some(x) => Some(*x),
                None => None,
            },
        ),
{
    let name = name_to_tokens(base);
    match reference {
        Some(x) => {
            let mut out = x.to_tokens();
            out.push(' ');
            concat_strings(out, &name)
        },
        None => name,
    }
}

/// What the bindings need of a field: its name and its type expression.
pub trait FieldExt {
    spec fn spec_param_ident(&self) -> Seq<char>;

    spec fn spec_type_tokens(&self) -> Result<Seq<char>, GenError>;

    /// The name of the field, in snake case and clear of reserved words.
    fn param_ident(&self) -> (r: String)
        ensures
            r@ == self.spec_param_ident(),
    ;

    /// The type expression of the field.
    fn type_tokens(&self) -> (r: Result<String, GenError>)
        ensures
            match r {
                Ok(t) => self.spec_type_tokens() == Ok::<Seq<char>, GenError>(t@),
                Err(e) => self.spec_type_tokens() == Err::<Seq<char>, GenError>(e),
            },
    ;

    /// Whether the field can be duplicated bit for bit.
    fn is_clone(&self) -> (r: bool)
        ensures
            r,
    ;
}

/// The name from which a field's identifier is made: `field` for a field
/// without a name, `ty` for one called `type`.
pub open spec fn field_name(name: Option<String>) -> Seq<char> {
    match name {
        None => "field"@,
        Some(n) => if n@ == "type"@ {
            "ty"@
        } else {
            n@
        },
    }
}

/// The element count of a static array: the explicit size, else the size
/// constant.
pub open spec fn array_size(f: Field) -> Option<Seq<char>> {
    match (f.size, f.size_enumref) {
        (Some(s), _) => Some(s@),
        (None, Some(s)) => Some(s@),
        (None, None) => None,
    }
}

impl FieldExt for Field {
    open spec fn spec_param_ident(&self) -> Seq<char> {
        snake_case(field_name(self.name))
    }

    /// A static array is `[elem; size]` and ignores the reference; it needs a
    /// size.  Every other field is its type expression.
    open spec fn spec_type_tokens(&self) -> Result<Seq<char>, GenError> {
        if self.array == Some(ArrayType::Static) {
            match array_size(*self) {
                Some(size) => Ok(array_expr(mapped_name(self.basetype@), size)),
                None => Err(GenError::ArraySize),
            }
        } else {
            Ok(type_expr(self.basetype@, self.reference))
        }
    }

    fn param_ident(&self) -> (r: String) {
        match &self.name {
            None => to_snake_case("field"),
            Some(n) => {
                if same_text(n.as_str(), "type") {
                    to_snake_case("ty")
                } else {
                    to_snake_case(n.as_str())
                }
            },
        }
    }

    fn type_tokens(&self) -> (r: Result<String, GenError>) {
        let is_static = match &self.array {
            Some(ArrayType::Static) => true,
            _ => false,
        };
        if is_static {
            let size: &String = match (&self.size, &self.size_enumref) {
                (Some(s), _) => s,
                (None, Some(s)) => s,
                (None, None) => {
                    return Err(GenError::ArraySize);
                },
            };
            let elem = name_to_tokens(self.basetype.as_str());
            let mut out = String::new();
            out.push('[');
            let mut out = concat_strings(out, &elem);
            out.push(';');
            out.push(' ');
            let mut out = concat_strings(out, size);
            out.push(']');
            assert(out@ == array_expr(elem@, size@));
            Ok(out)
        } else {
            Ok(to_type_tokens(self.basetype.as_str(), self.reference.as_ref()))
        }
    }

    fn is_clone(&self) -> (r: bool) {
        true
    }
}

} // verus!
