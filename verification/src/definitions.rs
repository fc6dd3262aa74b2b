//! Definitions: typedefs, bit masks without bits, structs, unions, handles and
//! function pointer types.

use crate::decl::{
    Aggregate, AggregateView, Alias, AliasView, BitflagsDecl, BitflagsDeclView, Definition,
    DefinitionView, FnPointerDecl, FnPointerDeclView, HandleDecl,
    HandleDeclView, Member, MemberView,
};
use crate::error::GenError;
use crate::seqs::{gather, lemma_views_push, views};
use crate::registry::{
    Bitmask, DefinitionsElement, Field, FunctionPointer, Handle, HandleType, Struct,
    StructElement, Typedef, Union,
};
use crate::table::{generate_member, generate_members, member_of, members_of};
use crate::text::{chars_of, string_of_range};
use crate::types::{mapped_name, name_to_tokens, FieldExt};
use vstd::prelude::*;

verus! {

/// A name without its two-character prefix, kept as it is otherwise.
pub open spec fn stem(name: Seq<char>) -> Result<Seq<char>, GenError> {
    if name.len() < 2 {
        Err(GenError::ShortName)
    } else {
        Ok(name.skip(2))
    }
}

/// Strips the two-character prefix of a name.
pub fn strip_prefix(name: &str) -> (r: Result<String, GenError>)
    ensures
        match r {
            Ok(t) => stem(name@) == Ok::<Seq<char>, GenError>(t@),
            Err(e) => stem(name@) == Err::<Seq<char>, GenError>(e),
        },
{
    let chars = chars_of(name);
    if chars.len() < 2 {
        return Err(GenError::ShortName);
    }
    let out = string_of_range(&chars, 2, chars.len());
    assert(chars@.subrange(2, chars.len() as int) == chars@.skip(2));
    Ok(out)
}

/// The alias that a typedef becomes: both names are mapped as type names.
pub open spec fn typedef_of(t: Typedef) -> AliasView {
    AliasView { name: mapped_name(t.name@), target: mapped_name(t.basetype@) }
}

/// Generates the alias of a typedef.
pub fn generate_typedef(typedef: &Typedef) -> (r: Alias)
    ensures
        r@ == typedef_of(*typedef),
{
    Alias {
        name: name_to_tokens(typedef.name.as_str()),
        target: name_to_tokens(typedef.basetype.as_str()),
    }
}

/// The bit-flag type that a bit mask becomes: none for a placeholder without
/// a name, and none for a mask whose bits an enumeration declares, which that
/// enumeration generates; otherwise the type without any bit.
pub open spec fn bitmask_of(b: Bitmask) -> Result<Option<BitflagsDeclView>, GenError> {
    if b.name@.len() == 0 || b.enumref is Some {
        Ok(None)
    } else {
        match stem(b.name@) {
            Ok(name) => Ok(Some(BitflagsDeclView { name, all: 0, constants: Seq::empty() })),
            Err(e) => Err(e),
        }
    }
}

/// Generates the bit-flag type of a bit mask that has no bits of its own.
pub fn generate_bitmask(bitmask: &Bitmask) -> (r: Result<Option<BitflagsDecl>, GenError>)
    ensures
        match r {
            Ok(Some(d)) => bitmask_of(*bitmask) == Ok::<Option<BitflagsDeclView>, GenError>(
                Some(d@),
            ),
            Ok(None) => bitmask_of(*bitmask) == Ok::<Option<BitflagsDeclView>, GenError>(None),
            Err(e) => bitmask_of(*bitmask) == Err::<Option<BitflagsDeclView>, GenError>(e),
        },
{
    if bitmask.name.as_str().is_empty() {
        return Ok(None);
    }
    if bitmask.enumref.is_some() {
        return Ok(None);
    }
    match strip_prefix(bitmask.name.as_str()) {
        Ok(name) => {
            let d = BitflagsDecl { name, all: 0, constants: Vec::new() };
            assert(d@.constants =~= Seq::empty());
            Ok(Some(d))
        },
        Err(e) => Err(e),
    }
}

/// The fields among the elements of a struct, in order.
pub open spec fn members_among(elements: Seq<StructElement>) -> Seq<Field>
    decreases elements.len(),
{
    if elements.len() == 0 {
        Seq::empty()
    } else {
        match elements.last() {
            StructElement::Member(f) => members_among(elements.drop_last()).push(f),
            _ => members_among(elements.drop_last()),
        }
    }
}

/// The aggregate that a struct becomes: its mapped name and its members in
/// the order of the registry.
pub open spec fn struct_of(s: Struct) -> Result<AggregateView, GenError> {
    match members_of(members_among(s.elements@)) {
        Ok(fields) => Ok(AggregateView { name: mapped_name(s.name@), fields }),
        Err(e) => Err(e),
    }
}

/// The aggregate that a union becomes.
pub open spec fn union_of(u: Union) -> Result<AggregateView, GenError> {
    match members_of(u.elements@) {
        Ok(fields) => Ok(AggregateView { name: mapped_name(u.name@), fields }),
        Err(e) => Err(e),
    }
}

/// Generates a struct; fails with the error of the first member that cannot
/// be mapped.
pub fn generate_struct(_struct: &Struct) -> (r: Result<Aggregate, GenError>)
    ensures
        match r {
            Ok(d) => struct_of(*_struct) == Ok::<AggregateView, GenError>(d@),
            Err(e) => struct_of(*_struct) == Err::<AggregateView, GenError>(e),
        },
{
    let mut out: Vec<Member> = Vec::new();
    let mut i: usize = 0;
    proof {
        assert(_struct.elements@.take(0) == Seq::<StructElement>::empty());
        assert(views(out@) == Seq::<MemberView>::empty());
        assert(members_among(Seq::<StructElement>::empty()).map_values(|f: Field| member_of(f))
            == Seq::<Result<MemberView, GenError>>::empty());
    }
    while i < _struct.elements.len()
        invariant
            i <= _struct.elements.len(),
            gather(
                members_among(_struct.elements@.take(i as int)).map_values(
                    |f: Field| member_of(f),
                ),
            ) == Ok::<Seq<MemberView>, GenError>(views(out@)),
        decreases _struct.elements.len() - i,
    {
        let ghost before = members_among(_struct.elements@.take(i as int));
        proof {
            assert(_struct.elements@.take(i + 1).drop_last() == _struct.elements@.take(i as int));
        }
        match &_struct.elements[i] {
            StructElement::Member(field) => {
                let ghost now = before.push(*field).map_values(|f: Field| member_of(f));
                proof {
                    assert(now.drop_last() == before.map_values(|f: Field| member_of(f)));
                    assert(now.last() == member_of(*field));
                }
                match generate_member(field) {
                    Ok(m) => {
                        proof {
                            lemma_views_push(out@, m);
                        }
                        out.push(m);
                    },
                    Err(e) => {
                        proof {
                            lemma_members_fail(_struct.elements@, i as int + 1);
                        }
                        return Err(e);
                    },
                }
            },
            _ => {},
        }
        i += 1;
    }
    proof {
        assert(_struct.elements@.take(_struct.elements.len() as int) == _struct.elements@);
    }
    Ok(Aggregate { name: name_to_tokens(_struct.name.as_str()), fields: out })
}

/// Once the members among a beginning of the elements fail to map, those of
/// all the elements fail with the same error.
proof fn lemma_members_fail(elements: Seq<StructElement>, n: int)
    requires
        0 <= n <= elements.len(),
        gather(members_among(elements.take(n)).map_values(|f: Field| member_of(f))) is Err,
    ensures
        gather(members_among(elements).map_values(|f: Field| member_of(f))) == gather(
            members_among(elements.take(n)).map_values(|f: Field| member_of(f)),
        ),
    decreases elements.len() - n,
{
    if n == elements.len() {
        assert(elements.take(n) == elements);
    } else {
        assert(elements.take(n + 1).drop_last() == elements.take(n));
        let before = members_among(elements.take(n));
        match elements[n] {
            StructElement::Member(f) => {
                let now = before.push(f).map_values(|f: Field| member_of(f));
                assert(now.drop_last() == before.map_values(|f: Field| member_of(f)));
            },
            _ => {},
        }
        lemma_members_fail(elements, n + 1);
    }
}

/// Generates a union; fails with the error of the first member that cannot be
/// mapped.
pub fn generate_union(union: &Union) -> (r: Result<Aggregate, GenError>)
    ensures
        match r {
            Ok(d) => union_of(*union) == Ok::<AggregateView, GenError>(d@),
            Err(e) => union_of(*union) == Err::<AggregateView, GenError>(e),
        },
{
    match generate_members(&union.elements) {
        Ok(fields) => Ok(Aggregate { name: name_to_tokens(union.name.as_str()), fields }),
        Err(e) => Err(e),
    }
}

/// The handle that a handle node becomes: none for a placeholder without a
/// name; otherwise the handle of the node's kind, named without the prefix.
pub open spec fn handle_of(h: Handle) -> Result<Option<HandleDeclView>, GenError> {
    if h.name@.len() == 0 {
        Ok(None)
    } else {
        match stem(h.name@) {
            Ok(name) => Ok(
                Some(HandleDeclView { name, dispatchable: h.ty == HandleType::Dispatch }),
            ),
            Err(e) => Err(e),
        }
    }
}

/// Generates the declaration of a handle.
pub fn generate_handle(handle: &Handle) -> (r: Result<Option<HandleDecl>, GenError>)
    ensures
        match r {
            Ok(Some(d)) => handle_of(*handle) == Ok::<Option<HandleDeclView>, GenError>(Some(d@)),
            Ok(None) => handle_of(*handle) == Ok::<Option<HandleDeclView>, GenError>(None),
            Err(e) => handle_of(*handle) == Err::<Option<HandleDeclView>, GenError>(e),
        },
{
    if handle.name.as_str().is_empty() {
        return Ok(None);
    }
    let name = match strip_prefix(handle.name.as_str()) {
        Ok(n) => n,
        Err(e) => {
            return Err(e);
        },
    };
    match handle.ty {
        HandleType::Dispatch => Ok(Some(HandleDecl { name, dispatchable: true })),
        HandleType::NoDispatch => Ok(Some(HandleDecl { name, dispatchable: false })),
    }
}

/// The function pointer type that a function pointer node becomes: its name
/// as the registry writes it, and its mapped return type.
pub open spec fn funcptr_of(fp: FunctionPointer) -> Result<FnPointerDeclView, GenError> {
    match fp.return_type.spec_type_tokens() {
        Ok(return_type) => Ok(FnPointerDeclView { name: fp.name@, return_type }),
        Err(e) => Err(e),
    }
}

/// Generates the type of a function pointer.
pub fn generate_funcptr(fnptr: &FunctionPointer) -> (r: Result<FnPointerDecl, GenError>)
    ensures
        match r {
            Ok(d) => funcptr_of(*fnptr) == Ok::<FnPointerDeclView, GenError>(d@),
            Err(e) => funcptr_of(*fnptr) == Err::<FnPointerDeclView, GenError>(e),
        },
{
    match fnptr.return_type.type_tokens() {
        Ok(return_type) => Ok(FnPointerDecl { name: fnptr.name.clone(), return_type }),
        Err(e) => Err(e),
    }
}

/// What a definition of the registry becomes; nothing for the nodes from
/// which nothing is generated.
pub open spec fn definition_of(d: DefinitionsElement) -> Result<Option<DefinitionView>, GenError> {
    match d {
        DefinitionsElement::Typedef(t) => Ok(Some(DefinitionView::Typedef(typedef_of(t)))),
        DefinitionsElement::Struct(s) => match struct_of(s) {
            Ok(x) => Ok(Some(DefinitionView::Struct(x))),
            Err(e) => Err(e),
        },
        DefinitionsElement::Bitmask(b) => match bitmask_of(b) {
            Ok(Some(x)) => Ok(Some(DefinitionView::Bitmask(x))),
            Ok(None) => Ok(None),
            Err(e) => Err(e),
        },
        DefinitionsElement::Handle(h) => match handle_of(h) {
            Ok(Some(x)) => Ok(Some(DefinitionView::Handle(x))),
            Ok(None) => Ok(None),
            Err(e) => Err(e),
        },
        DefinitionsElement::FuncPtr(f) => match funcptr_of(f) {
            Ok(x) => Ok(Some(DefinitionView::FuncPtr(x))),
            Err(e) => Err(e),
        },
        DefinitionsElement::Union(u) => match union_of(u) {
            Ok(x) => Ok(Some(DefinitionView::Union(x))),
            Err(e) => Err(e),
        },
        DefinitionsElement::Other => Ok(None),
    }
}

/// Generates the declaration of a definition, whatever its kind.
pub fn generate_definition(definition: &DefinitionsElement) -> (r: Result<
    Option<Definition>,
    GenError,
>)
    ensures
        match r {
            Ok(Some(d)) => definition_of(*definition) == Ok::<Option<DefinitionView>, GenError>(
                Some(d@),
            ),
            Ok(None) => definition_of(*definition) == Ok::<Option<DefinitionView>, GenError>(
                None,
            ),
            Err(e) => definition_of(*definition) == Err::<Option<DefinitionView>, GenError>(e),
        },
{
    match definition {
        DefinitionsElement::Typedef(typedef) => Ok(
            Some(Definition::Typedef(generate_typedef(typedef))),
        ),
        DefinitionsElement::Struct(_struct) => match generate_struct(_struct) {
            Ok(x) => Ok(Some(Definition::Struct(x))),
            Err(e) => Err(e),
        },
        DefinitionsElement::Bitmask(mask) => match generate_bitmask(mask) {
            Ok(Some(x)) => Ok(Some(Definition::Bitmask(x))),
            Ok(None) => Ok(None),
            Err(e) => Err(e),
        },
        DefinitionsElement::Handle(handle) => match generate_handle(handle) {
            Ok(Some(x)) => Ok(Some(Definition::Handle(x))),
            Ok(None) => Ok(None),
            Err(e) => Err(e),
        },
        DefinitionsElement::FuncPtr(fp) => match generate_funcptr(fp) {
            Ok(x) => Ok(Some(Definition::FuncPtr(x))),
            Err(e) => Err(e),
        },
        DefinitionsElement::Union(union) => match generate_union(union) {
            Ok(x) => Ok(Some(Definition::Union(x))),
            Err(e) => Err(e),
        },
        DefinitionsElement::Other => Ok(None),
    }
}

/// Marks the registry's structs.
pub trait StructExt {

}

impl StructExt for Struct {

}

} // verus!
