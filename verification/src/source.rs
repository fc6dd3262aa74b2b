//! A whole generation pass: every unit of the bindings that a registry gives
//! rise to, in the order in which the units are generated.

use crate::assemble::{
    constant_of, core_spec_of, extension_of, generate_constant, generate_core_spec,
    generate_extension,
};
use crate::command::{commands_of, index_of, CommandMap};
use crate::decl::{
    BitflagsDecl, BitflagsDeclView, ConstDecl, ConstDeclView, CoreSpec, CoreSpecView, Definition,
    DefinitionView, EnumDecl, EnumDeclView, FnTable, FnTableView,
};
use crate::definitions::{definition_of, generate_definition};
use crate::enums::{enum_of, generate_enum, EnumType, EnumTypeView};
use crate::error::GenError;
use crate::registry::{
    DefinitionsElement, EnumsElement, Enumeration, Extension, Feature, Registry,
    RegistryConstant, RegistryElement,
};
use crate::seqs::{
    derefs, gather, kept, lemma_derefs_push, lemma_gather_step, lemma_gather_stops,
    lemma_kept_step, lemma_views_push, views,
};
use vstd::prelude::*;

verus! {

/// The enumerations among the elements of an `Enums` node, in order.
pub open spec fn enumerations_among(items: Seq<EnumsElement>) -> Seq<Enumeration>
    decreases items.len(),
{
    if items.len() == 0 {
        Seq::empty()
    } else {
        match items.last() {
            EnumsElement::Enumeration(e) => enumerations_among(items.drop_last()).push(e),
            _ => enumerations_among(items.drop_last()),
        }
    }
}

/// The enumerations of a registry, in order.
pub open spec fn enumerations_in(elements: Seq<RegistryElement>) -> Seq<Enumeration>
    decreases elements.len(),
{
    if elements.len() == 0 {
        Seq::empty()
    } else {
        enumerations_in(elements.drop_last()) + match elements.last() {
            RegistryElement::Enums(items) => enumerations_among(items@),
            _ => Seq::empty(),
        }
    }
}

/// The definitions of a registry, in order.
pub open spec fn definitions_in(elements: Seq<RegistryElement>) -> Seq<DefinitionsElement>
    decreases elements.len(),
{
    if elements.len() == 0 {
        Seq::empty()
    } else {
        definitions_in(elements.drop_last()) + match elements.last() {
            RegistryElement::Definitions(items) => items@,
            _ => Seq::empty(),
        }
    }
}

/// The core revisions of a registry, in order.
pub open spec fn features_in(elements: Seq<RegistryElement>) -> Seq<Feature>
    decreases elements.len(),
{
    if elements.len() == 0 {
        Seq::empty()
    } else {
        features_in(elements.drop_last()) + match elements.last() {
            RegistryElement::Features(items) => items@,
            _ => Seq::empty(),
        }
    }
}

/// The extensions of a registry, in order.
pub open spec fn extensions_in(elements: Seq<RegistryElement>) -> Seq<Extension>
    decreases elements.len(),
{
    if elements.len() == 0 {
        Seq::empty()
    } else {
        extensions_in(elements.drop_last()) + match elements.last() {
            RegistryElement::Extensions(items) => items@,
            _ => Seq::empty(),
        }
    }
}

/// The top-level constants of a registry, in order.
pub open spec fn constants_in(elements: Seq<RegistryElement>) -> Seq<RegistryConstant>
    decreases elements.len(),
{
    if elements.len() == 0 {
        Seq::empty()
    } else {
        constants_in(elements.drop_last()) + match elements.last() {
            RegistryElement::Constants(items) => items@,
            _ => Seq::empty(),
        }
    }
}

/// The closed enumerations among generated enumerations, in order.
pub open spec fn enum_decls(types: Seq<EnumTypeView>) -> Seq<EnumDeclView>
    decreases types.len(),
{
    if types.len() == 0 {
        Seq::empty()
    } else {
        match types.last() {
            EnumTypeView::Enum(d) => enum_decls(types.drop_last()).push(d),
            _ => enum_decls(types.drop_last()),
        }
    }
}

/// The bit-flag types among generated enumerations, in order.
pub open spec fn flag_decls(types: Seq<EnumTypeView>) -> Seq<BitflagsDeclView>
    decreases types.len(),
{
    if types.len() == 0 {
        Seq::empty()
    } else {
        match types.last() {
            EnumTypeView::Bitflags(d) => flag_decls(types.drop_last()).push(d),
            _ => flag_decls(types.drop_last()),
        }
    }
}

/// Every unit of the bindings, by kind.  Within a kind the units stand in the
/// order of the registry.
#[derive(Clone, Debug, PartialEq, Eq)]
pub struct Source {
    pub enums: Vec<EnumDecl>,
    pub bitflags: Vec<BitflagsDecl>,
    pub definitions: Vec<Definition>,
    pub features: Vec<CoreSpec>,
    pub extensions: Vec<FnTable>,
    pub constants: Vec<ConstDecl>,
}

/// The view of [`Source`]: the same, with every text as a sequence of
/// characters.
pub ghost struct SourceView {
    pub enums: Seq<EnumDeclView>,
    pub bitflags: Seq<BitflagsDeclView>,
    pub definitions: Seq<DefinitionView>,
    pub features: Seq<CoreSpecView>,
    pub extensions: Seq<FnTableView>,
    pub constants: Seq<ConstDeclView>,
}

impl View for Source {
    type V = SourceView;

    open spec fn view(&self) -> SourceView {
        SourceView {
            enums: views(self.enums@),
            bitflags: views(self.bitflags@),
            definitions: views(self.definitions@),
            features: views(self.features@),
            extensions: views(self.extensions@),
            constants: views(self.constants@),
        }
    }
}

/// The units that a registry gives rise to.  Enumerations are generated
/// first, then definitions, core revisions, extensions and constants; the pass
/// fails with the first error met in that order.  Commands are found in the
/// index of all the registry's commands.
pub open spec fn source_of(registry: Registry) -> Result<SourceView, GenError> {
    let elements = registry.elements@;
    let index = index_of(commands_of(elements, elements.len() as int));
    match gather(enumerations_in(elements).map_values(|e: Enumeration| enum_of(e))) {
        Err(e) => Err(e),
        Ok(types) => match gather(
            definitions_in(elements).map_values(|d: DefinitionsElement| definition_of(d)),
        ) {
            Err(e) => Err(e),
            Ok(definitions) => match gather(
                features_in(elements).map_values(|f: Feature| core_spec_of(f, index)),
            ) {
                Err(e) => Err(e),
                Ok(features) => match gather(
                    extensions_in(elements).map_values(|x: Extension| extension_of(x, index)),
                ) {
                    Err(e) => Err(e),
                    Ok(extensions) => match gather(
                        constants_in(elements).map_values(|c: RegistryConstant| constant_of(c)),
                    ) {
                        Err(e) => Err(e),
                        Ok(constants) => Ok(
                            SourceView {
                                enums: enum_decls(types),
                                bitflags: flag_decls(types),
                                definitions: kept(definitions),
                                features,
                                extensions: kept(extensions),
                                constants,
                            },
                        ),
                    },
                },
            },
        },
    }
}

fn append_refs<'a, T>(out: &mut Vec<&'a T>, items: &'a Vec<T>)
    ensures
        derefs(final(out)@) == derefs(old(out)@) + items@,
{
    let ghost before = derefs(out@);
    let mut k: usize = 0;
    while k < items.len()
        invariant
            k <= items.len(),
            derefs(out@) == before + items@.take(k as int),
        decreases items.len() - k,
    {
        proof {
            lemma_derefs_push(out@, &items[k as int]);
        }
        out.push(&items[k]);
        k += 1;
    }
    assert(items@.take(items.len() as int) == items@);
}

fn collect_enumerations<'a>(registry: &'a Registry) -> (r: Vec<&'a Enumeration>)
    ensures
        derefs(r@) == enumerations_in(registry.elements@),
{
    let mut out: Vec<&'a Enumeration> = Vec::new();
    let mut i: usize = 0;
    proof {
        assert(registry.elements@.take(0) == Seq::<RegistryElement>::empty());
        assert(derefs(out@) == Seq::<Enumeration>::empty());
    }
    while i < registry.elements.len()
        invariant
            i <= registry.elements.len(),
            derefs(out@) == enumerations_in(registry.elements@.take(i as int)),
        decreases registry.elements.len() - i,
    {
        let ghost before = derefs(out@);
        proof {
            assert(registry.elements@.take(i + 1).drop_last() == registry.elements@.take(
                i as int,
            ));
        }
        match &registry.elements[i] {
            RegistryElement::Enums(items) => {
                let mut k: usize = 0;
                proof {
                    assert(items@.take(0) == Seq::<EnumsElement>::empty());
                    assert(before + Seq::<Enumeration>::empty() == before);
                }
                while k < items.len()
                    invariant
                        k <= items.len(),
                        derefs(out@) == before + enumerations_among(items@.take(k as int)),
                    decreases items.len() - k,
                {
                    proof {
                        assert(items@.take(k + 1).drop_last() == items@.take(k as int));
                    }
                    match &items[k] {
                        EnumsElement::Enumeration(e) => {
                            proof {
                                lemma_derefs_push(out@, e);
                                let seen = enumerations_among(items@.take(k as int));
                                assert(before + seen.push(*e) == (before + seen).push(*e));
                            }
                            out.push(e);
                        },
                        _ => {},
                    }
                    k += 1;
                }
                proof {
                    assert(items@.take(items.len() as int) == items@);
                }
            },
            _ => {
                proof {
                    assert(before + Seq::<Enumeration>::empty() == before);
                }
            },
        }
        i += 1;
    }
    proof {
        assert(registry.elements@.take(registry.elements.len() as int) == registry.elements@);
    }
    out
}

fn collect_definitions<'a>(registry: &'a Registry) -> (r: Vec<&'a DefinitionsElement>)
    ensures
        derefs(r@) == definitions_in(registry.elements@),
{
    let mut out: Vec<&'a DefinitionsElement> = Vec::new();
    let mut i: usize = 0;
    proof {
        assert(registry.elements@.take(0) == Seq::<RegistryElement>::empty());
        assert(derefs(out@) == Seq::<DefinitionsElement>::empty());
    }
    while i < registry.elements.len()
        invariant
            i <= registry.elements.len(),
            derefs(out@) == definitions_in(registry.elements@.take(i as int)),
        decreases registry.elements.len() - i,
    {
        let ghost before = derefs(out@);
        proof {
            assert(registry.elements@.take(i + 1).drop_last() == registry.elements@.take(
                i as int,
            ));
        }
        match &registry.elements[i] {
            RegistryElement::Definitions(items) => {
                append_refs(&mut out, items);
            },
            _ => {
                proof {
                    assert(before + Seq::<DefinitionsElement>::empty() == before);
                }
            },
        }
        i += 1;
    }
    proof {
        assert(registry.elements@.take(registry.elements.len() as int) == registry.elements@);
    }
    out
}

fn collect_features<'a>(registry: &'a Registry) -> (r: Vec<&'a Feature>)
    ensures
        derefs(r@) == features_in(registry.elements@),
{
    let mut out: Vec<&'a Feature> = Vec::new();
    let mut i: usize = 0;
    proof {
        assert(registry.elements@.take(0) == Seq::<RegistryElement>::empty());
        assert(derefs(out@) == Seq::<Feature>::empty());
    }
    while i < registry.elements.len()
        invariant
            i <= registry.elements.len(),
            derefs(out@) == features_in(registry.elements@.take(i as int)),
        decreases registry.elements.len() - i,
    {
        let ghost before = derefs(out@);
        proof {
            assert(registry.elements@.take(i + 1).drop_last() == registry.elements@.take(
                i as int,
            ));
        }
        match &registry.elements[i] {
            RegistryElement::Features(items) => {
                append_refs(&mut out, items);
            },
            _ => {
                proof {
                    assert(before + Seq::<Feature>::empty() == before);
                }
            },
        }
        i += 1;
    }
    proof {
        assert(registry.elements@.take(registry.elements.len() as int) == registry.elements@);
    }
    out
}

fn collect_extensions<'a>(registry: &'a Registry) -> (r: Vec<&'a Extension>)
    ensures
        derefs(r@) == extensions_in(registry.elements@),
{
    let mut out: Vec<&'a Extension> = Vec::new();
    let mut i: usize = 0;
    proof {
        assert(registry.elements@.take(0) == Seq::<RegistryElement>::empty());
        assert(derefs(out@) == Seq::<Extension>::empty());
    }
    while i < registry.elements.len()
        invariant
            i <= registry.elements.len(),
            derefs(out@) == extensions_in(registry.elements@.take(i as int)),
        decreases registry.elements.len() - i,
    {
        let ghost before = derefs(out@);
        proof {
            assert(registry.elements@.take(i + 1).drop_last() == registry.elements@.take(
                i as int,
            ));
        }
        match &registry.elements[i] {
            RegistryElement::Extensions(items) => {
                append_refs(&mut out, items);
            },
            _ => {
                proof {
                    assert(before + Seq::<Extension>::empty() == before);
                }
            },
        }
        i += 1;
    }
    proof {
        assert(registry.elements@.take(registry.elements.len() as int) == registry.elements@);
    }
    out
}

fn collect_constants<'a>(registry: &'a Registry) -> (r: Vec<&'a RegistryConstant>)
    ensures
        derefs(r@) == constants_in(registry.elements@),
{
    let mut out: Vec<&'a RegistryConstant> = Vec::new();
    let mut i: usize = 0;
    proof {
        assert(registry.elements@.take(0) == Seq::<RegistryElement>::empty());
        assert(derefs(out@) == Seq::<RegistryConstant>::empty());
    }
    while i < registry.elements.len()
        invariant
            i <= registry.elements.len(),
            derefs(out@) == constants_in(registry.elements@.take(i as int)),
        decreases registry.elements.len() - i,
    {
        let ghost before = derefs(out@);
        proof {
            assert(registry.elements@.take(i + 1).drop_last() == registry.elements@.take(
                i as int,
            ));
        }
        match &registry.elements[i] {
            RegistryElement::Constants(items) => {
                append_refs(&mut out, items);
            },
            _ => {
                proof {
                    assert(before + Seq::<RegistryConstant>::empty() == before);
                }
            },
        }
        i += 1;
    }
    proof {
        assert(registry.elements@.take(registry.elements.len() as int) == registry.elements@);
    }
    out
}

/// Generates every enumeration, split into closed enumerations and bit-flag
/// types.
pub fn generate_enums(enums: &Vec<&Enumeration>) -> (r: Result<
    (Vec<EnumDecl>, Vec<BitflagsDecl>),
    GenError,
>)
    ensures
        match r {
            Ok((plain, flags)) => {
                let g = gather(derefs(enums@).map_values(|e: Enumeration| enum_of(e)));
                g is Ok && views(plain@) == enum_decls(g->Ok_0) && views(flags@) == flag_decls(
                    g->Ok_0,
                )
            },
            Err(e) => gather(derefs(enums@).map_values(|e: Enumeration| enum_of(e))) == Err::<
                Seq<EnumTypeView>,
                GenError,
            >(e),
        },
{
    let ghost steps = derefs(enums@).map_values(|e: Enumeration| enum_of(e));
    let mut plain: Vec<EnumDecl> = Vec::new();
    let mut flags: Vec<BitflagsDecl> = Vec::new();
    let mut i: usize = 0;
    proof {
        assert(steps.take(0) == Seq::<Result<EnumTypeView, GenError>>::empty());
        assert(views(plain@) == Seq::<EnumDeclView>::empty());
        assert(views(flags@) == Seq::<BitflagsDeclView>::empty());
    }
    while i < enums.len()
        invariant
            i <= enums.len(),
            steps == derefs(enums@).map_values(|e: Enumeration| enum_of(e)),
            gather(steps.take(i as int)) is Ok,
            views(plain@) == enum_decls(gather(steps.take(i as int))->Ok_0),
            views(flags@) == flag_decls(gather(steps.take(i as int))->Ok_0),
        decreases enums.len() - i,
    {
        proof {
            lemma_gather_step(steps, i as int);
        }
        let ghost done = gather(steps.take(i as int))->Ok_0;
        match generate_enum(enums[i]) {
            Ok(EnumType::Enum(d)) => {
                proof {
                    assert(done.push(EnumTypeView::Enum(d@)).drop_last() == done);
                    lemma_views_push(plain@, d);
                }
                plain.push(d);
            },
            Ok(EnumType::Bitflags(d)) => {
                proof {
                    assert(done.push(EnumTypeView::Bitflags(d@)).drop_last() == done);
                    lemma_views_push(flags@, d);
                }
                flags.push(d);
            },
            Err(e) => {
                proof {
                    lemma_gather_stops(steps, i as int + 1);
                }
                return Err(e);
            },
        }
        i += 1;
    }
    proof {
        assert(steps.take(enums.len() as int) == steps);
    }
    Ok((plain, flags))
}

/// Generates every definition from which something is generated.
pub fn generate_definitions(definitions: &Vec<&DefinitionsElement>) -> (r: Result<
    Vec<Definition>,
    GenError,
>)
    ensures
        match r {
            Ok(out) => {
                let g = gather(
                    derefs(definitions@).map_values(|d: DefinitionsElement| definition_of(d)),
                );
                g is Ok && views(out@) == kept(g->Ok_0)
            },
            Err(e) => gather(
                derefs(definitions@).map_values(|d: DefinitionsElement| definition_of(d)),
            ) == Err::<Seq<Option<DefinitionView>>, GenError>(e),
        },
{
    let ghost steps = derefs(definitions@).map_values(|d: DefinitionsElement| definition_of(d));
    let mut out: Vec<Definition> = Vec::new();
    let mut i: usize = 0;
    proof {
        assert(steps.take(0) == Seq::<Result<Option<DefinitionView>, GenError>>::empty());
        assert(views(out@) == Seq::<DefinitionView>::empty());
    }
    while i < definitions.len()
        invariant
            i <= definitions.len(),
            steps == derefs(definitions@).map_values(|d: DefinitionsElement| definition_of(d)),
            gather(steps.take(i as int)) is Ok,
            views(out@) == kept(gather(steps.take(i as int))->Ok_0),
        decreases definitions.len() - i,
    {
        proof {
            lemma_gather_step(steps, i as int);
        }
        let ghost done = gather(steps.take(i as int))->Ok_0;
        match generate_definition(definitions[i]) {
            Ok(Some(d)) => {
                proof {
                    lemma_kept_step(done, Some(d@));
                    lemma_views_push(out@, d);
                }
                out.push(d);
            },
            Ok(None) => {
                proof {
                    lemma_kept_step(done, None);
                }
            },
            Err(e) => {
                proof {
                    lemma_gather_stops(steps, i as int + 1);
                }
                return Err(e);
            },
        }
        i += 1;
    }
    proof {
        assert(steps.take(definitions.len() as int) == steps);
    }
    Ok(out)
}

/// Generates the function tables of every core revision.
pub fn generate_features(features: &Vec<&Feature>, commands: &CommandMap) -> (r: Result<
    Vec<CoreSpec>,
    GenError,
>)
    ensures
        match r {
            Ok(out) => gather(
                derefs(features@).map_values(|f: Feature| core_spec_of(f, commands@)),
            ) == Ok::<Seq<CoreSpecView>, GenError>(views(out@)),
            Err(e) => gather(
                derefs(features@).map_values(|f: Feature| core_spec_of(f, commands@)),
            ) == Err::<Seq<CoreSpecView>, GenError>(e),
        },
{
    let ghost steps = derefs(features@).map_values(|f: Feature| core_spec_of(f, commands@));
    let mut out: Vec<CoreSpec> = Vec::new();
    let mut i: usize = 0;
    proof {
        assert(steps.take(0) == Seq::<Result<CoreSpecView, GenError>>::empty());
        assert(views(out@) == Seq::<CoreSpecView>::empty());
    }
    while i < features.len()
        invariant
            i <= features.len(),
            steps == derefs(features@).map_values(|f: Feature| core_spec_of(f, commands@)),
            gather(steps.take(i as int)) == Ok::<Seq<CoreSpecView>, GenError>(views(out@)),
        decreases features.len() - i,
    {
        proof {
            lemma_gather_step(steps, i as int);
        }
        match generate_core_spec(features[i], commands) {
            Ok(s) => {
                proof {
                    lemma_views_push(out@, s);
                }
                out.push(s);
            },
            Err(e) => {
                proof {
                    lemma_gather_stops(steps, i as int + 1);
                }
                return Err(e);
            },
        }
        i += 1;
    }
    proof {
        assert(steps.take(features.len() as int) == steps);
    }
    Ok(out)
}

/// Generates the function table of every extension that has one.
pub fn generate_extensions(extensions: &Vec<&Extension>, commands: &CommandMap) -> (r: Result<
    Vec<FnTable>,
    GenError,
>)
    ensures
        match r {
            Ok(out) => {
                let g = gather(
                    derefs(extensions@).map_values(|x: Extension| extension_of(x, commands@)),
                );
                g is Ok && views(out@) == kept(g->Ok_0)
            },
            Err(e) => gather(
                derefs(extensions@).map_values(|x: Extension| extension_of(x, commands@)),
            ) == Err::<Seq<Option<FnTableView>>, GenError>(e),
        },
{
    let ghost steps = derefs(extensions@).map_values(|x: Extension| extension_of(x, commands@));
    let mut out: Vec<FnTable> = Vec::new();
    let mut i: usize = 0;
    proof {
        assert(steps.take(0) == Seq::<Result<Option<FnTableView>, GenError>>::empty());
        assert(views(out@) == Seq::<FnTableView>::empty());
    }
    while i < extensions.len()
        invariant
            i <= extensions.len(),
            steps == derefs(extensions@).map_values(|x: Extension| extension_of(x, commands@)),
            gather(steps.take(i as int)) is Ok,
            views(out@) == kept(gather(steps.take(i as int))->Ok_0),
        decreases extensions.len() - i,
    {
        proof {
            lemma_gather_step(steps, i as int);
        }
        let ghost done = gather(steps.take(i as int))->Ok_0;
        match generate_extension(extensions[i], commands) {
            Ok(Some(t)) => {
                proof {
                    lemma_kept_step(done, Some(t@));
                    lemma_views_push(out@, t);
                }
                out.push(t);
            },
            Ok(None) => {
                proof {
                    lemma_kept_step(done, None);
                }
            },
            Err(e) => {
                proof {
                    lemma_gather_stops(steps, i as int + 1);
                }
                return Err(e);
            },
        }
        i += 1;
    }
    proof {
        assert(steps.take(extensions.len() as int) == steps);
    }
    Ok(out)
}

/// Generates the binding of every top-level constant.
pub fn generate_constants(constants: &Vec<&RegistryConstant>) -> (r: Result<
    Vec<ConstDecl>,
    GenError,
>)
    ensures
        match r {
            Ok(out) => gather(
                derefs(constants@).map_values(|c: RegistryConstant| constant_of(c)),
            ) == Ok::<Seq<ConstDeclView>, GenError>(views(out@)),
            Err(e) => gather(
                derefs(constants@).map_values(|c: RegistryConstant| constant_of(c)),
            ) == Err::<Seq<ConstDeclView>, GenError>(e),
        },
{
    let ghost steps = derefs(constants@).map_values(|c: RegistryConstant| constant_of(c));
    let mut out: Vec<ConstDecl> = Vec::new();
    let mut i: usize = 0;
    proof {
        assert(steps.take(0) == Seq::<Result<ConstDeclView, GenError>>::empty());
        assert(views(out@) == Seq::<ConstDeclView>::empty());
    }
    while i < constants.len()
        invariant
            i <= constants.len(),
            steps == derefs(constants@).map_values(|c: RegistryConstant| constant_of(c)),
            gather(steps.take(i as int)) == Ok::<Seq<ConstDeclView>, GenError>(views(out@)),
        decreases constants.len() - i,
    {
        proof {
            lemma_gather_step(steps, i as int);
        }
        match generate_constant(constants[i]) {
            Ok(d) => {
                proof {
                    lemma_views_push(out@, d);
                }
                out.push(d);
            },
            Err(e) => {
                proof {
                    lemma_gather_stops(steps, i as int + 1);
                }
                return Err(e);
            },
        }
        i += 1;
    }
    proof {
        assert(steps.take(constants.len() as int) == steps);
    }
    Ok(out)
}

/// Runs a whole generation pass over a registry.
pub fn generate_source(registry: &Registry) -> (r: Result<Source, GenError>)
    ensures
        match r {
            Ok(s) => source_of(*registry) == Ok::<SourceView, GenError>(s@),
            Err(e) => source_of(*registry) == Err::<SourceView, GenError>(e),
        },
{
    let commands = CommandMap::from_registry(registry);
    let (enums, bitflags) = match generate_enums(&collect_enumerations(registry)) {
        Ok(pair) => pair,
        Err(e) => {
            return Err(e);
        },
    };
    let definitions = match generate_definitions(&collect_definitions(registry)) {
        Ok(d) => d,
        Err(e) => {
            return Err(e);
        },
    };
    let features = match generate_features(&collect_features(registry), &commands) {
        Ok(f) => f,
        Err(e) => {
            return Err(e);
        },
    };
    let extensions = match generate_extensions(&collect_extensions(registry), &commands) {
        Ok(x) => x,
        Err(e) => {
            return Err(e);
        },
    };
    let constants = match generate_constants(&collect_constants(registry)) {
        Ok(c) => c,
        Err(e) => {
            return Err(e);
        },
    };
    Ok(Source { enums, bitflags, definitions, features, extensions, constants })
}

} // verus!
