//! Enumerations: the naming of variants, and the generation of closed
//! enumerations and of bit-flag types.

use crate::case::{camel_case, to_camel_case};
use crate::constant::{ConstVal, Constant};
use crate::decl::{
    or_of_bits, BitflagsDecl, BitflagsDeclView, Description, DescriptionView,
    EnumDecl, EnumDeclView, FlagConstant, FlagConstantView, Variant, VariantView,
};
use crate::error::GenError;
use crate::seqs::{lemma_views_push, views};
use crate::registry::{Enumeration, EnumerationElement, RegistryConstant};
use crate::text::{
    chars_of, concat_strings, contains, ends_with, has_infix, has_suffix, is_digit,
    is_digit_char, remove_all, replace_all, replace_in, same_text, string_of, string_of_range,
    strip_all, tail_from,
};
use vstd::prelude::*;
use vstd::string::StringExecFns;

verus! {

/// The vendor tag that a name ends with: the first of `AMD`, `NN`, `KHR`,
/// `NV`, `EXT`, `NVX`, `KHX` that is a suffix of it.
pub open spec fn vendor_tag(name: Seq<char>) -> Option<Seq<char>> {
    if ends_with(name, "AMD"@) {
        Some("AMD"@)
    } else if ends_with(name, "NN"@) {
        Some("NN"@)
    } else if ends_with(name, "KHR"@) {
        Some("KHR"@)
    } else if ends_with(name, "NV"@) {
        Some("NV"@)
    } else if ends_with(name, "EXT"@) {
        Some("EXT"@)
    } else if ends_with(name, "NVX"@) {
        Some("NVX"@)
    } else if ends_with(name, "KHX"@) {
        Some("KHX"@)
    } else {
        None
    }
}

/// A text without the vendor tag of an enumeration: every occurrence of the
/// tag is taken out, wherever it stands.
pub open spec fn without_tag(tag: Option<Seq<char>>, s: Seq<char>) -> Seq<char> {
    match tag {
        Some(t) => remove_all(s, t),
        None => s,
    }
}

/// The identifier of a variant, from the camel-case forms of the enumeration's
/// name and of the constant's name: the constant's form loses its first two
/// characters and every occurrence of the enumeration's form, and gets `Type`
/// in front where it would begin with a digit.
pub open spec fn variant_from_camel(enum_camel: Seq<char>, variant_camel: Seq<char>) -> Result<
    Seq<char>,
    GenError,
> {
    if variant_camel.len() < 2 {
        Err(GenError::ShortName)
    } else {
        let name = remove_all(variant_camel.skip(2), enum_camel);
        if name.len() > 0 && is_digit(name[0]) {
            Ok("Type"@ + name)
        } else {
            Ok(name)
        }
    }
}

/// The identifier of the variant that a constant of an enumeration becomes.
pub open spec fn variant_name(enum_name: Seq<char>, constant_name: Seq<char>) -> Result<
    Seq<char>,
    GenError,
> {
    let tag = vendor_tag(enum_name);
    variant_from_camel(
        camel_case(without_tag(tag, enum_name)),
        camel_case(without_tag(tag, constant_name)),
    )
}

fn suffix_tag(name: &Vec<char>, tag: &str) -> (r: Option<Vec<char>>)
    ensures
        match r {
            Some(t) => ends_with(name@, tag@) && t@ == tag@,
            None => !ends_with(name@, tag@),
        },
{
    let t = chars_of(tag);
    if has_suffix(name, &t) {
        Some(t)
    } else {
        None
    }
}

/// Finds the vendor tag that a name ends with.
pub fn find_vendor_tag(name: &str) -> (r: Option<Vec<char>>)
    ensures
        match r {
            Some(t) => vendor_tag(name@) == Some(t@),
            None => vendor_tag(name@) is None,
        },
{
    let chars = chars_of(name);
    if let Some(t) = suffix_tag(&chars, "AMD") {
        return Some(t);
    }
    if let Some(t) = suffix_tag(&chars, "NN") {
        return Some(t);
    }
    if let Some(t) = suffix_tag(&chars, "KHR") {
        return Some(t);
    }
    if let Some(t) = suffix_tag(&chars, "NV") {
        return Some(t);
    }
    if let Some(t) = suffix_tag(&chars, "EXT") {
        return Some(t);
    }
    if let Some(t) = suffix_tag(&chars, "NVX") {
        return Some(t);
    }
    suffix_tag(&chars, "KHX")
}

fn strip_tag(tag: &Option<Vec<char>>, s: &str) -> (r: String)
    ensures
        r@ == without_tag(
            match tag {
                Some(t) => Some(t@),
                None => None,
            },
            s@,
        ),
{
    let chars = chars_of(s);
    match tag {
        Some(t) => string_of(&strip_all(&chars, t)),
        None => string_of(&chars),
    }
}

/// Makes the identifier of a variant from the two camel-case forms.
pub fn variant_ident_from_camel(enum_camel: &str, variant_camel: &str) -> (r: Result<
    String,
    GenError,
>)
    ensures
        match r {
            Ok(t) => variant_from_camel(enum_camel@, variant_camel@) == Ok::<Seq<char>, GenError>(
                t@,
            ),
            Err(e) => variant_from_camel(enum_camel@, variant_camel@) == Err::<
                Seq<char>,
                GenError,
            >(e),
        },
{
    let variant = chars_of(variant_camel);
    if variant.len() < 2 {
        return Err(GenError::ShortName);
    }
    let stem = tail_from(&variant, 2);
    let pattern = chars_of(enum_camel);
    let name = strip_all(&stem, &pattern);
    if name.len() > 0 && is_digit_char(name[0]) {
        Ok(concat_strings(String::from_str("Type"), &string_of(&name)))
    } else {
        Ok(string_of(&name))
    }
}

/// The identifier of the variant that the constant `variant_name` of the
/// enumeration `enum_name` becomes.
pub fn to_variant_ident(enum_name: &str, variant_name: &str) -> (r: Result<String, GenError>)
    ensures
        match r {
            Ok(t) => self::variant_name(enum_name@, variant_name@) == Ok::<Seq<char>, GenError>(
                t@,
            ),
            Err(e) => self::variant_name(enum_name@, variant_name@) == Err::<Seq<char>, GenError>(
                e,
            ),
        },
{
    let tag = find_vendor_tag(enum_name);
    let name_without_tag = strip_tag(&tag, enum_name);
    let variant_without_tag = strip_tag(&tag, variant_name);
    let enum_camel = to_camel_case(name_without_tag.as_str());
    let variant_camel = to_camel_case(variant_without_tag.as_str());
    variant_ident_from_camel(enum_camel.as_str(), variant_camel.as_str())
}

/// What generating an enumeration gives: a bit-flag type or a closed
/// enumeration.
#[derive(Clone, Debug, PartialEq, Eq)]
pub enum EnumType {
    Bitflags(BitflagsDecl),
    Enum(EnumDecl),
}

/// The view of [`EnumType`]: the same, with every text as a sequence of
/// characters.
pub ghost enum EnumTypeView {
    Bitflags(BitflagsDeclView),
    Enum(EnumDeclView),
}

impl View for EnumType {
    type V = EnumTypeView;

    open spec fn view(&self) -> EnumTypeView {
        match *self {
            EnumType::Bitflags(d) => EnumTypeView::Bitflags(d@),
            EnumType::Enum(d) => EnumTypeView::Enum(d@),
        }
    }
}

/// The bits that a constant adds to the mask of its bit-flag type: its
/// resolved value; nothing where it has none.
pub open spec fn constant_bits(c: RegistryConstant) -> u64 {
    match Constant::spec_from_constant(c) {
        Ok(form) => match form.bits() {
            Some(v) => v,
            None => 0,
        },
        Err(_) => 0,
    }
}

/// The bits that an element of an enumeration adds to the mask.
pub open spec fn element_bits(e: EnumerationElement) -> u64 {
    match e {
        EnumerationElement::Enum(c) => constant_bits(c),
        _ => 0,
    }
}

/// The mask of a bit-flag type: the bitwise OR of the resolved values of all
/// its constants.  A constant whose value is zero adds nothing.
pub open spec fn all_bits(elements: Seq<EnumerationElement>) -> u64
    decreases elements.len(),
{
    if elements.len() == 0 {
        0
    } else {
        all_bits(elements.drop_last()) | element_bits(elements.last())
    }
}

/// The constant of a bit-flag type that a registry constant becomes.  A
/// constant whose value is zero is an alias and becomes nothing.  The name
/// loses its first three characters.
pub open spec fn flag_step(c: RegistryConstant) -> Result<Option<FlagConstantView>, GenError> {
    match Constant::spec_from_constant(c) {
        Err(e) => Err(e),
        Ok(form) => if c.name@.len() < 3 {
            Err(GenError::ShortName)
        } else if form.bits() == Some(0u64) {
            Ok(None)
        } else {
            match form.tokens() {
                Err(e) => Err(e),
                Ok(value) => Ok(
                    Some(FlagConstantView { name: c.name@.skip(3), value, bits: form.bits() }),
                ),
            }
        },
    }
}

/// The constant of a bit-flag type that an element of an enumeration becomes;
/// only a constant becomes one.
pub open spec fn element_flag_step(e: EnumerationElement) -> Result<
    Option<FlagConstantView>,
    GenError,
> {
    match e {
        EnumerationElement::Enum(c) => flag_step(c),
        _ => Ok(None),
    }
}

/// Whether one of the constants has the given name.
pub open spec fn has_constant(constants: Seq<FlagConstantView>, name: Seq<char>) -> bool {
    exists|i: int| 0 <= i < constants.len() && constants[i].name == name
}

/// No two of the constants have the same name.
pub open spec fn distinct_constants(constants: Seq<FlagConstantView>) -> bool {
    forall|i: int, j: int|
        0 <= i < j < constants.len() ==> constants[i].name != constants[j].name
}

/// The constants that the elements of an enumeration declare for a bit-flag
/// type, in order.  The elements are taken one after the other: the first
/// that cannot be turned into a constant fails the whole with its error, and
/// so does the first whose name an earlier constant already has.
pub open spec fn flag_constants_of(elements: Seq<EnumerationElement>) -> Result<
    Seq<FlagConstantView>,
    GenError,
>
    decreases elements.len(),
{
    if elements.len() == 0 {
        Ok(Seq::empty())
    } else {
        match flag_constants_of(elements.drop_last()) {
            Err(e) => Err(e),
            Ok(constants) => match element_flag_step(elements.last()) {
                Err(e) => Err(e),
                Ok(None) => Ok(constants),
                Ok(Some(k)) => if has_constant(constants, k.name) {
                    Err(GenError::DuplicateIdentifier)
                } else {
                    Ok(constants.push(k))
                },
            },
        }
    }
}

/// The bit-flag type of the given name that the elements of an enumeration
/// declare.
pub open spec fn bitflags_of(name: Seq<char>, elements: Seq<EnumerationElement>) -> Result<
    BitflagsDeclView,
    GenError,
> {
    match flag_constants_of(elements) {
        Ok(constants) => Ok(BitflagsDeclView { name, all: all_bits(elements), constants }),
        Err(e) => Err(e),
    }
}

/// The variant that a registry constant becomes in the enumeration `name`: its
/// identifier and the text of its value.  A constant whose form resolves to no
/// value becomes nothing.
pub open spec fn variant_step(name: Seq<char>, c: RegistryConstant) -> Result<
    Option<VariantView>,
    GenError,
> {
    match Constant::spec_from_constant(c) {
        Err(e) => Err(e),
        Ok(form) => if form.value() is None {
            Ok(None)
        } else {
            match variant_name(name, c.name@) {
                Err(e) => Err(e),
                Ok(ident) => match form.tokens() {
                    Err(e) => Err(e),
                    Ok(value) => Ok(Some(VariantView { name: ident, value })),
                },
            }
        },
    }
}

/// The variant that an element of an enumeration becomes; only a constant
/// becomes one.
pub open spec fn element_variant_step(name: Seq<char>, e: EnumerationElement) -> Result<
    Option<VariantView>,
    GenError,
> {
    match e {
        EnumerationElement::Enum(c) => variant_step(name, c),
        _ => Ok(None),
    }
}

/// Whether one of the variants has the given name.
pub open spec fn has_variant(variants: Seq<VariantView>, name: Seq<char>) -> bool {
    exists|i: int| 0 <= i < variants.len() && variants[i].name == name
}

/// No two of the variants have the same name.
pub open spec fn distinct_variants(variants: Seq<VariantView>) -> bool {
    forall|i: int, j: int| 0 <= i < j < variants.len() ==> variants[i].name != variants[j].name
}

/// The variants of the enumeration `name`, in the order of its elements.  The
/// elements are taken one after the other: the first that cannot be turned
/// into a variant fails the whole with its error, and so does the first whose
/// identifier an earlier variant already has.
pub open spec fn variants_of(name: Seq<char>, elements: Seq<EnumerationElement>) -> Result<
    Seq<VariantView>,
    GenError,
>
    decreases elements.len(),
{
    if elements.len() == 0 {
        Ok(Seq::empty())
    } else {
        match variants_of(name, elements.drop_last()) {
            Err(e) => Err(e),
            Ok(variants) => match element_variant_step(name, elements.last()) {
                Err(e) => Err(e),
                Ok(None) => Ok(variants),
                Ok(Some(v)) => if has_variant(variants, v.name) {
                    Err(GenError::DuplicateIdentifier)
                } else {
                    Ok(variants.push(v))
                },
            },
        }
    }
}

/// The free text of a constant, empty where the registry gives none.
pub open spec fn notation_of(c: RegistryConstant) -> Seq<char> {
    match c.notation {
        Some(n) => n@,
        None => Seq::empty(),
    }
}

/// The description of the variant that a registry constant becomes.
pub open spec fn description_step(name: Seq<char>, e: EnumerationElement) -> Result<
    Option<DescriptionView>,
    GenError,
> {
    match e {
        EnumerationElement::Enum(c) => match variant_step(name, c) {
            Err(e) => Err(e),
            Ok(None) => Ok(None),
            Ok(Some(v)) => Ok(Some(DescriptionView { variant: v.name, text: notation_of(c) })),
        },
        _ => Ok(None),
    }
}

/// Whether one of the descriptions is of the variant of the given name.
pub open spec fn has_description(descriptions: Seq<DescriptionView>, name: Seq<char>) -> bool {
    exists|i: int| 0 <= i < descriptions.len() && descriptions[i].variant == name
}

/// The descriptions of the variants of the enumeration `name`, taken as the
/// variants are: one per variant and in the same order, failing where the
/// variants fail and with the same error.
pub open spec fn descriptions_of(name: Seq<char>, elements: Seq<EnumerationElement>) -> Result<
    Seq<DescriptionView>,
    GenError,
>
    decreases elements.len(),
{
    if elements.len() == 0 {
        Ok(Seq::empty())
    } else {
        match descriptions_of(name, elements.drop_last()) {
            Err(e) => Err(e),
            Ok(descriptions) => match description_step(name, elements.last()) {
                Err(e) => Err(e),
                Ok(None) => Ok(descriptions),
                Ok(Some(d)) => if has_description(descriptions, d.variant) {
                    Err(GenError::DuplicateIdentifier)
                } else {
                    Ok(descriptions.push(d))
                },
            },
        }
    }
}

/// Each description is of the variant at its own position.
pub open spec fn describe(descriptions: Seq<DescriptionView>, variants: Seq<VariantView>) -> bool {
    &&& descriptions.len() == variants.len()
    &&& forall|i: int|
        0 <= i < variants.len() ==> (#[trigger] descriptions[i]).variant == variants[i].name
}

/// The closed enumeration without descriptions.
pub open spec fn plain_of(name: Seq<char>, elements: Seq<EnumerationElement>) -> Result<
    EnumDeclView,
    GenError,
> {
    match variants_of(name, elements) {
        Ok(variants) => Ok(EnumDeclView { name, variants, descriptions: None }),
        Err(e) => Err(e),
    }
}

/// The result enumeration: a closed enumeration with a description for each
/// variant.
pub open spec fn result_of(name: Seq<char>, elements: Seq<EnumerationElement>) -> Result<
    EnumDeclView,
    GenError,
> {
    match variants_of(name, elements) {
        Err(e) => Err(e),
        Ok(variants) => match descriptions_of(name, elements) {
            Err(e) => Err(e),
            Ok(descriptions) => Ok(
                EnumDeclView { name, variants, descriptions: Some(descriptions) },
            ),
        },
    }
}

/// What an enumeration of the registry becomes.  Its name loses the
/// two-character prefix.  With `Bit` in that name it is a bit-flag type;
/// otherwise a closed enumeration, which is the result enumeration where it is
/// called `Result`.  `FlagBits` in the name is written `Flags`.
pub open spec fn enum_of(e: Enumeration) -> Result<EnumTypeView, GenError> {
    if e.name@.len() < 2 {
        Err(GenError::ShortName)
    } else {
        let stem = e.name@.skip(2);
        let name = replace_all(stem, "FlagBits"@, "Flags"@);
        if contains(stem, "Bit"@) {
            match bitflags_of(name, e.elements@) {
                Ok(d) => Ok(EnumTypeView::Bitflags(d)),
                Err(e) => Err(e),
            }
        } else if name == "Result"@ {
            match result_of(name, e.elements@) {
                Ok(d) => Ok(EnumTypeView::Enum(d)),
                Err(e) => Err(e),
            }
        } else {
            match plain_of(name, e.elements@) {
                Ok(d) => Ok(EnumTypeView::Enum(d)),
                Err(e) => Err(e),
            }
        }
    }
}

/// Every bit that an element adds is in the mask.
pub proof fn lemma_all_bits_covers(elements: Seq<EnumerationElement>, i: int)
    requires
        0 <= i < elements.len(),
    ensures
        element_bits(elements[i]) & !all_bits(elements) == 0,
    decreases elements.len(),
{
    let rest = elements.drop_last();
    let a = all_bits(rest);
    let b = element_bits(elements.last());
    if i == elements.len() - 1 {
        assert(b & !(a | b) == 0) by (bit_vector);
    } else {
        lemma_all_bits_covers(rest, i);
        let x = element_bits(rest[i]);
        assert(x & !a == 0 ==> x & !(a | b) == 0) by (bit_vector);
    }
}

/// The mask of a generated bit-flag type is the OR of the bits of the
/// constants it declares; every such constant has its bits within the mask,
/// none with resolved bits is zero, and no two have the same name.
pub proof fn lemma_mask_covers_constants(name: Seq<char>, elements: Seq<EnumerationElement>)
    requires
        bitflags_of(name, elements) is Ok,
    ensures
        bitflags_of(name, elements)->Ok_0.covers_constants(),
        bitflags_of(name, elements)->Ok_0.mask_is_union(),
        bitflags_of(name, elements)->Ok_0.all == all_bits(elements),
        distinct_constants(bitflags_of(name, elements)->Ok_0.constants),
{
    lemma_flag_constants(elements);
}

/// What holds of the constants that a sequence of elements declares.
pub proof fn lemma_flag_constants(elements: Seq<EnumerationElement>)
    requires
        flag_constants_of(elements) is Ok,
    ensures
        all_bits(elements) == or_of_bits(flag_constants_of(elements)->Ok_0),
        distinct_constants(flag_constants_of(elements)->Ok_0),
        forall|i: int|
            0 <= i < flag_constants_of(elements)->Ok_0.len() ==> match (
            #[trigger] flag_constants_of(elements)->Ok_0[i]).bits {
                Some(v) => v != 0 && v & !all_bits(elements) == 0,
                None => true,
            },
    decreases elements.len(),
{
    if elements.len() > 0 {
        let rest = elements.drop_last();
        lemma_flag_constants(rest);
        let before = flag_constants_of(rest)->Ok_0;
        let constants = flag_constants_of(elements)->Ok_0;
        let a = all_bits(rest);
        let b = element_bits(elements.last());
        let all = all_bits(elements);
        assert(all == a | b);
        match element_flag_step(elements.last())->Ok_0 {
            Some(k) => {
                assert(constants.drop_last() == before);
                assert forall|i: int, j: int| 0 <= i < j < constants.len() implies constants[i].name
                    != constants[j].name by {
                    if j < before.len() {
                        assert(before[i].name != before[j].name);
                    } else {
                        assert(before[i].name != k.name);
                    }
                }
            },
            None => {
                assert(a | 0 == a) by (bit_vector);
            },
        }
        assert forall|i: int| 0 <= i < constants.len() implies match (#[trigger] constants[i]).bits {
            Some(v) => v != 0 && v & !all == 0,
            None => true,
        } by {
            if i < before.len() {
                assert(constants[i] == before[i]);
                if let Some(v) = before[i].bits {
                    assert(v & !a == 0 ==> v & !(a | b) == 0) by (bit_vector);
                }
            } else {
                if let Some(v) = constants[i].bits {
                    assert(v == b);
                    assert(v & !(a | v) == 0) by (bit_vector);
                }
            }
        }
    }
}

/// Taking one element more.
pub proof fn lemma_flag_constants_step(elements: Seq<EnumerationElement>, n: int)
    requires
        0 <= n < elements.len(),
    ensures
        flag_constants_of(elements.take(n + 1)) == match flag_constants_of(elements.take(n)) {
            Err(e) => Err(e),
            Ok(constants) => match element_flag_step(elements[n]) {
                Err(e) => Err(e),
                Ok(None) => Ok(constants),
                Ok(Some(k)) => if has_constant(constants, k.name) {
                    Err(GenError::DuplicateIdentifier)
                } else {
                    Ok(constants.push(k))
                },
            },
        },
{
    assert(elements.take(n + 1).drop_last() == elements.take(n));
}

/// Once a beginning of the elements has failed, the whole has failed with
/// the same error.
pub proof fn lemma_flag_constants_stop(elements: Seq<EnumerationElement>, n: int)
    requires
        0 <= n <= elements.len(),
        flag_constants_of(elements.take(n)) is Err,
    ensures
        flag_constants_of(elements) == flag_constants_of(elements.take(n)),
    decreases elements.len() - n,
{
    if n == elements.len() {
        assert(elements.take(n) == elements);
    } else {
        lemma_flag_constants_step(elements, n);
        lemma_flag_constants_stop(elements, n + 1);
    }
}

/// No two variants of a generated enumeration have the same identifier.
pub proof fn lemma_variants_distinct(name: Seq<char>, elements: Seq<EnumerationElement>)
    requires
        variants_of(name, elements) is Ok,
    ensures
        distinct_variants(variants_of(name, elements)->Ok_0),
    decreases elements.len(),
{
    if elements.len() > 0 {
        let rest = elements.drop_last();
        lemma_variants_distinct(name, rest);
        let before = variants_of(name, rest)->Ok_0;
        let variants = variants_of(name, elements)->Ok_0;
        match element_variant_step(name, elements.last())->Ok_0 {
            Some(v) => {
                assert(variants.drop_last() == before);
                assert forall|i: int, j: int| 0 <= i < j < variants.len() implies variants[i].name
                    != variants[j].name by {
                    if j < before.len() {
                        assert(before[i].name != before[j].name);
                    } else {
                        assert(before[i].name != v.name);
                    }
                }
            },
            None => {},
        }
    }
}

/// Taking one element more.
pub proof fn lemma_variants_step(name: Seq<char>, elements: Seq<EnumerationElement>, n: int)
    requires
        0 <= n < elements.len(),
    ensures
        variants_of(name, elements.take(n + 1)) == match variants_of(name, elements.take(n)) {
            Err(e) => Err(e),
            Ok(variants) => match element_variant_step(name, elements[n]) {
                Err(e) => Err(e),
                Ok(None) => Ok(variants),
                Ok(Some(v)) => if has_variant(variants, v.name) {
                    Err(GenError::DuplicateIdentifier)
                } else {
                    Ok(variants.push(v))
                },
            },
        },
{
    assert(elements.take(n + 1).drop_last() == elements.take(n));
}

/// Once a beginning of the elements has failed, the whole has failed with
/// the same error.
pub proof fn lemma_variants_stop(name: Seq<char>, elements: Seq<EnumerationElement>, n: int)
    requires
        0 <= n <= elements.len(),
        variants_of(name, elements.take(n)) is Err,
    ensures
        variants_of(name, elements) == variants_of(name, elements.take(n)),
    decreases elements.len() - n,
{
    if n == elements.len() {
        assert(elements.take(n) == elements);
    } else {
        lemma_variants_step(name, elements, n);
        lemma_variants_stop(name, elements, n + 1);
    }
}

/// An enumeration has descriptions exactly when it has variants, and then
/// one description for each variant, in the same order; where it has none,
/// both fail with the same error.
pub proof fn lemma_descriptions_follow_variants(name: Seq<char>, elements: Seq<EnumerationElement>)
    ensures
        match (variants_of(name, elements), descriptions_of(name, elements)) {
            (Ok(variants), Ok(descriptions)) => describe(descriptions, variants),
            (Err(e), Err(f)) => e == f,
            _ => false,
        },
    decreases elements.len(),
{
    if elements.len() > 0 {
        let rest = elements.drop_last();
        lemma_descriptions_follow_variants(name, rest);
        match (variants_of(name, rest), descriptions_of(name, rest)) {
            (Ok(variants), Ok(descriptions)) => {
                match element_variant_step(name, elements.last()) {
                    Ok(Some(v)) => {
                        if has_variant(variants, v.name) {
                            let i = choose|i: int|
                                0 <= i < variants.len() && variants[i].name == v.name;
                            assert(descriptions[i].variant == v.name);
                        }
                        if has_description(descriptions, v.name) {
                            let i = choose|i: int|
                                0 <= i < descriptions.len() && descriptions[i].variant == v.name;
                            assert(variants[i].name == v.name);
                        }
                    },
                    _ => {},
                }
            },
            _ => {},
        }
    }
}

/// Taking one element more.
pub proof fn lemma_descriptions_step(name: Seq<char>, elements: Seq<EnumerationElement>, n: int)
    requires
        0 <= n < elements.len(),
    ensures
        descriptions_of(name, elements.take(n + 1)) == match descriptions_of(
            name,
            elements.take(n),
        ) {
            Err(e) => Err(e),
            Ok(descriptions) => match description_step(name, elements[n]) {
                Err(e) => Err(e),
                Ok(None) => Ok(descriptions),
                Ok(Some(d)) => if has_description(descriptions, d.variant) {
                    Err(GenError::DuplicateIdentifier)
                } else {
                    Ok(descriptions.push(d))
                },
            },
        },
{
    assert(elements.take(n + 1).drop_last() == elements.take(n));
}

/// Once a beginning of the elements has failed, the whole has failed with
/// the same error.
pub proof fn lemma_descriptions_stop(name: Seq<char>, elements: Seq<EnumerationElement>, n: int)
    requires
        0 <= n <= elements.len(),
        descriptions_of(name, elements.take(n)) is Err,
    ensures
        descriptions_of(name, elements) == descriptions_of(name, elements.take(n)),
    decreases elements.len() - n,
{
    if n == elements.len() {
        assert(elements.take(n) == elements);
    } else {
        lemma_descriptions_step(name, elements, n);
        lemma_descriptions_stop(name, elements, n + 1);
    }
}

fn flag_constant(c: &RegistryConstant) -> (r: Result<(u64, Option<FlagConstant>), GenError>)
    ensures
        match r {
            Ok((bits, Some(k))) => bits == constant_bits(*c) && flag_step(*c) == Ok::<
                Option<FlagConstantView>,
                GenError,
            >(Some(k@)),
            Ok((bits, None)) => bits == constant_bits(*c) && flag_step(*c) == Ok::<
                Option<FlagConstantView>,
                GenError,
            >(None),
            Err(e) => flag_step(*c) == Err::<Option<FlagConstantView>, GenError>(e),
        },
{
    let form = match Constant::from_constant(c) {
        Ok(f) => f,
        Err(e) => {
            return Err(e);
        },
    };
    let chars = chars_of(c.name.as_str());
    if chars.len() < 3 {
        return Err(GenError::ShortName);
    }
    let bits: Option<u64> = match form.value() {
        Some(v) => match v {
            ConstVal::U64(n) => Some(n),
            _ => None,
        },
        None => None,
    };
    let added: u64 = match bits {
        Some(v) => v,
        None => 0,
    };
    if added == 0 && bits.is_some() {
        return Ok((added, None));
    }
    match form.to_tokens() {
        Err(e) => Err(e),
        Ok(value) => Ok(
            (
                added,
                Some(FlagConstant { name: string_of_range(&chars, 3, chars.len()), value, bits }),
            ),
        ),
    }
}

fn declares(constants: &Vec<FlagConstant>, name: &String) -> (r: bool)
    ensures
        r == has_constant(views(constants@), name@),
{
    let mut i: usize = 0;
    while i < constants.len()
        invariant
            i <= constants.len(),
            forall|k: int| 0 <= k < i ==> views(constants@)[k].name != name@,
        decreases constants.len() - i,
    {
        if same_text(constants[i].name.as_str(), name.as_str()) {
            assert(views(constants@)[i as int].name == name@);
            return true;
        }
        i += 1;
    }
    false
}

/// Generates the bit-flag type of the given name from the elements of an
/// enumeration.
///
/// The mask of the type is the OR of the resolved values of all the constants;
/// every constant that is not zero is declared, in the order of the registry,
/// its bits lie within the mask, and no two declared constants have the same
/// name.
pub fn generate_bitflags(name: String, elements: &Vec<EnumerationElement>) -> (r: Result<
    BitflagsDecl,
    GenError,
>)
    ensures
        match r {
            Ok(d) => bitflags_of(name@, elements@) == Ok::<BitflagsDeclView, GenError>(d@)
                && d.all == all_bits(elements@) && d@.mask_is_union() && d@.covers_constants()
                && distinct_constants(d@.constants),
            Err(e) => bitflags_of(name@, elements@) == Err::<BitflagsDeclView, GenError>(e),
        },
{
    let mut all: u64 = 0;
    let mut constants: Vec<FlagConstant> = Vec::new();
    let mut i: usize = 0;
    proof {
        assert(elements@.take(0) == Seq::<EnumerationElement>::empty());
        assert(views(constants@) == Seq::<FlagConstantView>::empty());
    }
    while i < elements.len()
        invariant
            i <= elements.len(),
            flag_constants_of(elements@.take(i as int)) == Ok::<Seq<FlagConstantView>, GenError>(
                views(constants@),
            ),
            all == all_bits(elements@.take(i as int)),
        decreases elements.len() - i,
    {
        proof {
            lemma_flag_constants_step(elements@, i as int);
            assert(elements@.take(i + 1).drop_last() == elements@.take(i as int));
        }
        match &elements[i] {
            EnumerationElement::Enum(c) => {
                match flag_constant(c) {
                    Ok((bits, step)) => {
                        all = all | bits;
                        match step {
                            Some(k) => {
                                if declares(&constants, &k.name) {
                                    proof {
                                        lemma_flag_constants_stop(elements@, i as int + 1);
                                    }
                                    return Err(GenError::DuplicateIdentifier);
                                }
                                proof {
                                    lemma_views_push(constants@, k);
                                }
                                constants.push(k);
                            },
                            None => {},
                        }
                    },
                    Err(e) => {
                        proof {
                            lemma_flag_constants_stop(elements@, i as int + 1);
                        }
                        return Err(e);
                    },
                }
            },
            _ => {
                proof {
                    let a = all;
                    assert(a | 0 == a) by (bit_vector);
                }
            },
        }
        i += 1;
    }
    proof {
        assert(elements@.take(elements.len() as int) == elements@);
        lemma_mask_covers_constants(name@, elements@);
    }
    Ok(BitflagsDecl { name, all, constants })
}

fn variant_of(name: &str, c: &RegistryConstant) -> (r: Result<Option<Variant>, GenError>)
    ensures
        match r {
            Ok(Some(v)) => variant_step(name@, *c) == Ok::<Option<VariantView>, GenError>(
                Some(v@),
            ),
            Ok(None) => variant_step(name@, *c) == Ok::<Option<VariantView>, GenError>(None),
            Err(e) => variant_step(name@, *c) == Err::<Option<VariantView>, GenError>(e),
        },
{
    let form = match Constant::from_constant(c) {
        Ok(f) => f,
        Err(e) => {
            return Err(e);
        },
    };
    if form.value().is_none() {
        return Ok(None);
    }
    let ident = match to_variant_ident(name, c.name.as_str()) {
        Ok(t) => t,
        Err(e) => {
            return Err(e);
        },
    };
    match form.to_tokens() {
        Ok(value) => Ok(Some(Variant { name: ident, value })),
        Err(e) => Err(e),
    }
}

fn names(variants: &Vec<Variant>, name: &String) -> (r: bool)
    ensures
        r == has_variant(views(variants@), name@),
{
    let mut i: usize = 0;
    while i < variants.len()
        invariant
            i <= variants.len(),
            forall|k: int| 0 <= k < i ==> views(variants@)[k].name != name@,
        decreases variants.len() - i,
    {
        if same_text(variants[i].name.as_str(), name.as_str()) {
            assert(views(variants@)[i as int].name == name@);
            return true;
        }
        i += 1;
    }
    false
}

/// Generates the variants of the enumeration `name`, one for each constant
/// that resolves to a value, in the order of the registry.  No two variants
/// have the same identifier: a constant whose identifier an earlier variant
/// already has fails the enumeration.
pub fn generate_variants(name: &str, elements: &Vec<EnumerationElement>) -> (r: Result<
    Vec<Variant>,
    GenError,
>)
    ensures
        match r {
            Ok(v) => variants_of(name@, elements@) == Ok::<Seq<VariantView>, GenError>(
                views(v@),
            ) && distinct_variants(views(v@)),
            Err(e) => variants_of(name@, elements@) == Err::<Seq<VariantView>, GenError>(e),
        },
{
    let mut variants: Vec<Variant> = Vec::new();
    let mut i: usize = 0;
    proof {
        assert(elements@.take(0) == Seq::<EnumerationElement>::empty());
        assert(views(variants@) == Seq::<VariantView>::empty());
    }
    while i < elements.len()
        invariant
            i <= elements.len(),
            variants_of(name@, elements@.take(i as int)) == Ok::<Seq<VariantView>, GenError>(
                views(variants@),
            ),
        decreases elements.len() - i,
    {
        proof {
            lemma_variants_step(name@, elements@, i as int);
        }
        let step = match &elements[i] {
            EnumerationElement::Enum(c) => variant_of(name, c),
            _ => Ok(None),
        };
        match step {
            Ok(Some(v)) => {
                if names(&variants, &v.name) {
                    proof {
                        lemma_variants_stop(name@, elements@, i as int + 1);
                    }
                    return Err(GenError::DuplicateIdentifier);
                }
                proof {
                    lemma_views_push(variants@, v);
                }
                variants.push(v);
            },
            Ok(None) => {},
            Err(e) => {
                proof {
                    lemma_variants_stop(name@, elements@, i as int + 1);
                }
                return Err(e);
            },
        }
        i += 1;
    }
    proof {
        assert(elements@.take(elements.len() as int) == elements@);
        lemma_variants_distinct(name@, elements@);
    }
    Ok(variants)
}

fn description_of(name: &str, c: &RegistryConstant) -> (r: Result<Option<Description>, GenError>)
    ensures
        match r {
            Ok(Some(d)) => description_step(name@, EnumerationElement::Enum(*c)) == Ok::<
                Option<DescriptionView>,
                GenError,
            >(Some(d@)),
            Ok(None) => description_step(name@, EnumerationElement::Enum(*c)) == Ok::<
                Option<DescriptionView>,
                GenError,
            >(None),
            Err(e) => description_step(name@, EnumerationElement::Enum(*c)) == Err::<
                Option<DescriptionView>,
                GenError,
            >(e),
        },
{
    match variant_of(name, c) {
        Err(e) => Err(e),
        Ok(None) => Ok(None),
        Ok(Some(v)) => {
            let text = match &c.notation {
                Some(n) => n.clone(),
                None => String::new(),
            };
            Ok(Some(Description { variant: v.name, text }))
        },
    }
}

fn describes(descriptions: &Vec<Description>, name: &String) -> (r: bool)
    ensures
        r == has_description(views(descriptions@), name@),
{
    let mut i: usize = 0;
    while i < descriptions.len()
        invariant
            i <= descriptions.len(),
            forall|k: int| 0 <= k < i ==> views(descriptions@)[k].variant != name@,
        decreases descriptions.len() - i,
    {
        if same_text(descriptions[i].variant.as_str(), name.as_str()) {
            assert(views(descriptions@)[i as int].variant == name@);
            return true;
        }
        i += 1;
    }
    false
}

/// Generates the descriptions of the variants of the enumeration `name`: for
/// each variant the free text of its constant, empty where there is none.
pub fn generate_descriptions(name: &str, elements: &Vec<EnumerationElement>) -> (r: Result<
    Vec<Description>,
    GenError,
>)
    ensures
        match r {
            Ok(d) => descriptions_of(name@, elements@) == Ok::<Seq<DescriptionView>, GenError>(
                views(d@),
            ),
            Err(e) => descriptions_of(name@, elements@) == Err::<Seq<DescriptionView>, GenError>(
                e,
            ),
        },
{
    let mut out: Vec<Description> = Vec::new();
    let mut i: usize = 0;
    proof {
        assert(elements@.take(0) == Seq::<EnumerationElement>::empty());
        assert(views(out@) == Seq::<DescriptionView>::empty());
    }
    while i < elements.len()
        invariant
            i <= elements.len(),
            descriptions_of(name@, elements@.take(i as int)) == Ok::<
                Seq<DescriptionView>,
                GenError,
            >(views(out@)),
        decreases elements.len() - i,
    {
        proof {
            lemma_descriptions_step(name@, elements@, i as int);
        }
        let step = match &elements[i] {
            EnumerationElement::Enum(c) => description_of(name, c),
            _ => Ok(None),
        };
        match step {
            Ok(Some(d)) => {
                if describes(&out, &d.variant) {
                    proof {
                        lemma_descriptions_stop(name@, elements@, i as int + 1);
                    }
                    return Err(GenError::DuplicateIdentifier);
                }
                proof {
                    lemma_views_push(out@, d);
                }
                out.push(d);
            },
            Ok(None) => {},
            Err(e) => {
                proof {
                    lemma_descriptions_stop(name@, elements@, i as int + 1);
                }
                return Err(e);
            },
        }
        i += 1;
    }
    proof {
        assert(elements@.take(elements.len() as int) == elements@);
    }
    Ok(out)
}

/// Generates the result enumeration: the variants of a closed enumeration, and
/// for each of them a description.
pub fn generate_result(name: &str, _enum: &Enumeration) -> (r: Result<EnumDecl, GenError>)
    ensures
        match r {
            Ok(d) => result_of(name@, _enum.elements@) == Ok::<EnumDeclView, GenError>(d@)
                && distinct_variants(d@.variants) && d@.descriptions is Some && describe(
                d@.descriptions->0,
                d@.variants,
            ),
            Err(e) => result_of(name@, _enum.elements@) == Err::<EnumDeclView, GenError>(e),
        },
{
    let variants = match generate_variants(name, &_enum.elements) {
        Ok(v) => v,
        Err(e) => {
            return Err(e);
        },
    };
    proof {
        lemma_descriptions_follow_variants(name@, _enum.elements@);
    }
    let descriptions = match generate_descriptions(name, &_enum.elements) {
        Ok(d) => d,
        Err(e) => {
            return Err(e);
        },
    };
    Ok(EnumDecl { name: String::from_str(name), variants, descriptions: Some(descriptions) })
}

/// Generates the declaration of an enumeration of the registry.
pub fn generate_enum(_enum: &Enumeration) -> (r: Result<EnumType, GenError>)
    ensures
        match r {
            Ok(t) => enum_of(*_enum) == Ok::<EnumTypeView, GenError>(t@),
            Err(e) => enum_of(*_enum) == Err::<EnumTypeView, GenError>(e),
        },
        r matches Ok(EnumType::Bitflags(d)) ==> d.all == all_bits(_enum.elements@)
            && d@.mask_is_union() && d@.covers_constants() && distinct_constants(d@.constants),
        r matches Ok(EnumType::Enum(d)) ==> distinct_variants(d@.variants),
{
    let chars = chars_of(_enum.name.as_str());
    if chars.len() < 2 {
        return Err(GenError::ShortName);
    }
    let stem = tail_from(&chars, 2);
    let renamed = replace_in(&stem, &chars_of("FlagBits"), &chars_of("Flags"));
    let name = string_of(&renamed);
    if has_infix(&stem, &chars_of("Bit")) {
        match generate_bitflags(name, &_enum.elements) {
            Ok(d) => Ok(EnumType::Bitflags(d)),
            Err(e) => Err(e),
        }
    } else if same_text(name.as_str(), "Result") {
        match generate_result(name.as_str(), _enum) {
            Ok(d) => Ok(EnumType::Enum(d)),
            Err(e) => Err(e),
        }
    } else {
        match generate_variants(name.as_str(), &_enum.elements) {
            Ok(variants) => Ok(EnumType::Enum(EnumDecl { name, variants, descriptions: None })),
            Err(e) => Err(e),
        }
    }
}

} // verus!
