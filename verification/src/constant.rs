//! Constants: the form in which the registry gives a value, the value itself,
//! its scalar type and the text that stands for it in the bindings.

use crate::cexpr::{cexpr, float_read, parse, CType};
use crate::error::GenError;
use crate::registry::{ExtensionConstant, RegistryConstant};
use crate::text::{
    binary_text, concat_strings, decimal_string, decimal_text, escape, escaped, hex_value, nat_text,
    natural_string, parse_hex,
};
use crate::types::ToTokens;
use vstd::prelude::*;
use vstd::string::StringExecFns;

verus! {

/// A resolved scalar.
#[derive(Debug, Copy, Clone, PartialEq, Eq, Structural)]
pub enum ConstVal {
    U32(u32),
    U64(u64),
    /// A single-precision float, by its IEEE 754 bit pattern.
    Float(u32),
}

impl ConstVal {
    /// The 64-bit word of a `U64` value; no other value has one.
    pub fn bits(&self) -> (r: u64)
        requires
            self is U64,
        ensures
            r == self->U64_0,
    {
        match self {
            ConstVal::U64(n) => *n,
            _ => 0,
        }
    }
}

impl ToTokens for ConstVal {
    /// The value as a literal of its own type: an integer with the suffix of
    /// its width, a float as the value that has its bit pattern.
    open spec fn tokens(&self) -> Seq<char> {
        match self {
            ConstVal::U32(n) => nat_text(*n as nat) + "u32"@,
            ConstVal::U64(n) => nat_text(*n as nat) + "u64"@,
            ConstVal::Float(bits) => "f32::from_bits("@ + nat_text(*bits as nat) + "u32)"@,
        }
    }

    fn to_tokens(&self) -> (r: String) {
        match self {
            ConstVal::U32(n) => {
                let mut out = natural_string(*n as u64);
                out.append("u32");
                out
            },
            ConstVal::U64(n) => {
                let mut out = natural_string(*n);
                out.append("u64");
                out
            },
            ConstVal::Float(bits) => {
                let mut out = String::from_str("f32::from_bits(");
                out.append(natural_string(*bits as u64).as_str());
                out.append("u32)");
                out
            },
        }
    }
}

/// The form in which a constant is given.
#[derive(Debug, Clone, PartialEq, Eq)]
pub enum Constant {
    Number(i32),
    Hex(String),
    BitPos(u32),
    CExpr(String),
    Text(String),
}

/// A 32-bit signed number widened to 64 bits with its sign.
pub open spec fn sign_extended(n: i32) -> u64 {
    if n >= 0 {
        n as u64
    } else {
        (n + 0x1_0000_0000_0000_0000) as u64
    }
}

/// The 64-bit word with the single bit at position `pos`.
pub open spec fn bit_value(pos: u32) -> u64 {
    1u64 << pos
}

/// `0b1` followed by `pos` zeros.
pub open spec fn bit_text(pos: u32) -> Seq<char> {
    seq!['0', 'b', '1'] + Seq::new(pos as nat, |i: int| '0')
}

/// The text of a bit position is its value written in binary.
pub proof fn lemma_bit_text_is_binary(pos: u32)
    requires
        pos <= MAX_BIT_POSITION,
    ensures
        bit_text(pos) == seq!['0', 'b'] + binary_text(bit_value(pos) as nat),
    decreases pos,
{
    if pos == 0 {
        assert(1u64 << 0u32 == 1) by (bit_vector);
        assert(binary_text(1) == seq!['1']);
        assert(bit_text(0) =~= seq!['0', 'b'] + seq!['1']);
    } else {
        let lower = (pos - 1) as u32;
        lemma_bit_text_is_binary(lower);
        assert(pos <= 63 && lower == pos - 1 ==> (1u64 << pos) >= 2 && (1u64 << pos) / 2 == (1u64
            << lower) && (1u64 << pos) % 2 == 0) by (bit_vector);
        assert(bit_text(pos) =~= bit_text(lower).push('0'));
        assert(binary_text(bit_value(pos) as nat) == binary_text(bit_value(lower) as nat).push(
            '0',
        ));
        assert(seq!['0', 'b'] + binary_text(bit_value(lower) as nat).push('0') =~= (seq!['0', 'b']
            + binary_text(bit_value(lower) as nat)).push('0'));
    }
}

/// The highest bit position that a 64-bit word holds.
pub const MAX_BIT_POSITION: u32 = 63;

impl ConstantView {
    /// The value of the constant, where its form has one: a number (widened
    /// with its sign), a hexadecimal text that reads as a 64-bit number, or a
    /// bit position that the 64-bit word holds.
    pub open spec fn value(self) -> Option<ConstVal> {
        match self {
            ConstantView::Number(n) => Some(ConstVal::U64(sign_extended(n))),
            ConstantView::Hex(hex) => match hex_value(hex) {
                Some(v) => Some(ConstVal::U64(v)),
                None => None,
            },
            ConstantView::BitPos(pos) => if pos <= MAX_BIT_POSITION {
                Some(ConstVal::U64(bit_value(pos)))
            } else {
                None
            },
            _ => None,
        }
    }

    /// The 64-bit word of the constant, where it has a value.
    pub open spec fn bits(self) -> Option<u64> {
        match self.value() {
            Some(ConstVal::U64(v)) => Some(v),
            _ => None,
        }
    }

    /// The scalar type of the constant: the word-sized unsigned type for a
    /// number or a hexadecimal text, the type of the expression for an
    /// expression.  The other forms have none.
    pub open spec fn ty(self) -> Result<CType, GenError> {
        match self {
            ConstantView::Number(_) => Ok(CType::USize),
            ConstantView::Hex(_) => Ok(CType::USize),
            ConstantView::CExpr(e) => match parse(e, float_read(e)) {
                Some((ty, _)) => Ok(ty),
                None => Err(GenError::Expression),
            },
            _ => Err(GenError::Untyped),
        }
    }

    /// The text that stands for the constant in the bindings: a number in
    /// decimal, a hexadecimal text behind `0x`, a text as a string literal, an
    /// expression as it parses, a bit position as a binary number with that
    /// one bit.
    pub open spec fn tokens(self) -> Result<Seq<char>, GenError> {
        match self {
            ConstantView::Number(n) => Ok(decimal_text(n as int)),
            ConstantView::Hex(hex) => Ok(seq!['0', 'x'] + hex),
            ConstantView::Text(text) => Ok(seq!['"'] + escaped(text) + seq!['"']),
            ConstantView::CExpr(e) => match parse(e, float_read(e)) {
                Some((_, text)) => Ok(text),
                None => Err(GenError::Expression),
            },
            ConstantView::BitPos(pos) => if pos <= MAX_BIT_POSITION {
                Ok(bit_text(pos))
            } else {
                Err(GenError::BitPosition)
            },
        }
    }
}

impl Constant {
    /// Resolves the constant to its value, where its form has one.
    pub fn value(&self) -> (r: Option<ConstVal>)
        ensures
            r == self@.value(),
    {
        match self {
            Constant::Number(n) => {
                let n: i32 = *n;
                let wide: u64 = if n >= 0 {
                    n as u64
                } else {
                    u64::MAX - ((-1 - (n as i64)) as u64)
                };
                Some(ConstVal::U64(wide))
            },
            Constant::Hex(hex) => match parse_hex(hex.as_str()) {
                Some(v) => Some(ConstVal::U64(v)),
                None => None,
            },
            Constant::BitPos(pos) => {
                let pos: u32 = *pos;
                if pos <= MAX_BIT_POSITION {
                    Some(ConstVal::U64(1u64 << pos))
                } else {
                    None
                }
            },
            _ => None,
        }
    }

    /// Infers the scalar type of the constant.
    pub fn ty(&self) -> (r: Result<CType, GenError>)
        ensures
            r == self@.ty(),
    {
        match self {
            Constant::Number(_) => Ok(CType::USize),
            Constant::Hex(_) => Ok(CType::USize),
            Constant::CExpr(e) => match cexpr(e.as_str()) {
                Some((ty, _)) => Ok(ty),
                None => Err(GenError::Expression),
            },
            _ => Err(GenError::Untyped),
        }
    }

    /// Writes the constant as it stands in the bindings.
    pub fn to_tokens(&self) -> (r: Result<String, GenError>)
        ensures
            match r {
                Ok(text) => self@.tokens() == Ok::<Seq<char>, GenError>(text@),
                Err(e) => self@.tokens() == Err::<Seq<char>, GenError>(e),
            },
    {
        match self {
            Constant::Number(n) => Ok(decimal_string(*n)),
            Constant::Hex(hex) => {
                let mut out = String::new();
                out.push('0');
                out.push('x');
                assert(out@ == seq!['0', 'x']);
                Ok(concat_strings(out, hex))
            },
            Constant::Text(text) => {
                let mut out = String::new();
                out.push('"');
                assert(out@ == seq!['"']);
                let mut out = concat_strings(out, &escape(text.as_str()));
                out.push('"');
                assert(out@ == seq!['"'] + escaped(text@) + seq!['"']);
                Ok(out)
            },
            Constant::CExpr(e) => match cexpr(e.as_str()) {
                Some((_, text)) => Ok(text),
                None => Err(GenError::Expression),
            },
            Constant::BitPos(pos) => {
                let pos: u32 = *pos;
                if pos > MAX_BIT_POSITION {
                    return Err(GenError::BitPosition);
                }
                let mut out = String::new();
                out.push('0');
                out.push('b');
                out.push('1');
                let mut i: u32 = 0;
                while i < pos
                    invariant
                        i <= pos,
                        out@ == bit_text(i),
                    decreases pos - i,
                {
                    out.push('0');
                    i += 1;
                }
                Ok(out)
            },
        }
    }

    /// The form of a registry constant: the first that is present of number,
    /// hexadecimal text, bit position and expression.
    pub open spec fn spec_from_constant(c: RegistryConstant) -> Result<ConstantView, GenError> {
        first_form(c.number, c.hex, c.bitpos, c.c_expression, None)
    }

    /// The form of an extension constant: as for a registry constant, and last
    /// of all a text.
    pub open spec fn spec_from_extension(c: ExtensionConstant) -> Result<ConstantView, GenError> {
        first_form(c.number, c.hex, c.bitpos, c.c_expression, c.text)
    }

    /// Picks the form of a registry constant.
    pub fn from_constant(constant: &RegistryConstant) -> (r: Result<Constant, GenError>)
        ensures
            match r {
                Ok(c) => Self::spec_from_constant(*constant) == Ok::<ConstantView, GenError>(c@),
                Err(e) => Self::spec_from_constant(*constant) == Err::<ConstantView, GenError>(e),
            },
    {
        pick_form(
            &constant.number,
            &constant.hex,
            &constant.bitpos,
            &constant.c_expression,
            &None,
        )
    }

    /// Picks the form of an extension constant.
    pub fn from_extension(extension: &ExtensionConstant) -> (r: Result<Constant, GenError>)
        ensures
            match r {
                Ok(c) => Self::spec_from_extension(*extension) == Ok::<ConstantView, GenError>(c@),
                Err(e) => Self::spec_from_extension(*extension) == Err::<ConstantView, GenError>(
                    e,
                ),
            },
    {
        pick_form(
            &extension.number,
            &extension.hex,
            &extension.bitpos,
            &extension.c_expression,
            &extension.text,
        )
    }
}

/// A constant's form with its texts as plain sequences.
pub ghost enum ConstantView {
    Number(i32),
    Hex(Seq<char>),
    BitPos(u32),
    CExpr(Seq<char>),
    Text(Seq<char>),
}

impl View for Constant {
    type V = ConstantView;

    open spec fn view(&self) -> ConstantView {
        match *self {
            Constant::Number(n) => ConstantView::Number(n),
            Constant::Hex(s) => ConstantView::Hex(s@),
            Constant::BitPos(p) => ConstantView::BitPos(p),
            Constant::CExpr(s) => ConstantView::CExpr(s@),
            Constant::Text(s) => ConstantView::Text(s@),
        }
    }
}

/// The first form that is present, in the order number, hexadecimal text, bit
/// position, expression, text; without any, the constant has no value.
pub open spec fn first_form(
    number: Option<i32>,
    hex: Option<String>,
    bitpos: Option<u32>,
    c_expression: Option<String>,
    text: Option<String>,
) -> Result<ConstantView, GenError> {
    if let Some(n) = number {
        Ok(ConstantView::Number(n))
    } else if let Some(h) = hex {
        Ok(ConstantView::Hex(h@))
    } else if let Some(p) = bitpos {
        Ok(ConstantView::BitPos(p))
    } else if let Some(e) = c_expression {
        Ok(ConstantView::CExpr(e@))
    } else if let Some(t) = text {
        Ok(ConstantView::Text(t@))
    } else {
        Err(GenError::NoValue)
    }
}

fn pick_form(
    number: &Option<i32>,
    hex: &Option<String>,
    bitpos: &Option<u32>,
    c_expression: &Option<String>,
    text: &Option<String>,
) -> (r: Result<Constant, GenError>)
    ensures
        match r {
            Ok(c) => first_form(*number, *hex, *bitpos, *c_expression, *text) == Ok::<
                ConstantView,
                GenError,
            >(c@),
            Err(e) => first_form(*number, *hex, *bitpos, *c_expression, *text) == Err::<
                ConstantView,
                GenError,
            >(e),
        },
{
    if let Some(n) = number {
        Ok(Constant::Number(*n))
    } else if let Some(h) = hex {
        Ok(Constant::Hex(h.clone()))
    } else if let Some(p) = bitpos {
        Ok(Constant::BitPos(*p))
    } else if let Some(e) = c_expression {
        Ok(Constant::CExpr(e.clone()))
    } else if let Some(t) = text {
        Ok(Constant::Text(t.clone()))
    } else {
        Err(GenError::NoValue)
    }
}

/// Marks the registry's constants.
pub trait ConstantExt {

}

impl ConstantExt for RegistryConstant {

}

} // verus!
