//! The tagged value type exchanged between host code and native extension
//! functions, the control-flow signal a native call may raise, and the
//! rendering of a value to its natural text.

use vstd::prelude::*;
use crate::text::int_text;
use crate::text::signed_text;

verus! {

/// Enum holding all native coda values.
///
/// The double kind carries its IEEE-754 bit pattern: the library never
/// computes with the floating-point value, it only carries it across the
/// host/native boundary and renders it.
#[derive(Debug, Clone, PartialEq)]
pub enum NativeValue {
    Character(char),
    Long(i128),
    Integer(i32),
    Double(u64),
    Byte(u8),
    Boolean(bool),
    String(String),
}

/// Enum containing all possible control-flow impacts a [`NativeBind`]
/// (see the bind module) could have.
#[derive(Debug, Clone, PartialEq)]
pub enum ControlFlowImpact {
    Return(NativeValue),
    Break,
    Continue,
}

/// The decimal text of the double with the given bit pattern, as the
/// soft-float rendering produces it; it depends on the bits alone. Every
/// finite value renders in plain decimal, never scientific notation.
///
/// The spelling can differ from the host language's own float formatting:
/// infinities come out as `+Inf`/`-Inf`, and a value that no decimal of few
/// digits hits exactly renders with its full exact decimal expansion rather
/// than the shortest round-trip form (the double nearest `0.1` carries 55
/// significant digits).
pub uninterp spec fn double_text(bits: u64) -> Seq<char>;

/// The natural text of a value: the character itself, `true`/`false` for a
/// boolean, standard decimal form for the integer kinds, the soft-float
/// rendering of [`double_text`] (and its caveats) for the double kind, the
/// text itself for a string.
pub open spec fn value_text(v: NativeValue) -> Seq<char> {
    match v {
        NativeValue::Character(c) => seq![c],
        NativeValue::Long(i) => int_text(i as int),
        NativeValue::Integer(i) => int_text(i as int),
        NativeValue::Double(bits) => double_text(bits),
        NativeValue::Byte(b) => int_text(b as int),
        NativeValue::Boolean(b) => if b {
            "true"@
        } else {
            "false"@
        },
        NativeValue::String(s) => s@,
    }
}

/// Relies on `String::from(char)`: the returned string holds exactly that
/// one character.
#[verifier::external_body]
fn char_string(c: char) -> (r: String)
    ensures
        r@ == seq![c],
{
    String::from(c)
}

/// Relies on rustc_apfloat's `ieee::Double`, a software IEEE-754 double:
/// `from_bits` reads the bit pattern and its `Display` renders the decimal
/// text, a function of the bits alone. The formatter's width and precision
/// are its two cutoffs before scientific notation; both are set past the
/// longest decimal expansion a finite double has (309 integer digits at the
/// top of the range, 767 significant digits for the deepest denormal), so
/// every finite value renders in plain decimal, exactly.
#[verifier::external_body]
fn double_string(bits: u64) -> (r: String)
    ensures
        r@ == double_text(bits),
{
    format!("{:1100.767}", <rustc_apfloat::ieee::Double as rustc_apfloat::Float>::from_bits(bits as u128))
}

impl NativeValue {
    /// Renders the value to the natural string form of whichever primitive
    /// it holds.
    pub fn to_text(&self) -> (r: String)
        ensures
            r@ == value_text(*self),
    {
        match self {
            NativeValue::Character(c) => char_string(*c),
            NativeValue::Long(i) => signed_text(*i),
            NativeValue::Integer(i) => signed_text(*i as i128),
            NativeValue::Double(bits) => double_string(*bits),
            NativeValue::Byte(b) => signed_text(*b as i128),
            NativeValue::Boolean(b) => if *b {
                String::from_str("true")
            } else {
                String::from_str("false")
            },
            NativeValue::String(s) => s.clone(),
        }
    }
}

} // verus!
