//! The one failure that packing can report: a value that needs more bits
//! than the pointee's alignment leaves free.

use vstd::prelude::*;
use vstd::string::StringExecFns;

verus! {

/// The character that writes the decimal digit `d`.
pub open spec fn digit(d: nat) -> char {
    ((d + 48) as u8) as char
}

/// The decimal numeral of `n`, without sign or leading zeros.
pub open spec fn decimal(n: nat) -> Seq<char>
    decreases n,
{
    if n < 10 {
        seq![digit(n)]
    } else {
        decimal(n / 10).push(digit(n % 10))
    }
}

/// `usize::to_string` writes its argument as a decimal numeral, without
/// sign or leading zeros.
#[verifier::external_body]
fn decimal_string(n: usize) -> (s: String)
    ensures
        s@ == decimal(n as nat),
{
    n.to_string()
}

/// Reports that a value does not fit in the alignment bits of a pointee.
#[derive(Clone, Copy, Debug, PartialEq, Eq, Structural)]
pub struct ValueTooLarge {
    /// The number of bits that the pointee's alignment leaves for a value.
    pub available_bits: u32,
    /// The value that was to be stored.
    pub value: usize,
}

impl ValueTooLarge {
    /// The text of the report: the bits that are available and the value
    /// that does not fit in them, both in decimal.
    pub open spec fn spec_message(self) -> Seq<char> {
        "not enough alignment bits ("@ + decimal(self.available_bits as nat)
            + ") to store the value ("@ + decimal(self.value as nat) + ")"@
    }

    /// Returns the text of the report.
    pub fn message(&self) -> (s: String)
        ensures
            s@ == self.spec_message(),
    {
        let bits = decimal_string(self.available_bits as usize);
        let value = decimal_string(self.value);
        let s = String::from_str("not enough alignment bits (");
        let s = s.concat(bits.as_str());
        let s = s.concat(") to store the value (");
        let s = s.concat(value.as_str());
        s.concat(")")
    }
}

} // verus!
