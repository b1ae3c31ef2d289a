use vstd::prelude::*;
use crate::decimal::{decimal, push_decimal};

verus! {

/// The elements of an array literal: the decimal numeral of each byte, in
/// order, with a comma and a space between neighbours.
pub open spec fn elements(bytes: Seq<u8>) -> Seq<char>
    decreases bytes.len(),
{
    if bytes.len() == 0 {
        Seq::empty()
    } else if bytes.len() == 1 {
        decimal(bytes[0] as nat)
    } else {
        elements(bytes.drop_last()) + ", "@ + decimal(bytes.last() as nat)
    }
}

/// The array literal that stands for `bytes` at the call site, such as
/// `[0, 4, 51, 213]`; `[]` for no bytes.
pub open spec fn array_literal(bytes: Seq<u8>) -> Seq<char> {
    "["@ + elements(bytes) + "]"@
}

/// Renders `bytes` as an array literal.
pub fn render(bytes: &Vec<u8>) -> (literal: String)
    ensures
        literal@ == array_literal(bytes@),
{
    let mut literal = String::from_str("[");
    let mut i: usize = 0;
    while i < bytes.len()
        invariant
            i <= bytes.len(),
            literal@ == "["@ + elements(bytes@.take(i as int)),
        decreases bytes.len() - i,
    {
        if i > 0 {
            literal.append(", ");
        }
        push_decimal(&mut literal, bytes[i] as u64);
        proof {
            let shorter = bytes@.take(i as int);
            let longer = bytes@.take(i + 1);
            assert(longer.drop_last() =~= shorter);
            assert(longer.last() == bytes[i as int]);
            assert(literal@ =~= "["@ + elements(longer));
        }
        i = i + 1;
    }
    assert(bytes@.take(i as int) =~= bytes@);
    literal.append("]");
    literal
}

} // verus!
