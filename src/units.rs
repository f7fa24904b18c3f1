use vstd::prelude::*;

verus! {

/// Length units the engine understands.
#[derive(Clone, Copy, Debug, PartialEq, Eq, Structural)]
pub enum Units {
    Pixel,
    Point,
    Percent,
    Millimeter,
    Centimeter,
    Inch,
}

/// The two ASCII letters that name each unit to the engine (`px`, `pt`, `pc`,
/// `mm`, `cm`, `in`), before the terminator.
pub open spec fn unit_letters(u: Units) -> Seq<u8> {
    match u {
        Units::Pixel => seq![112u8, 120u8],
        Units::Point => seq![112u8, 116u8],
        Units::Percent => seq![112u8, 99u8],
        Units::Millimeter => seq![109u8, 109u8],
        Units::Centimeter => seq![99u8, 109u8],
        Units::Inch => seq![105u8, 110u8],
    }
}

/// The zero-terminated token that names a unit to the engine.
pub open spec fn unit_token(u: Units) -> Seq<u8> {
    unit_letters(u).push(0u8)
}

impl Units {
    /// The zero-terminated token for this unit, held in place (no allocation).
    pub fn as_c_str(&self) -> (r: [u8; 3])
        ensures
            r@ == unit_token(*self),
    {
        let r: [u8; 3] = match *self {
            Units::Pixel => [112u8, 120u8, 0u8],
            Units::Point => [112u8, 116u8, 0u8],
            Units::Percent => [112u8, 99u8, 0u8],
            Units::Millimeter => [109u8, 109u8, 0u8],
            Units::Centimeter => [99u8, 109u8, 0u8],
            Units::Inch => [105u8, 110u8, 0u8],
        };
        assert(r@ =~= unit_token(*self));
        r
    }
}

/// Every unit token ends in exactly one zero byte and holds no other.
pub proof fn lemma_unit_token_terminated(u: Units)
    ensures
        unit_token(u).len() == 3,
        unit_token(u).last() == 0u8,
        forall|i: int| 0 <= i < unit_token(u).len() - 1 ==> unit_token(u)[i] != 0u8,
{
}

} // verus!
