use vstd::prelude::*;

verus! {

/// Cents in one whole unit of money.
pub const CENTS_PER_UNIT: u64 = 100;

/// Splits an amount of cents into its sign, whole units and remaining cents,
/// the form in which an amount is shown.
pub fn split_cents(amount: i64) -> (r: (bool, u64, u64))
    ensures
        r.0 == (amount < 0),
        r.2 < CENTS_PER_UNIT,
        r.1 * CENTS_PER_UNIT + r.2 == if amount < 0 { -(amount as int) } else { amount as int },
{
    let magnitude: u64 = if amount < 0 {
        if amount == i64::MIN {
            0x8000_0000_0000_0000u64
        } else {
            (-amount) as u64
        }
    } else {
        amount as u64
    };
    (amount < 0, magnitude / CENTS_PER_UNIT, magnitude % CENTS_PER_UNIT)
}

/// The same split for a sum of many amounts, which may need 128 bits.
pub fn split_total_cents(amount: i128) -> (r: (bool, u128, u64))
    ensures
        r.0 == (amount < 0),
        r.2 < CENTS_PER_UNIT,
        r.1 * CENTS_PER_UNIT + r.2 == if amount < 0 { -(amount as int) } else { amount as int },
{
    let magnitude: u128 = if amount < 0 {
        if amount == i128::MIN {
            0x8000_0000_0000_0000_0000_0000_0000_0000u128
        } else {
            (-amount) as u128
        }
    } else {
        amount as u128
    };
    (amount < 0, magnitude / (CENTS_PER_UNIT as u128), (magnitude % (CENTS_PER_UNIT as u128)) as u64)
}

} // verus!
