//! Decode base36.

use vstd::prelude::*;
use vstd::slice::slice_index_get;
use vstd::string::StringSliceAdditionalSpecFns;
use vstd::wrapping::u64_specs;

verus! {

/// True for the bytes the base36 alphabet accepts: ASCII digits and letters.
pub open spec fn b36_is_digit(b: u8) -> bool {
    (48 <= b <= 57) || (65 <= b <= 90) || (97 <= b <= 122)
}

/// The value of one base36 digit byte, case insensitive.
pub open spec fn b36_val(b: u8) -> u64
    recommends
        b36_is_digit(b),
{
    if 48 <= b <= 57 {
        (b - 48) as u64
    } else if 65 <= b <= 90 {
        (b - 65 + 10) as u64
    } else {
        (b - 97 + 10) as u64
    }
}

/// One accumulation step, with the wrap-around semantics of unchecked
/// release-mode arithmetic: `acc * 36 + d` modulo two to the 64.
pub open spec fn b36_step(acc: u64, d: u64) -> u64 {
    u64_specs::wrapping_add(u64_specs::wrapping_mul(acc, 36), d)
}

/// Folding the bytes left to right from `acc`; the first byte outside the
/// alphabet stops the fold with that byte as the error.
pub open spec fn spec_base36_rec(bytes: Seq<u8>, acc: u64) -> Result<u64, char>
    decreases bytes.len(),
{
    if bytes.len() == 0 {
        Ok(acc)
    } else if !b36_is_digit(bytes[0]) {
        Err(bytes[0] as char)
    } else {
        spec_base36_rec(bytes.drop_first(), b36_step(acc, b36_val(bytes[0])))
    }
}

/// The base36 reading of a byte string.
pub open spec fn spec_base36(bytes: Seq<u8>) -> Result<u64, char> {
    spec_base36_rec(bytes, 0)
}

/// Decode a base36 string (0-9, a-z, A-Z) as a u64, reading its bytes left
/// to right; the first byte outside the alphabet is returned as the error.
pub fn decode(s: &str) -> (r: Result<u64, char>)
    ensures
        r == spec_base36(s.spec_bytes()),
{
    let bytes = s.as_bytes();
    let n = bytes.len();
    let mut acc: u64 = 0;
    proof {
        assert(bytes@.skip(0) =~= bytes@);
    }
    for i in 0..n
        invariant
            n == bytes@.len(),
            bytes@ == s.spec_bytes(),
            spec_base36_rec(bytes@.skip(i as int), acc) == spec_base36(bytes@),
    {
        let b = *slice_index_get(bytes, i);
        proof {
            assert(bytes@.skip(i as int)[0] == bytes@[i as int]);
            assert(bytes@.skip(i as int).drop_first() =~= bytes@.skip(i as int + 1));
        }
        if b < 48 || (57 < b && b < 65) || (90 < b && b < 97) || 122 < b {
            return Err(b as char);
        }
        let d: u64 = if b <= 57 {
            (b - 48) as u64
        } else if b <= 90 {
            (b - 65) as u64 + 10
        } else {
            (b - 97) as u64 + 10
        };
        acc = acc.wrapping_mul(36).wrapping_add(d);
    }
    proof {
        assert(bytes@.skip(n as int) =~= Seq::<u8>::empty());
    }
    Ok(acc)
}

} // verus!
