//! Strings handed to the host: NUL units are dropped, since the host reads each string up to
//! its first NUL.
use vstd::prelude::*;
use vstd::string::StringSliceAdditionalSpecFns;

verus! {

/// `s` without its zero units, in order.
pub open spec fn without_nul_units(s: Seq<u16>) -> Seq<u16>
    decreases s.len(),
{
    if s.len() == 0 {
        Seq::empty()
    } else if s.last() == 0 {
        without_nul_units(s.drop_last())
    } else {
        without_nul_units(s.drop_last()).push(s.last())
    }
}

/// `s` without its zero bytes, in order.
pub open spec fn without_nul_bytes(s: Seq<u8>) -> Seq<u8>
    decreases s.len(),
{
    if s.len() == 0 {
        Seq::empty()
    } else if s.last() == 0 {
        without_nul_bytes(s.drop_last())
    } else {
        without_nul_bytes(s.drop_last()).push(s.last())
    }
}

/// The UTF-16 units `units` without their NUL units, followed by one NUL terminator.
pub fn encode_wide_null_terminated(units: &[u16]) -> (r: Vec<u16>)
    ensures
        r@ == without_nul_units(units@).push(0),
{
    let mut out: Vec<u16> = Vec::new();
    let mut i: usize = 0;
    while i < units.len()
        invariant
            i <= units.len(),
            out@ == without_nul_units(units@.take(i as int)),
        decreases units.len() - i,
    {
        proof {
            assert(units@.take(i + 1).drop_last() =~= units@.take(i as int));
        }
        if units[i] != 0 {
            out.push(units[i]);
        }
        i = i + 1;
    }
    assert(units@.take(i as int) =~= units@);
    out.push(0);
    out
}

/// The bytes of `input` without its NUL bytes: the content of a C string that holds it.
pub fn cstring_from_str(input: &str) -> (r: Vec<u8>)
    ensures
        r@ == without_nul_bytes(input.spec_bytes()),
{
    let bytes = input.as_bytes();
    let mut out: Vec<u8> = Vec::new();
    let mut i: usize = 0;
    while i < bytes.len()
        invariant
            bytes@ == input.spec_bytes(),
            i <= bytes.len(),
            out@ == without_nul_bytes(bytes@.take(i as int)),
        decreases bytes.len() - i,
    {
        proof {
            assert(bytes@.take(i + 1).drop_last() =~= bytes@.take(i as int));
        }
        if bytes[i] != 0 {
            out.push(bytes[i]);
        }
        i = i + 1;
    }
    assert(bytes@.take(i as int) =~= bytes@);
    out
}

} // verus!
