use vstd::prelude::*;
use vstd::slice::slice_to_vec;

use crate::error::{invalid_arg, Error, Result, E_INVALIDARG};

verus! {

/// The UTF-16 code units of one character: one unit below U+10000, else a
/// surrogate pair.
pub open spec fn utf16_of_char(c: char) -> Seq<u16> {
    let v = c as u32;
    if v < 0x10000 {
        seq![v as u16]
    } else {
        let u = (v - 0x10000) as u32;
        seq![(0xD800 + u / 0x400) as u16, (0xDC00 + u % 0x400) as u16]
    }
}

/// The UTF-16 encoding of a character sequence.
pub open spec fn utf16_encode(s: Seq<char>) -> Seq<u16>
    decreases s.len(),
{
    if s.len() == 0 {
        Seq::empty()
    } else {
        utf16_encode(s.drop_last()) + utf16_of_char(s.last())
    }
}

/// Relies on `str::encode_utf16`: the UTF-16 code units of `s`, in order.
#[verifier::external_body]
fn encode_utf16(s: &str) -> (r: Vec<u16>)
    ensures
        r@ == utf16_encode(s@),
{
    s.encode_utf16().collect()
}

/// A UTF-16 string that ends in a zero unit, the form in which the native
/// library takes file names.
pub struct CWide {
    wide: Vec<u16>,
}

impl View for CWide {
    type V = Seq<u16>;

    closed spec fn view(&self) -> Seq<u16> {
        self.wide@
    }
}

/// Whether `s` ends in a zero unit.
pub open spec fn is_terminated(s: Seq<u16>) -> bool {
    s.len() > 0 && s.last() == 0
}

impl CWide {
    #[verifier::type_invariant]
    spec fn inv(self) -> bool {
        is_terminated(self.wide@)
    }

    /// Encodes `s` as UTF-16 and appends the terminating zero.
    pub fn from_str(s: &str) -> (r: CWide)
        ensures
            r@ == utf16_encode(s@).push(0),
    {
        let mut wide = encode_utf16(s);
        wide.push(0);
        CWide { wide }
    }

    /// Copies `value`, which must already end in a zero unit; one that does
    /// not is rejected, never terminated here.
    pub fn try_from_slice(value: &[u16]) -> (r: Result<CWide>)
        ensures
            r is Ok <==> is_terminated(value@),
            match r {
                Ok(w) => w@ == value@,
                Err(e) => e == Error(E_INVALIDARG),
            },
    {
        if value.len() > 0 && value[value.len() - 1] == 0 {
            Ok(CWide { wide: slice_to_vec(value) })
        } else {
            Err(invalid_arg())
        }
    }

    /// Takes `value`, which must already end in a zero unit; one that does
    /// not is rejected, never terminated here.
    pub fn try_from_vec(value: Vec<u16>) -> (r: Result<CWide>)
        ensures
            r is Ok <==> is_terminated(value@),
            match r {
                Ok(w) => w@ == value@,
                Err(e) => e == Error(E_INVALIDARG),
            },
    {
        if value.len() > 0 && value[value.len() - 1] == 0 {
            Ok(CWide { wide: value })
        } else {
            Err(invalid_arg())
        }
    }

    /// The code units, terminating zero included.
    pub fn as_wide(&self) -> (r: &[u16])
        ensures
            r@ == self@,
            is_terminated(r@),
    {
        proof {
            use_type_invariant(self);
        }
        self.wide.as_slice()
    }

    /// The number of code units, terminating zero included.
    pub fn len(&self) -> (r: usize)
        ensures
            r == self@.len(),
            r >= 1,
    {
        proof {
            use_type_invariant(self);
        }
        self.wide.len()
    }
}

} // verus!
