use crate::error::{Error, Result};
use vstd::prelude::*;
use vstd::string::{StrSliceExecFns, StringExecFns};

verus! {

/// The hexadecimal digit, in lower case, that stands for a value below sixteen.
pub open spec fn hex_digit(n: int) -> char
    recommends
        0 <= n < 16,
{
    "0123456789abcdef"@[n]
}

/// The hexadecimal form of `bytes`: two digits for each octet, the high half first.
pub open spec fn hex_of(bytes: Seq<u8>) -> Seq<char> {
    Seq::new(
        2 * bytes.len(),
        |i: int|
            if i % 2 == 0 {
                hex_digit(bytes[i / 2] as int / 16)
            } else {
                hex_digit(bytes[i / 2] as int % 16)
            },
    )
}

/// Values that can be written out in hexadecimal.
pub trait ToHex {
    /// What `to_hex` writes.
    spec fn hex(&self) -> Seq<char>;

    fn to_hex(&self) -> (s: String)
        ensures
            s@ == self.hex(),
    ;
}

impl ToHex for [u8] {
    open spec fn hex(&self) -> Seq<char> {
        hex_of(self@)
    }

    fn to_hex(&self) -> (s: String) {
        let digits = "0123456789abcdef";
        proof {
            reveal_strlit("0123456789abcdef");
        }
        let mut out = String::new();
        let mut i: usize = 0;
        while i < self.len()
            invariant
                i <= self@.len(),
                digits@ == "0123456789abcdef"@,
                digits@.len() == 16,
                digits.is_ascii(),
                out@ == hex_of(self@.subrange(0, i as int)),
            decreases self@.len() - i,
        {
            let hi = (self[i] / 16) as usize;
            let lo = (self[i] % 16) as usize;
            let ghost before = out@;
            out.append(digits.substring_ascii(hi, hi + 1));
            out.append(digits.substring_ascii(lo, lo + 1));
            assert(out@ =~= before.push(digits@[hi as int]).push(digits@[lo as int]));
            assert(out@ =~= hex_of(self@.subrange(0, i + 1)));
            i = i + 1;
        }
        assert(self@.subrange(0, i as int) =~= self@);
        out
    }
}

/// Values that may be absent, and whose absence is an error.
pub trait IntoResult<T>: Sized {
    /// What `into_result` returns.
    spec fn result(self) -> Result<T>;

    fn into_result(self) -> (r: Result<T>)
        ensures
            r == self.result(),
    ;
}

impl<T> IntoResult<T> for Option<T> {
    open spec fn result(self) -> Result<T> {
        match self {
            Some(x) => Ok(x),
            None => Err(Error::Missing),
        }
    }

    fn into_result(self) -> (r: Result<T>) {
        match self {
            Some(x) => Ok(x),
            None => Err(Error::Missing),
        }
    }
}

} // verus!
