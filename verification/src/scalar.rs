//! Real numbers as the wire format carries them.

use vstd::prelude::*;
use crate::text::Wire;

verus! {

/// A real number, held as the library needs it: the 64-bit pattern that
/// identifies the value, and the decimal text that is written for it.
///
/// The library never computes with the number. It compares bit patterns
/// where two numbers must be the same to share a group, and copies the text
/// into the output.
#[derive(Debug)]
pub struct Scalar {
    pub bits: u64,
    pub text: String,
}

impl Scalar {
    pub fn new(bits: u64, text: String) -> (s: Scalar)
        ensures
            s.bits == bits,
            s.text == text,
    {
        Scalar { bits, text }
    }

    /// The text that is written for the number.
    pub open spec fn token(&self) -> Seq<char> {
        self.text@
    }
}

impl Clone for Scalar {
    fn clone(&self) -> (s: Scalar)
        ensures
            s == *self,
    {
        Scalar { bits: self.bits, text: self.text.clone() }
    }
}

impl Wire for Scalar {
    /// A space, then the number's text.
    open spec fn wire(&self) -> Seq<char> {
        " "@ + self.token()
    }

    fn push_wire(&self, out: &mut String) {
        out.append(" ");
        out.append(self.text.as_str());
        assert(out@ =~= old(out)@ + self.wire());
    }
}

} // verus!
