//! A byte string that is kept as text where it is text.
use vstd::prelude::*;
use vstd::slice::slice_to_vec;
use vstd::string::*;
use vstd::utf8::*;
use crate::text::utf8_text;

verus! {

/// Bytes, held as a string where they are well-formed UTF-8.
#[derive(Clone, Debug)]
pub enum StringOrBin {
    String(String),
    Bin(Vec<u8>),
}

impl View for StringOrBin {
    type V = Seq<u8>;

    /// The bytes that the value stands for.
    open spec fn view(&self) -> Seq<u8> {
        match *self {
            StringOrBin::String(s) => encode_utf8(s@),
            StringOrBin::Bin(b) => b@,
        }
    }
}

impl StringOrBin {
    /// The value for `bytes`: a string where they are well-formed UTF-8, the
    /// bytes themselves where they are not.
    pub fn from_bytes(bytes: &[u8]) -> (r: Self)
        ensures
            r@ == bytes@,
            valid_utf8(bytes@) ==> (r matches StringOrBin::String(s) && s@ == decode_utf8(bytes@)),
            !valid_utf8(bytes@) ==> (r matches StringOrBin::Bin(b) && b@ == bytes@),
    {
        match utf8_text(bytes) {
            Some(string) => {
                proof {
                    decode_utf8_encode_utf8(bytes@);
                }
                StringOrBin::String(string.to_owned())
            },
            None => StringOrBin::Bin(slice_to_vec(bytes)),
        }
    }

    /// The bytes of the value.
    pub fn as_bytes(&self) -> (r: &[u8])
        ensures
            r@ == self@,
    {
        match self {
            StringOrBin::Bin(bin) => bin.as_slice(),
            StringOrBin::String(string) => string.as_str().as_bytes(),
        }
    }

}

impl PartialEq for StringOrBin {
    /// Two values are equal where they stand for the same bytes, whichever
    /// of them is held as a string.
    fn eq(&self, rhs: &StringOrBin) -> (r: bool) {
        crate::term::bytes_eq(self.as_bytes(), rhs.as_bytes())
    }
}

impl vstd::std_specs::cmp::PartialEqSpecImpl for StringOrBin {
    open spec fn obeys_eq_spec() -> bool {
        true
    }

    open spec fn eq_spec(&self, rhs: &StringOrBin) -> bool {
        self@ == rhs@
    }
}

impl From<String> for StringOrBin {
    /// The value for a string.
    fn from(string: String) -> (r: Self) {
        StringOrBin::String(string)
    }
}

impl vstd::std_specs::convert::FromSpecImpl<String> for StringOrBin {
    open spec fn obeys_from_spec() -> bool {
        true
    }

    open spec fn from_spec(string: String) -> StringOrBin {
        StringOrBin::String(string)
    }
}

impl StringOrBin {
    /// The value for a text.
    pub fn from_text(string: &str) -> (r: Self)
        ensures
            r matches StringOrBin::String(s) && s@ == string@,
    {
        StringOrBin::String(string.to_owned())
    }

    /// The value for a vector of bytes, as [`StringOrBin::from_bytes`] gives
    /// it.
    pub fn from_vec(bin: Vec<u8>) -> (r: Self)
        ensures
            r@ == bin@,
            valid_utf8(bin@) ==> (r matches StringOrBin::String(s) && s@ == decode_utf8(bin@)),
            !valid_utf8(bin@) ==> r == StringOrBin::Bin(bin),
    {
        match utf8_text(bin.as_slice()) {
            Some(string) => {
                proof {
                    decode_utf8_encode_utf8(bin@);
                }
                StringOrBin::String(string.to_owned())
            },
            None => StringOrBin::Bin(bin),
        }
    }
}

} // verus!
