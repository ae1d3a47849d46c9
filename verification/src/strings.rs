//! Strings as the engine takes them: bytes that end in a zero byte and hold
//! no other.

use crate::error::Error;
use vstd::prelude::*;

verus! {

pub open spec fn has_nul(bytes: Seq<u8>) -> bool {
    exists|i: int| 0 <= i < bytes.len() && #[trigger] bytes[i] == 0
}

/// `at` is the position of the first zero byte.
pub open spec fn first_nul_at(bytes: Seq<u8>, at: int) -> bool {
    &&& 0 <= at < bytes.len()
    &&& bytes[at] == 0
    &&& forall|j: int| 0 <= j < at ==> #[trigger] bytes[j] != 0
}

/// A null-terminated copy of a string.
#[derive(Debug, PartialEq, Eq)]
pub struct NativeString {
    bytes: Vec<u8>,
}

impl NativeString {
    #[verifier::type_invariant]
    spec fn terminated(self) -> bool {
        &&& self.bytes@.len() >= 1
        &&& self.bytes@.last() == 0
        &&& !has_nul(self.bytes@.drop_last())
    }

    /// The string's bytes, without the zero byte that ends them.
    pub closed spec fn view(self) -> Seq<u8> {
        self.bytes@.drop_last()
    }

    /// Copies `bytes` and ends the copy with a zero byte. A string that
    /// holds a zero byte has no such form: the error names the position of
    /// the first.
    pub fn new(bytes: &[u8]) -> (r: Result<NativeString, Error>)
        ensures
            match r {
                Ok(s) => !has_nul(bytes@) && s@ == bytes@,
                Err(Error::InteriorNul { position }) => first_nul_at(bytes@, position as int),
                Err(_) => false,
            },
    {
        let mut copy: Vec<u8> = Vec::new();
        let mut i: usize = 0;
        while i < bytes.len()
            invariant
                i <= bytes@.len(),
                copy@ == bytes@.take(i as int),
                forall|j: int| 0 <= j < i ==> #[trigger] bytes@[j] != 0,
            decreases bytes@.len() - i,
        {
            if bytes[i] == 0 {
                return Err(Error::InteriorNul { position: i });
            }
            copy.push(bytes[i]);
            assert(bytes@.take(i as int).push(bytes@[i as int]) =~= bytes@.take(i + 1));
            i += 1;
        }
        assert(bytes@.take(i as int) =~= bytes@);
        copy.push(0);
        assert(copy@.drop_last() =~= bytes@);
        assert(!has_nul(bytes@));
        Ok(NativeString { bytes: copy })
    }

    /// The bytes to hand to the engine: the string's own, which hold no zero
    /// byte, and one zero byte after them.
    pub fn as_bytes_with_nul(&self) -> (b: &[u8])
        ensures
            b@ == self@.push(0),
            !has_nul(self@),
    {
        proof {
            use_type_invariant(self);
            assert(self.bytes@ =~= self.bytes@.drop_last().push(0));
        }
        self.bytes.as_slice()
    }
}

/// Text that can be stored in a string tensor.
pub trait Utf8Data {
    spec fn utf8(&self) -> Seq<u8>;

    /// The text's bytes in UTF-8.
    fn as_utf8_bytes(&self) -> (b: &[u8])
        ensures
            b@ == self.utf8(),
    ;
}

impl Utf8Data for String {
    open spec fn utf8(&self) -> Seq<u8> {
        vstd::utf8::encode_utf8(self@)
    }

    fn as_utf8_bytes(&self) -> (b: &[u8]) {
        self.as_str().as_bytes()
    }
}

impl Utf8Data for &str {
    open spec fn utf8(&self) -> Seq<u8> {
        vstd::utf8::encode_utf8(self@)
    }

    fn as_utf8_bytes(&self) -> (b: &[u8]) {
        self.as_bytes()
    }
}

/// `part` stands in `text` at position `at`.
pub open spec fn occurs_at(text: Seq<u8>, part: Seq<u8>, at: int) -> bool {
    &&& 0 <= at
    &&& at + part.len() <= text.len()
    &&& forall|i: int| 0 <= i < part.len() ==> #[trigger] text[at + i] == part[i]
}

/// `part` stands somewhere in `text`.
pub open spec fn contains(text: Seq<u8>, part: Seq<u8>) -> bool {
    exists|at: int| occurs_at(text, part, at)
}

fn found_at(text: &[u8], part: &[u8], at: usize) -> (b: bool)
    requires
        at + part@.len() <= text@.len(),
    ensures
        b == occurs_at(text@, part@, at as int),
{
    let len: usize = text.len();
    let mut i: usize = 0;
    while i < part.len()
        invariant
            i <= part@.len(),
            at + part@.len() <= text@.len(),
            text@.len() == len,
            forall|j: int| 0 <= j < i ==> #[trigger] text@[at + j] == part@[j],
        decreases part@.len() - i,
    {
        if text[at + i] != part[i] {
            return false;
        }
        i += 1;
    }
    true
}

/// Whether `part` stands somewhere in `text`.
pub fn find(text: &[u8], part: &[u8]) -> (b: bool)
    ensures
        b == contains(text@, part@),
{
    if part.len() > text.len() {
        return false;
    }
    let last: usize = text.len() - part.len();
    let mut at: usize = 0;
    loop
        invariant
            at <= last,
            last == text@.len() - part@.len(),
            forall|a: int| 0 <= a < at ==> !occurs_at(text@, part@, a),
        decreases last - at,
    {
        if found_at(text, part, at) {
            return true;
        }
        if at == last {
            return false;
        }
        at += 1;
    }
}

} // verus!
