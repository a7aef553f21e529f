//! Names as the native layer passes them: bytes closed by a single NUL.

use vstd::prelude::*;

verus! {

/// A byte string in its native form: no NUL inside, one NUL at the end.
#[derive(Debug, PartialEq, Eq)]
pub struct CString {
    bytes: Vec<u8>,
}

impl CString {
    /// The bytes are some content without a NUL, followed by one NUL.
    #[verifier::type_invariant]
    pub closed spec fn wf(&self) -> bool {
        &&& self.bytes@.len() >= 1
        &&& self.bytes@[self.bytes@.len() - 1] == 0
        &&& forall|i: int| 0 <= i < self.bytes@.len() - 1 ==> self.bytes@[i] != 0
    }

    /// The content, without the terminator.
    pub closed spec fn view(&self) -> Seq<u8> {
        self.bytes@.drop_last()
    }

    /// Whether `s` can be the content of a native string.
    pub open spec fn nul_free(s: Seq<u8>) -> bool {
        forall|i: int| 0 <= i < s.len() ==> s[i] != 0
    }

    /// Whether `s` has a native form: it holds no NUL, and leaves room for
    /// the terminator.
    pub open spec fn has_native_form(s: Seq<u8>) -> bool {
        Self::nul_free(s) && s.len() < usize::MAX
    }

    /// Builds the native form of `content`, or `None` when it has none.
    pub fn new(content: &[u8]) -> (r: Option<CString>)
        ensures
            r is Some <==> Self::has_native_form(content@),
            r is Some ==> r->0@ == content@,
    {
        if content.len() == usize::MAX {
            return None;
        }
        let mut bytes: Vec<u8> = Vec::new();
        let mut i: usize = 0;
        while i < content.len()
            invariant
                i <= content@.len(),
                bytes@ == content@.subrange(0, i as int),
                Self::nul_free(content@.subrange(0, i as int)),
            decreases content@.len() - i,
        {
            let b = content[i];
            if b == 0 {
                return None;
            }
            bytes.push(b);
            i += 1;
        }
        bytes.push(0);
        let cs = CString { bytes };
        assert(cs.bytes@.drop_last() == content@);
        Some(cs)
    }

    /// The bytes of the native form, terminator included.
    pub fn as_bytes(&self) -> (r: &[u8])
        ensures
            r@ == self@.push(0),
            Self::nul_free(self@),
    {
        proof {
            use_type_invariant(self);
            assert(self.bytes@ == self.bytes@.drop_last().push(0));
        }
        self.bytes.as_slice()
    }

    /// The length of the content, terminator excluded.
    pub fn len(&self) -> (n: usize)
        ensures
            n == self@.len(),
            n < usize::MAX,
    {
        proof {
            use_type_invariant(self);
        }
        self.bytes.len() - 1
    }
}

impl Clone for CString {
    /// Copies the string; the copy has the same content.
    fn clone(&self) -> (r: Self)
        ensures
            r@ == self@,
    {
        proof {
            use_type_invariant(self);
        }
        let bytes = self.bytes.clone();
        assert(bytes@ =~= self.bytes@);
        CString { bytes }
    }
}

/// Returns the bytes of `cs` without the terminator.
pub fn cstr_as_bytes_no_term(cs: &CString) -> (r: &[u8])
    ensures
        r@ == cs@,
{
    let ab = cs.as_bytes();
    let n = ab.len() - 1;
    let r = vstd::slice::slice_subrange(ab, 0, n);
    assert(r@ == cs@);
    r
}

} // verus!
