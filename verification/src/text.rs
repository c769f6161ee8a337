//! Text in the form the capture backend reads it.
//!
//! The backend takes the names of functions, files, zones and frames as
//! pointers to bytes that end at the first NUL. A [`CText`] is a borrowed run
//! of bytes that has been checked once to have that form, so that nothing
//! downstream has to take it on trust or look at it again.

use vstd::prelude::*;

verus! {

/// `bytes` is a NUL-terminated text: its last byte is NUL and no byte before
/// the last is.
pub open spec fn is_c_text(bytes: Seq<u8>) -> bool {
    &&& bytes.len() > 0
    &&& bytes[bytes.len() - 1] == 0u8
    &&& forall|i: int| 0 <= i < bytes.len() - 1 ==> bytes[i] != 0u8
}

/// Borrowed NUL-terminated text.
///
/// The bytes are neither copied nor freed: the value is a view into storage
/// that outlives it. Its view is the text itself, without the terminator.
#[derive(Clone, Copy, PartialEq, Eq, Debug)]
pub struct CText<'a> {
    bytes: &'a [u8],
}

impl<'a> View for CText<'a> {
    type V = Seq<u8>;

    closed spec fn view(&self) -> Seq<u8> {
        self.bytes@.drop_last()
    }
}

impl<'a> CText<'a> {
    #[verifier::type_invariant]
    spec fn well_formed(self) -> bool {
        is_c_text(self.bytes@)
    }

    /// Interns `bytes` if they are a NUL-terminated text.
    ///
    /// Succeeds exactly when the last byte is the only NUL; the text is then
    /// everything before it.
    pub fn from_bytes_with_nul(bytes: &'a [u8]) -> (text: Option<CText<'a>>)
        ensures
            text is Some <==> is_c_text(bytes@),
            text matches Some(t) ==> t@ == bytes@.drop_last(),
    {
        let n: usize = bytes.len();
        if n == 0 {
            return None;
        }
        let mut i: usize = 0;
        while i < n - 1
            invariant
                n == bytes@.len(),
                n > 0,
                i <= n - 1,
                forall|j: int| 0 <= j < i ==> bytes@[j] != 0u8,
            decreases n - i,
        {
            if bytes[i] == 0 {
                return None;
            }
            i = i + 1;
        }
        if bytes[n - 1] != 0 {
            return None;
        }
        Some(CText { bytes })
    }

    /// The bytes as the backend reads them: the text followed by one NUL.
    pub fn as_bytes_with_nul(&self) -> (bytes: &'a [u8])
        ensures
            bytes@ == self@.push(0u8),
            is_c_text(bytes@),
    {
        proof {
            use_type_invariant(self);
            assert(self.bytes@ =~= self.bytes@.drop_last().push(0u8));
        }
        self.bytes
    }
}

} // verus!
