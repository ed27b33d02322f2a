//! The length of texts, counted in bytes.

use vstd::prelude::*;

verus! {

/// The number of bytes that `text` takes as UTF-8, as the length of a string
/// reports it.
pub open spec fn utf8_len(text: Seq<char>) -> usize {
    vstd::utf8::encode_utf8(text).len() as usize
}

/// An empty text takes no bytes.
pub proof fn lemma_empty_text_has_no_bytes()
    ensures
        utf8_len(Seq::<char>::empty()) == 0,
{
    assert(vstd::utf8::encode_utf8(Seq::<char>::empty()).len() == 0);
}

} // verus!
