//! Text helpers for arrays of bytes: the live bytes read as UTF-8, and text
//! appended as its UTF-8 encoding.

use vstd::prelude::*;
use vstd::string::StringSliceAdditionalSpecFns;
use vstd::utf8::decode_utf8;
use vstd::utf8::decode_utf8_split;
use vstd::utf8::encode_utf8;
use vstd::utf8::encode_utf8_decode_utf8;
use vstd::utf8::encode_utf8_valid_utf8;
use vstd::utf8::is_char_boundary;
use vstd::utf8::is_char_boundary_iff_not_is_continuation_byte;
use vstd::utf8::is_char_boundary_start_end_of_seq;
use vstd::utf8::valid_utf8;
use vstd::utf8::valid_utf8_concat;

use crate::error::Result;
use crate::model::append_outcome;
use crate::model::appended;
use crate::push_array::PushArray;

verus! {

/// The error of `core::str::from_utf8`, carried through unread.
#[verifier::external_type_specification]
#[verifier::external_body]
pub struct ExUtf8Error(core::str::Utf8Error);

/// Specifies `core::str::from_utf8`. Claimed of it, as std documents: it
/// succeeds exactly on the byte slices that are valid UTF-8, and the string
/// it then returns is made of the very bytes it was given.
pub assume_specification[ core::str::from_utf8 ](v: &[u8]) -> (r: core::result::Result<
    &str,
    core::str::Utf8Error,
>)
    ensures
        r is Ok <==> valid_utf8(v@),
        r matches Ok(s) ==> s.spec_bytes() == v@,
;

impl<const CAP: usize> PushArray<u8, CAP> {
    /// Returns the bytes of this [`PushArray`] as a `&str` if they're valid
    /// UTF-8.
    ///
    /// The text is there exactly when the live bytes are valid UTF-8; it is
    /// then made of those bytes, and its characters are their decoding.
    pub fn as_str(&self) -> (text: Option<&str>)
        ensures
            text is Some <==> valid_utf8(self@),
            text matches Some(s) ==> s.spec_bytes() == self@ && s@ == decode_utf8(self@),
    {
        match core::str::from_utf8(self.as_slice()) {
            Ok(s) => {
                proof {
                    encode_utf8_decode_utf8(s@);
                }
                Some(s)
            },
            Err(_) => None,
        }
    }

    /// Push a UTF-8 string to the back of this [`PushArray`].
    ///
    /// Either the whole encoding of `value` is appended, or, where it does
    /// not fit, nothing is and the array stays as it was.
    pub fn push_str(&mut self, value: &str) -> (res: Result<()>)
        ensures
            res == append_outcome(old(self)@, value.spec_bytes(), CAP as nat),
            final(self)@ == appended(old(self)@, value.spec_bytes(), CAP as nat),
            final(self)@.len() <= CAP,
    {
        self.copy_from_slice(value.as_bytes())
    }
}

/// Text that is appended reads back: where the live bytes are valid UTF-8,
/// they still are with the encoding of `text` behind them, and they then
/// decode to what they decoded to before, followed by `text`.
pub proof fn lemma_appended_text_reads_back(live: Seq<u8>, text: Seq<char>)
    requires
        valid_utf8(live),
    ensures
        valid_utf8(live + encode_utf8(text)),
        decode_utf8(live + encode_utf8(text)) == decode_utf8(live) + text,
{
    let encoded = encode_utf8(text);
    let all = live + encoded;
    let cut = live.len() as int;
    encode_utf8_valid_utf8(text);
    encode_utf8_decode_utf8(text);
    valid_utf8_concat(live, encoded);
    assert(is_char_boundary(all, cut)) by {
        if encoded.len() == 0 {
            is_char_boundary_start_end_of_seq(all);
        } else {
            is_char_boundary_start_end_of_seq(encoded);
            is_char_boundary_iff_not_is_continuation_byte(encoded, 0);
            is_char_boundary_iff_not_is_continuation_byte(all, cut);
        }
    }
    decode_utf8_split(all, cut);
    assert(all.subrange(0, cut) == live);
    assert(all.subrange(cut, all.len() as int) == encoded);
}

} // verus!
