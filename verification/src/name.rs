//! Names as the driver reports them: fixed-size byte buffers in which the
//! name ends at the first zero byte.

use crate::binding::{from_utf8_lossy, utf8_lossy};
use vstd::prelude::*;
use vstd::slice::slice_subrange;
use vstd::utf8::{
    decode_utf8, encode_utf8, encode_utf8_decode_utf8, encode_utf8_valid_utf8, valid_utf8,
};

verus! {

/// The position of the first zero byte of `buffer` at or after `from`, or
/// the length of `buffer` where no zero byte follows.
pub open spec fn nul_position_from(buffer: Seq<u8>, from: int) -> int
    decreases buffer.len() - from,
{
    if from < 0 || from >= buffer.len() {
        buffer.len() as int
    } else if buffer[from] == 0 {
        from
    } else {
        nul_position_from(buffer, from + 1)
    }
}

/// The bytes of the name that `buffer` holds: all that stands before the
/// first zero byte, or the whole buffer where it holds none.
pub open spec fn name_bytes(buffer: Seq<u8>) -> Seq<u8> {
    buffer.take(nul_position_from(buffer, 0))
}

/// Whether `buffer` holds a name that is not empty.
pub open spec fn holds_name(buffer: Seq<u8>) -> bool {
    buffer.len() > 0 && buffer[0] != 0
}

/// `nul_position_from` finds the first zero byte: none stands between `from`
/// and the position, and one stands at the position unless it is the end.
pub proof fn lemma_nul_position(buffer: Seq<u8>, from: int)
    requires
        0 <= from <= buffer.len(),
    ensures
        from <= nul_position_from(buffer, from) <= buffer.len(),
        forall|i: int| from <= i < nul_position_from(buffer, from) ==> buffer[i] != 0,
        nul_position_from(buffer, from) < buffer.len() ==> buffer[nul_position_from(
            buffer,
            from,
        )] == 0,
    decreases buffer.len() - from,
{
    if from < buffer.len() && buffer[from] != 0 {
        lemma_nul_position(buffer, from + 1);
    }
}

/// A name is a prefix of its buffer, holds no zero byte, and is empty only
/// where the buffer is empty or starts with a zero byte.
pub proof fn lemma_name_bytes(buffer: Seq<u8>)
    ensures
        name_bytes(buffer).len() <= buffer.len(),
        name_bytes(buffer) == buffer.take(name_bytes(buffer).len() as int),
        !name_bytes(buffer).contains(0u8),
        name_bytes(buffer).len() < buffer.len() ==> buffer[name_bytes(buffer).len() as int] == 0,
        name_bytes(buffer).len() > 0 <==> holds_name(buffer),
{
    lemma_nul_position(buffer, 0);
    if buffer.len() > 0 && buffer[0] != 0 {
        lemma_nul_position(buffer, 1);
    }
}

/// The name that `buffer` holds, as bytes.
pub fn trim_at_nul(buffer: &[u8]) -> (name: &[u8])
    ensures
        name@ == name_bytes(buffer@),
{
    let mut end: usize = 0;
    while end < buffer.len() && buffer[end] != 0
        invariant
            end <= buffer.len(),
            nul_position_from(buffer@, end as int) == nul_position_from(buffer@, 0),
        decreases buffer.len() - end,
    {
        end += 1;
    }
    slice_subrange(buffer, 0, end)
}

/// Whether `buffer` holds exactly the name `name`.
pub fn holds_name_of(buffer: &[u8], name: &str) -> (same: bool)
    ensures
        same == (name_bytes(buffer@) == encode_utf8(name@)),
{
    let held = trim_at_nul(buffer);
    let wanted = name.as_bytes();
    if held.len() != wanted.len() {
        return false;
    }
    let mut i: usize = 0;
    while i < held.len()
        invariant
            i <= held@.len(),
            held@ == name_bytes(buffer@),
            wanted@ == encode_utf8(name@),
            held@.len() == wanted@.len(),
            forall|j: int| 0 <= j < i ==> held@[j] == wanted@[j],
        decreases held@.len() - i,
    {
        if held[i] != wanted[i] {
            assert(held@[i as int] != wanted@[i as int]);
            return false;
        }
        i += 1;
    }
    assert(held@ =~= wanted@);
    true
}

/// A buffer that holds the UTF-8 encoding of `text` before its first zero
/// byte holds a valid name, and that name decodes to `text`.
pub proof fn lemma_name_of_text(buffer: Seq<u8>, text: Seq<char>)
    requires
        name_bytes(buffer) == encode_utf8(text),
    ensures
        valid_utf8(name_bytes(buffer)),
        decode_utf8(name_bytes(buffer)) == text,
{
    encode_utf8_valid_utf8(text);
    encode_utf8_decode_utf8(text);
}

/// The name that `buffer` holds, as text: where the name is valid UTF-8,
/// the text that it encodes. Bytes that are no UTF-8 are replaced, not
/// refused. The text never holds U+0000, and it is not empty where the
/// buffer holds a name.
pub fn decode_name(buffer: &[u8]) -> (name: String)
    ensures
        name@ == utf8_lossy(name_bytes(buffer@)),
        valid_utf8(name_bytes(buffer@)) ==> name@ == decode_utf8(name_bytes(buffer@)),
        !name@.contains('\0'),
        holds_name(buffer@) ==> name@.len() > 0,
{
    proof {
        lemma_name_bytes(buffer@);
    }
    from_utf8_lossy(trim_at_nul(buffer))
}

} // verus!
