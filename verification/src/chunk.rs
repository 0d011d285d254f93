//! Output chunks: bytes carried as base64 text.

use base64::Engine as _;
use vstd::prelude::*;

verus! {

/// The character that stands for six bits in the standard base64 alphabet.
pub open spec fn base64_char(bits: int) -> char {
    if bits < 26 {
        ('A' as int + bits) as char
    } else if bits < 52 {
        ('a' as int + bits - 26) as char
    } else if bits < 62 {
        ('0' as int + bits - 52) as char
    } else if bits == 62 {
        '+'
    } else {
        '/'
    }
}

/// The standard base64 text of bytes: four characters for every three bytes, six bits each,
/// with `=` for what the last group lacks.
pub open spec fn base64_text(bytes: Seq<u8>) -> Seq<char>
    decreases bytes.len(),
{
    let a = bytes[0] as int;
    let b = bytes[1] as int;
    let c = bytes[2] as int;
    if bytes.len() == 0 {
        seq![]
    } else if bytes.len() == 1 {
        seq![base64_char(a / 4), base64_char(a % 4 * 16), '=', '=']
    } else if bytes.len() == 2 {
        seq![base64_char(a / 4), base64_char(a % 4 * 16 + b / 16), base64_char(b % 16 * 4), '=']
    } else {
        seq![
            base64_char(a / 4),
            base64_char(a % 4 * 16 + b / 16),
            base64_char(b % 16 * 4 + c / 64),
            base64_char(c % 64),
        ] + base64_text(bytes.skip(3))
    }
}

/// Whether the base64 text of so many bytes can be held at all.
pub open spec fn encodable(len: nat) -> bool {
    (len + 2) / 3 * 4 <= isize::MAX
}

/// Writes bytes as base64 text with the `STANDARD` engine of `base64`.
///
/// Trusted: the standard alphabet with padding. The engine panics where the text is longer than
/// an allocation can be; such lengths are ruled out.
#[verifier::external_body]
pub(crate) fn encode_base64(bytes: &Vec<u8>) -> (text: String)
    requires
        encodable(bytes@.len()),
    ensures
        text@ == base64_text(bytes@),
{
    base64::engine::general_purpose::STANDARD.encode(bytes)
}

/// Whether the base64 text of so many bytes can be held at all.
pub fn is_encodable(len: usize) -> (answer: bool)
    ensures
        answer == encodable(len as nat),
{
    len <= isize::MAX as usize / 4 * 3
}

/// The length of a base64 text: four characters for each group of up to three bytes.
proof fn lemma_base64_len(bytes: Seq<u8>)
    ensures
        base64_text(bytes).len() == (bytes.len() + 2) / 3 * 4,
    decreases bytes.len(),
{
    if bytes.len() > 2 {
        lemma_base64_len(bytes.skip(3));
    }
}

/// No bytes are lost: chunks with the same base64 text are the same.
pub proof fn law_chunk_is_recoverable(left: Seq<u8>, right: Seq<u8>)
    requires
        base64_text(left) == base64_text(right),
    ensures
        left == right,
    decreases left.len(),
{
    lemma_base64_len(left);
    lemma_base64_len(right);
    if left.len() == 0 {
        assert(right.len() == 0);
        assert(left =~= right);
    } else {
        assert(right.len() > 0);
        assert(base64_text(left)[0] == base64_text(right)[0]);
        assert(base64_text(left)[1] == base64_text(right)[1]);
        assert(base64_text(left)[2] == base64_text(right)[2]);
        assert(base64_text(left)[3] == base64_text(right)[3]);
        lemma_groups_match(left, right);
        if left.len() > 2 {
            assert(base64_text(left).skip(4) =~= base64_text(left.skip(3)));
            assert(base64_text(right).skip(4) =~= base64_text(right.skip(3)));
            law_chunk_is_recoverable(left.skip(3), right.skip(3));
            assert forall|i: int| 0 <= i < left.len() implies left[i] == right[i] by {
                if i >= 3 {
                    assert(left[i] == left.skip(3)[i - 3]);
                    assert(right[i] == right.skip(3)[i - 3]);
                }
            }
            assert(left.len() == left.skip(3).len() + 3);
        }
        assert(left =~= right);
    }
}

proof fn lemma_groups_match(left: Seq<u8>, right: Seq<u8>)
    requires
        left.len() > 0,
        right.len() > 0,
        base64_text(left)[0] == base64_text(right)[0],
        base64_text(left)[1] == base64_text(right)[1],
        base64_text(left)[2] == base64_text(right)[2],
        base64_text(left)[3] == base64_text(right)[3],
    ensures
        left[0] == right[0],
        left.len() == 1 <==> right.len() == 1,
        left.len() == 2 <==> right.len() == 2,
        left.len() >= 2 ==> left[1] == right[1],
        left.len() >= 3 ==> left[2] == right[2],
{
}

} // verus!
