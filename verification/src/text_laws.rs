//! Text, numerals, chunks, names and error texts, said of their characters.

use crate::chunk::{base64_char, base64_text, encodable};
use crate::error::{error_cause, error_message, ErrorView};
use crate::text::{
    decimal_text, digit, is_white_space, numeral, trimmed, trimmed_end, trimmed_start,
};
use crate::token::socket_name;
use vstd::prelude::*;
use vstd::string::*;

verus! {

/// White space is what Unicode calls so.
pub proof fn law_white_space(c: char)
    ensures
        is_white_space(c) <==> {
            let code = c as int;
            ||| 0x9 <= code <= 0xd
            ||| code == 0x20 || code == 0x85 || code == 0xa0 || code == 0x1680
            ||| 0x2000 <= code <= 0x200a
            ||| code == 0x2028 || code == 0x2029 || code == 0x202f || code == 0x205f || code
                == 0x3000
        },
{
}

proof fn lemma_start(text: Seq<char>) -> (from: int)
    ensures
        0 <= from <= text.len(),
        trimmed_start(text) == text.skip(from),
        forall|i: int| 0 <= i < from ==> is_white_space(#[trigger] text[i]),
        from < text.len() ==> !is_white_space(text[from]),
    decreases text.len(),
{
    if text.len() > 0 && is_white_space(text[0]) {
        let rest = text.drop_first();
        let from = lemma_start(rest) + 1;
        assert(rest.skip(from - 1) =~= text.skip(from));
        assert forall|i: int| 0 <= i < from implies is_white_space(#[trigger] text[i]) by {
            if i > 0 {
                assert(rest[i - 1] == text[i]);
            }
        }
        from
    } else {
        assert(text.skip(0) =~= text);
        0
    }
}

proof fn lemma_end(text: Seq<char>) -> (to: int)
    ensures
        0 <= to <= text.len(),
        trimmed_end(text) == text.take(to),
        forall|i: int| to <= i < text.len() ==> is_white_space(#[trigger] text[i]),
        to > 0 ==> !is_white_space(text[to - 1]),
    decreases text.len(),
{
    if text.len() > 0 && is_white_space(text.last()) {
        let rest = text.drop_last();
        let to = lemma_end(rest);
        assert(rest.take(to) =~= text.take(to));
        assert forall|i: int| to <= i < text.len() implies is_white_space(#[trigger] text[i]) by {
            if i < rest.len() {
                assert(rest[i] == text[i]);
            }
        }
        to
    } else {
        assert(text.take(text.len() as int) =~= text);
        text.len() as int
    }
}

/// Whether a text stands in another between two places, with nothing but white space outside, and
/// with none at its ends.
pub open spec fn stands_between(inner: Seq<char>, text: Seq<char>, from: int, to: int) -> bool {
    &&& 0 <= from <= to <= text.len()
    &&& inner == text.subrange(from, to)
    &&& forall|i: int|
        0 <= i < text.len() && !(from <= i < to) ==> is_white_space(#[trigger] text[i])
    &&& from < to ==> !is_white_space(text[from]) && !is_white_space(text[to - 1])
}

/// Trimming takes off all the white space at both ends of a text, and nothing else.
pub proof fn law_trimming_takes_off_white_space(text: Seq<char>)
    ensures
        exists|from: int, to: int| #[trigger] stands_between(trimmed(text), text, from, to),
{
    let from = lemma_start(text);
    let rest = text.skip(from);
    let len = lemma_end(rest);
    assert(rest.take(len) =~= text.subrange(from, from + len));
    assert forall|i: int|
        0 <= i < text.len() && !(from <= i < from + len) implies is_white_space(
        #[trigger] text[i],
    ) by {
        if i >= from + len {
            assert(rest[i - from] == text[i]);
        }
    }
    if len > 0 {
        assert(rest[len - 1] == text[from + len - 1]);
    }
    assert(stands_between(trimmed(text), text, from, from + len));
}

/// The number that a row of decimal digits stands for.
pub open spec fn number_of(digits: Seq<char>) -> int
    decreases digits.len(),
{
    if digits.len() == 0 {
        0
    } else {
        10 * number_of(digits.drop_last()) + (digits.last() as int - '0' as int)
    }
}

/// The numeral of a number is a row of digits without a leading zero that stands for the number;
/// before that of a negative number stands a minus sign.
pub proof fn law_numeral_stands_for_its_number(n: int)
    ensures
        n >= 0 ==> {
            &&& decimal_text(n).len() > 0
            &&& forall|i: int|
                0 <= i < decimal_text(n).len() ==> '0' <= #[trigger] decimal_text(n)[i] <= '9'
            &&& number_of(decimal_text(n)) == n
            &&& decimal_text(n).len() > 1 ==> decimal_text(n)[0] != '0'
        },
        n < 0 ==> decimal_text(n) == seq!['-'] + decimal_text(-n),
{
    if n >= 0 {
        lemma_numeral(n as nat);
    }
}

proof fn lemma_numeral(n: nat)
    ensures
        numeral(n).len() > 0,
        forall|i: int| 0 <= i < numeral(n).len() ==> '0' <= #[trigger] numeral(n)[i] <= '9',
        number_of(numeral(n)) == n,
        n > 0 ==> numeral(n)[0] != '0',
    decreases n,
{
    reveal_with_fuel(number_of, 2);
    if n < 10 {
        assert(numeral(n).drop_last() =~= Seq::<char>::empty());
        assert(numeral(n).last() == digit(n));
    } else {
        lemma_numeral(n / 10);
        assert(numeral(n).drop_last() =~= numeral(n / 10));
        assert(numeral(n).last() == digit(n % 10));
    }
}

/// The six bits that a character of base64 stands for.
pub open spec fn six_bits(c: char) -> int {
    if 'A' <= c <= 'Z' {
        c as int - 'A' as int
    } else if 'a' <= c <= 'z' {
        c as int - 'a' as int + 26
    } else if '0' <= c <= '9' {
        c as int - '0' as int + 52
    } else if c == '+' {
        62
    } else {
        63
    }
}

proof fn lemma_six_bits(bits: int)
    requires
        0 <= bits < 64,
    ensures
        six_bits(base64_char(bits)) == bits,
        base64_char(bits) != '=',
{
}

/// Every byte is found again in the base64 text, in the group of four characters that its group of
/// three bytes has, and what a group lacks is padded.
pub proof fn law_base64_holds_every_byte(bytes: Seq<u8>, at: int)
    requires
        0 <= at < bytes.len(),
        at % 3 == 0,
    ensures
        ({
            let text = base64_text(bytes);
            let place = at / 3 * 4;
            let left = bytes.len() - at;
            &&& text.len() == (bytes.len() + 2) / 3 * 4
            &&& place + 4 <= text.len()
            &&& bytes[at] == six_bits(text[place]) * 4 + six_bits(text[place + 1]) / 16
            &&& left > 1 ==> bytes[at + 1] == six_bits(text[place + 1]) % 16 * 16 + six_bits(
                text[place + 2],
            ) / 4
            &&& left > 2 ==> bytes[at + 2] == six_bits(text[place + 2]) % 4 * 64 + six_bits(
                text[place + 3],
            )
            &&& text[place] != '=' && text[place + 1] != '='
            &&& text[place + 2] == '=' <==> left == 1
            &&& text[place + 3] == '=' <==> left <= 2
        }),
    decreases bytes.len(),
{
    lemma_base64_length(bytes);
    let text = base64_text(bytes);
    if at == 0 {
        let a = bytes[0] as int;
        lemma_six_bits(a / 4);
        if bytes.len() == 1 {
            lemma_six_bits(a % 4 * 16);
        } else {
            let b = bytes[1] as int;
            lemma_six_bits(a % 4 * 16 + b / 16);
            if bytes.len() == 2 {
                lemma_six_bits(b % 16 * 4);
            } else {
                let c = bytes[2] as int;
                lemma_six_bits(b % 16 * 4 + c / 64);
                lemma_six_bits(c % 64);
            }
        }
    } else {
        let rest = bytes.skip(3);
        law_base64_holds_every_byte(rest, at - 3);
        let place = at / 3 * 4;
        assert((at - 3) / 3 * 4 == place - 4);
        assert(text.skip(4) =~= base64_text(rest));
        assert(text.skip(4)[place - 4] == text[place]);
        assert(text.skip(4)[place - 3] == text[place + 1]);
        assert(text.skip(4)[place - 2] == text[place + 2]);
        assert(text.skip(4)[place - 1] == text[place + 3]);
        assert(rest[at - 3] == bytes[at]);
    }
}

proof fn lemma_base64_length(bytes: Seq<u8>)
    ensures
        base64_text(bytes).len() == (bytes.len() + 2) / 3 * 4,
    decreases bytes.len(),
{
    if bytes.len() > 2 {
        lemma_base64_length(bytes.skip(3));
    }
}

/// Bytes can be encoded exactly where four characters for each group of up to three fit an
/// allocation.
pub proof fn law_encodable_lengths(len: nat)
    ensures
        encodable(len) <==> 4 * ((len + 2) / 3) <= isize::MAX,
{
}

/// A socket is named by the first twelve characters of a token, between `czs-` and `.sock`.
pub proof fn law_socket_name_holds_its_token(token: Seq<char>)
    requires
        token.len() >= 12,
    ensures
        socket_name(token).len() == 21,
        socket_name(token).take(4) == "czs-"@,
        socket_name(token).subrange(4, 16) == token.take(12),
        socket_name(token).skip(16) == ".sock"@,
{
    reveal_strlit("czs-");
    reveal_strlit(".sock");
    assert("czs-"@.len() == 4 && ".sock"@.len() == 5);
    assert(socket_name(token).take(4) =~= "czs-"@);
    assert(socket_name(token).subrange(4, 16) =~= token.take(12));
    assert(socket_name(token).skip(16) =~= ".sock"@);
}

/// Every error is told by its own sentence, whatever lies behind it; only a rejection and a failed
/// connection name something in it.
pub proof fn law_error_sentences(cause: Seq<char>, path: Seq<char>)
    ensures
        error_message(ErrorView::InputClosed) == "stdin closed while waiting for approval response"@,
        error_message(ErrorView::ApprovalMessage(cause))
            == "parse approval response JSON-RPC message"@,
        error_message(ErrorView::ApprovalId(cause)) == "parse approval response JSON-RPC id"@,
        error_message(ErrorView::ApprovalRejected(cause)) == "host rejected approval callback: "@
            + cause,
        error_message(ErrorView::ApprovalResultMissing) == "missing approval callback result"@,
        error_message(ErrorView::ApprovalResult(cause)) == "parse approval callback result"@,
        error_message(ErrorView::WrapperRequestBytes(cause)) == "decode wrapper request as utf-8"@,
        error_message(ErrorView::WrapperRequest(cause)) == "parse wrapper request payload"@,
        error_message(ErrorView::WrapperTargetMissing)
            == "exec wrapper mode requires target executable path"@,
        error_message(ErrorView::WrapperSocketMissing(cause))
            == "missing wrapper socket path env var"@,
        error_message(ErrorView::WrapperConnection { socket_path: path, cause })
            == "connect to wrapper socket at "@ + path,
        error_message(ErrorView::WrapperResponse(cause)) == "parse wrapper response"@,
        error_message(ErrorView::WrapperUnsupported)
            == "exec wrapper mode is only supported on unix"@,
{
}

/// What lies behind an error is told where something else failed first, and as it was said.
pub proof fn law_error_causes(cause: Seq<char>, path: Seq<char>)
    ensures
        error_cause(ErrorView::ApprovalMessage(cause)) == Some(cause),
        error_cause(ErrorView::ApprovalId(cause)) == Some(cause),
        error_cause(ErrorView::ApprovalResult(cause)) == Some(cause),
        error_cause(ErrorView::WrapperRequestBytes(cause)) == Some(cause),
        error_cause(ErrorView::WrapperRequest(cause)) == Some(cause),
        error_cause(ErrorView::WrapperSocketMissing(cause)) == Some(cause),
        error_cause(ErrorView::WrapperConnection { socket_path: path, cause }) == Some(cause),
        error_cause(ErrorView::WrapperResponse(cause)) == Some(cause),
        error_cause(ErrorView::InputClosed) is None,
        error_cause(ErrorView::ApprovalRejected(cause)) is None,
        error_cause(ErrorView::ApprovalResultMissing) is None,
        error_cause(ErrorView::WrapperTargetMissing) is None,
        error_cause(ErrorView::WrapperUnsupported) is None,
{
}

} // verus!
