//! Text: comparison, trimming, decimal numerals, and the bytes of UTF-8.

use vstd::prelude::*;
use vstd::slice::SliceAdditionalSpecFns;
use vstd::string::*;
use vstd::utf8::*;

verus! {

/// Whether two texts are the same.
pub fn same_text(a: &str, b: &str) -> (same: bool)
    ensures
        same == (a@ == b@),
{
    broadcast use encode_utf8_decode_utf8;

    let left: &[u8] = a.as_bytes();
    let right: &[u8] = b.as_bytes();
    if left.len() != right.len() {
        return false;
    }
    let mut i: usize = 0;
    while i < left.len()
        invariant
            left@ == encode_utf8(a@),
            right@ == encode_utf8(b@),
            left@.len() == right@.len(),
            i <= left@.len(),
            forall|j: int| 0 <= j < i ==> left@[j] == right@[j],
        decreases left@.len() - i,
    {
        if left[i] != right[i] {
            return false;
        }
        i += 1;
    }
    proof {
        assert(left@ =~= right@);
        assert(decode_utf8(encode_utf8(a@)) == decode_utf8(encode_utf8(b@)));
    }
    true
}

/// The characters with the Unicode property `White_Space`.
pub open spec fn is_white_space(c: char) -> bool {
    ||| '\u{9}' <= c <= '\u{d}'
    ||| c == '\u{20}'
    ||| c == '\u{85}'
    ||| c == '\u{a0}'
    ||| c == '\u{1680}'
    ||| '\u{2000}' <= c <= '\u{200a}'
    ||| c == '\u{2028}'
    ||| c == '\u{2029}'
    ||| c == '\u{202f}'
    ||| c == '\u{205f}'
    ||| c == '\u{3000}'
}

fn white_space(c: char) -> (answer: bool)
    ensures
        answer == is_white_space(c),
{
    ('\u{9}' <= c && c <= '\u{d}') || c == '\u{20}' || c == '\u{85}' || c == '\u{a0}' || c
        == '\u{1680}' || ('\u{2000}' <= c && c <= '\u{200a}') || c == '\u{2028}' || c == '\u{2029}'
        || c == '\u{202f}' || c == '\u{205f}' || c == '\u{3000}'
}

/// A text without the white space that it starts with.
pub open spec fn trimmed_start(text: Seq<char>) -> Seq<char>
    decreases text.len(),
{
    if text.len() > 0 && is_white_space(text[0]) {
        trimmed_start(text.drop_first())
    } else {
        text
    }
}

/// A text without the white space that it ends with.
pub open spec fn trimmed_end(text: Seq<char>) -> Seq<char>
    decreases text.len(),
{
    if text.len() > 0 && is_white_space(text.last()) {
        trimmed_end(text.drop_last())
    } else {
        text
    }
}

/// A text without the white space around it.
pub open spec fn trimmed(text: Seq<char>) -> Seq<char> {
    trimmed_end(trimmed_start(text))
}

/// The text without the white space around it.
pub fn trim<'a>(text: &'a str) -> (inner: &'a str)
    ensures
        inner@ == trimmed(text@),
{
    let len: usize = text.unicode_len();
    let mut from: usize = 0;
    proof {
        assert(text@.skip(0) =~= text@);
    }
    while from < len && white_space(text.get_char(from))
        invariant
            len == text@.len(),
            from <= len,
            trimmed_start(text@) == trimmed_start(text@.skip(from as int)),
        decreases len - from,
    {
        proof {
            assert(text@.skip(from as int).drop_first() =~= text@.skip(from + 1));
        }
        from += 1;
    }
    let mut to: usize = len;
    proof {
        assert(text@.subrange(from as int, to as int) =~= text@.skip(from as int));
    }
    while to > from && white_space(text.get_char(to - 1))
        invariant
            len == text@.len(),
            from <= to <= len,
            trimmed_end(text@.skip(from as int)) == trimmed_end(
                text@.subrange(from as int, to as int),
            ),
        decreases to,
    {
        proof {
            assert(text@.subrange(from as int, to as int).drop_last() =~= text@.subrange(
                from as int,
                to - 1,
            ));
        }
        to -= 1;
    }
    text.substring_char(from, to)
}

proof fn lemma_trimmed_start_shrinks(text: Seq<char>)
    ensures
        trimmed_start(text).len() <= text.len(),
    decreases text.len(),
{
    if text.len() > 0 && is_white_space(text[0]) {
        lemma_trimmed_start_shrinks(text.drop_first());
    }
}

proof fn lemma_trimmed_end_shrinks(text: Seq<char>)
    ensures
        trimmed_end(text).len() <= text.len(),
    decreases text.len(),
{
    if text.len() > 0 && is_white_space(text.last()) {
        lemma_trimmed_end_shrinks(text.drop_last());
    }
}

/// A text without white space around it is what is left of it when a line break follows.
pub proof fn lemma_line_is_trimmed(text: Seq<char>)
    requires
        text.len() > 0,
        trimmed(text) == text,
    ensures
        trimmed(text.push('\n')) == text,
{
    let line = text.push('\n');
    lemma_trimmed_end_shrinks(trimmed_start(text));
    lemma_trimmed_start_shrinks(text.drop_first());
    assert(!is_white_space(text[0]));
    assert(line[0] == text[0]);
    assert(trimmed_start(line) == line);
    assert(trimmed_start(text) == text);
    assert(line.drop_last() =~= text);
}

/// The numeral of a digit.
pub open spec fn digit(n: nat) -> char {
    if n == 0 {
        '0'
    } else if n == 1 {
        '1'
    } else if n == 2 {
        '2'
    } else if n == 3 {
        '3'
    } else if n == 4 {
        '4'
    } else if n == 5 {
        '5'
    } else if n == 6 {
        '6'
    } else if n == 7 {
        '7'
    } else if n == 8 {
        '8'
    } else {
        '9'
    }
}

/// The decimal numeral of a natural number, without leading zeros.
pub open spec fn numeral(n: nat) -> Seq<char>
    decreases n,
{
    if n < 10 {
        seq![digit(n)]
    } else {
        numeral(n / 10).push(digit(n % 10))
    }
}

/// The decimal numeral of an integer: a minus sign before the numeral of its size where it
/// is negative.
pub open spec fn decimal_text(n: int) -> Seq<char> {
    if n < 0 {
        seq!['-'] + numeral((-n) as nat)
    } else {
        numeral(n as nat)
    }
}

fn digit_text(n: u128) -> (text: &'static str)
    requires
        n < 10,
    ensures
        text@ == seq![digit(n as nat)],
{
    proof {
        reveal_strlit("0");
        reveal_strlit("1");
        reveal_strlit("2");
        reveal_strlit("3");
        reveal_strlit("4");
        reveal_strlit("5");
        reveal_strlit("6");
        reveal_strlit("7");
        reveal_strlit("8");
        reveal_strlit("9");
    }
    let text: &'static str = if n == 0 {
        "0"
    } else if n == 1 {
        "1"
    } else if n == 2 {
        "2"
    } else if n == 3 {
        "3"
    } else if n == 4 {
        "4"
    } else if n == 5 {
        "5"
    } else if n == 6 {
        "6"
    } else if n == 7 {
        "7"
    } else if n == 8 {
        "8"
    } else {
        "9"
    };
    assert(text@ =~= seq![digit(n as nat)]);
    text
}

fn unsigned(n: u128) -> (text: String)
    ensures
        text@ == numeral(n as nat),
    decreases n,
{
    if n < 10 {
        digit_text(n).to_owned()
    } else {
        let high = unsigned(n / 10);
        let text = high.concat(digit_text(n % 10));
        assert(text@ =~= numeral((n / 10) as nat).push(digit((n % 10) as nat)));
        text
    }
}

/// The decimal numeral of an integer.
pub fn decimal(n: i128) -> (text: String)
    ensures
        text@ == decimal_text(n as int),
{
    if n < 0 {
        proof {
            reveal_strlit("-");
        }
        let text = String::from_str("-").concat(unsigned((-(n + 1)) as u128 + 1).as_str());
        assert("-"@ =~= seq!['-']);
        text
    } else {
        unsigned(n as u128)
    }
}

/// Two texts, one behind the other.
pub fn joined(first: &str, second: &str) -> (text: String)
    ensures
        text@ == first@ + second@,
{
    String::from_str(first).concat(second)
}

/// The text that `Debug` writes for a `str`: quoted, with escapes.
pub uninterp spec fn quoted(text: Seq<char>) -> Seq<char>;

/// Quotes a text as `<str as Debug>::fmt` does.
///
/// Trusted: the result depends on the text alone; which characters are escaped is not said.
#[verifier::external_body]
pub(crate) fn quote(text: &str) -> (result: String)
    ensures
        result@ == quoted(text@),
{
    format!("{:?}", text)
}

/// The text of the error that `String::from_utf8` gives for bytes that are not UTF-8.
pub uninterp spec fn utf8_error(bytes: Seq<u8>) -> Seq<char>;

/// Reads bytes as UTF-8 with `String::from_utf8`.
///
/// Trusted: it succeeds on valid UTF-8 and on nothing else, and then gives the decoded text;
/// the text of its error depends on the bytes alone.
#[verifier::external_body]
pub(crate) fn text_of_bytes(bytes: Vec<u8>) -> (result: Result<String, String>)
    ensures
        match result {
            Ok(text) => valid_utf8(bytes@) && text@ == decode_utf8(bytes@),
            Err(error) => !valid_utf8(bytes@) && error@ == utf8_error(bytes@),
        },
{
    String::from_utf8(bytes).map_err(|error| error.to_string())
}

} // verus!
