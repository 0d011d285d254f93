//! Random names: tokens that tell approval callbacks and sockets apart.

use crate::text::joined;
use vstd::prelude::*;
use vstd::string::*;

verus! {

/// A hexadecimal digit in lower case.
pub open spec fn is_hex_digit(c: char) -> bool {
    '0' <= c <= '9' || 'a' <= c <= 'f'
}

/// The digit behind the version of a random UUID, which holds its variant.
pub open spec fn is_variant_digit(c: char) -> bool {
    c == '8' || c == '9' || c == 'a' || c == 'b'
}

/// The text of a random UUID with hyphens.
pub open spec fn is_token(text: Seq<char>) -> bool {
    &&& text.len() == 36
    &&& forall|i: int|
        0 <= i < 36 ==> if i == 8 || i == 13 || i == 18 || i == 23 {
            #[trigger] text[i] == '-'
        } else {
            is_hex_digit(text[i])
        }
    &&& text[14] == '4'
    &&& is_variant_digit(text[19])
}

/// The text of a random UUID without hyphens.
pub open spec fn is_simple_token(text: Seq<char>) -> bool {
    &&& text.len() == 32
    &&& forall|i: int| 0 <= i < 32 ==> is_hex_digit(#[trigger] text[i])
    &&& text[12] == '4'
    &&& is_variant_digit(text[16])
}

/// Draws a random UUID with `Uuid::new_v4` and writes it with its hyphens.
///
/// Trusted: the shape of the text. Which UUID is drawn is left to chance, and nothing comes back
/// where the system has no random bytes to give.
#[verifier::external_body]
pub(crate) fn draw_token() -> (text: String)
    ensures
        is_token(text@),
{
    uuid::Uuid::new_v4().to_string()
}

/// Draws a random UUID with `Uuid::new_v4` and writes it with `Uuid::as_simple`.
///
/// Trusted: the shape of the text. Which UUID is drawn is left to chance, and nothing comes back
/// where the system has no random bytes to give.
#[verifier::external_body]
fn draw_simple_token() -> (text: String)
    ensures
        is_simple_token(text@),
{
    uuid::Uuid::new_v4().as_simple().to_string()
}

/// The file name of the socket that goes with a token.
pub open spec fn socket_name(token: Seq<char>) -> Seq<char> {
    "czs-"@ + token.take(12) + ".sock"@
}

/// The file name of the socket that goes with a token, which gives its first twelve characters.
pub fn socket_name_for(token: &str) -> (name: String)
    requires
        token@.len() >= 12,
    ensures
        name@ == socket_name(token@),
{
    let start = token.substring_char(0, 12);
    assert(start@ =~= token@.take(12));
    joined("czs-", start).concat(".sock")
}

/// A file name for a new socket.
pub fn new_socket_name() -> (name: String)
    ensures
        exists|token: Seq<char>| #[trigger] is_simple_token(token) && name@ == socket_name(token),
{
    let token = draw_simple_token();
    let name = socket_name_for(token.as_str());
    assert(is_simple_token(token@) && name@ == socket_name(token@));
    name
}

} // verus!
