use vstd::prelude::*;

verus! {

/// A character of lower-case hexadecimal: `0`-`9` or `a`-`f`.
pub open spec fn is_lower_hex_digit(c: char) -> bool {
    ||| ('0' as u32 <= c as u32 && c as u32 <= '9' as u32)
    ||| ('a' as u32 <= c as u32 && c as u32 <= 'f' as u32)
}

/// Positions of the hyphens in the hyphenated text of a UUID.
pub open spec fn is_uuid_hyphen_position(i: int) -> bool {
    i == 8 || i == 13 || i == 18 || i == 23
}

/// Text of a random (version 4, RFC 4122 variant) UUID in hyphenated
/// lower-case form, such as `67e55044-10b1-426f-9247-bb680e5fe0c8`:
/// 36 characters, hyphens at positions 8, 13, 18 and 23, lower-case hex
/// digits elsewhere, the version digit `4` at position 14 and one of
/// `8`, `9`, `a`, `b` at position 19.
pub open spec fn is_session_token(s: Seq<char>) -> bool {
    &&& s.len() == 36
    &&& forall|i: int|
        0 <= i < 36 ==> if is_uuid_hyphen_position(i) {
            #[trigger] s[i] == '-'
        } else {
            is_lower_hex_digit(s[i])
        }
    &&& s[14] == '4'
    &&& (s[19] == '8' || s[19] == '9' || s[19] == 'a' || s[19] == 'b')
}

/// `uuid::Uuid::new_v4().to_string()`.
///
/// uuid fills 128 bits from the operating system's random source, then
/// sets the version nibble to 4 and the variant bits to `10`; its
/// `Display` writes the hyphenated lower-case form. Which UUID comes out
/// is left open: it is random.
#[verifier::external_body]
fn uuid_v4_text() -> (res: String)
    ensures
        is_session_token(res@),
{
    uuid::Uuid::new_v4().to_string()
}

/// A fresh, random session token.
pub fn new_session_token() -> (res: String)
    ensures
        is_session_token(res@),
{
    uuid_v4_text()
}

} // verus!
