use vstd::prelude::*;

verus! {

/// The work factor with which passwords are hashed: bcrypt's default cost.
pub const PASSWORD_HASH_COST: u32 = 12;

#[verifier::external_type_specification]
#[verifier::external_body]
pub struct ExBcryptError(bcrypt::BcryptError);

/// What `bcrypt::verify(password, hash)` returns for a password and a
/// stored hash: `Some(verdict)` for its `Ok(verdict)`, `None` for an error.
/// It depends on the two texts alone.
pub uninterp spec fn bcrypt_verify_outcome(password: Seq<char>, hash: Seq<char>) -> Option<bool>;

/// The password is accepted by the stored hash.
pub open spec fn password_matches(password: Seq<char>, hash: Seq<char>) -> bool {
    bcrypt_verify_outcome(password, hash) == Some(true)
}

/// The character of a decimal digit.
pub open spec fn decimal_digit(d: int) -> char {
    (48 + d) as char
}

/// Text of a bcrypt hash of version `2b` made with `cost`:
/// `$2b$`, the cost in two digits, `$`, then 53 characters of salt and hash.
pub open spec fn is_bcrypt_hash_text(h: Seq<char>, cost: u32) -> bool {
    &&& h.len() == 60
    &&& h.subrange(0, 7) == seq![
        '$',
        '2',
        'b',
        '$',
        decimal_digit((cost / 10) as int),
        decimal_digit((cost % 10) as int),
        '$',
    ]
}

/// `bcrypt::verify(password, hash)`.
///
/// bcrypt splits the stored hash into cost, salt and digest, recomputes
/// the digest of the password with that cost and salt, and compares.
/// The outcome is a function of the two texts, named
/// `bcrypt_verify_outcome`. A stored hash that is not 60 characters long
/// is rejected as malformed before anything else.
#[verifier::external_body]
fn bcrypt_verify(password: &str, hash: &str) -> (res: Result<bool, bcrypt::BcryptError>)
    ensures
        res is Ok <==> bcrypt_verify_outcome(password@, hash@) is Some,
        res matches Ok(b) ==> bcrypt_verify_outcome(password@, hash@) == Some(b),
        hash@.len() != 60 ==> res is Err,
{
    bcrypt::verify(password, hash)
}

/// `bcrypt::hash(password, cost)`.
///
/// bcrypt draws a random salt from the operating system, hashes the
/// password with it and writes the result in the `2b` format. Which hash
/// comes out is left open (the salt is random); every hash it returns is
/// accepted by `bcrypt::verify` for the same password, since verify
/// recomputes the digest from the same password, cost and salt. A cost
/// outside 4 to 31 is refused with an error; a failure of the random
/// source is an error too.
#[verifier::external_body]
fn bcrypt_hash(password: &str, cost: u32) -> (res: Result<String, bcrypt::BcryptError>)
    ensures
        !(4 <= cost <= 31) ==> res is Err,
        res matches Ok(h) ==> {
            &&& is_bcrypt_hash_text(h@, cost)
            &&& bcrypt_verify_outcome(password@, h@) == Some(true)
        },
{
    bcrypt::hash(password, cost)
}

/// Text that bcrypt's `Display` writes for one of its errors: a cost out of
/// range, a malformed hash, a failure of the random source, or a password
/// too long for the non-truncating functions.
pub open spec fn is_bcrypt_error_text(m: Seq<char>) -> bool {
    ||| "Cost needs to be between "@.is_prefix_of(m)
    ||| "Invalid hash: "@.is_prefix_of(m)
    ||| "Rand error: "@.is_prefix_of(m)
    ||| "Expected 72 bytes or fewer; found "@.is_prefix_of(m)
}

/// The text of a bcrypt error, through its `Display`.
///
/// bcrypt's `Display` for `BcryptError` writes, for its four variants,
/// "Cost needs to be between {min} and {max}, got {cost}",
/// "Invalid hash: {reason}", "Rand error: {err}" and
/// "Expected 72 bytes or fewer; found {len} bytes"; which one, and the
/// values in it, depend on the error, which is opaque here.
#[verifier::external_body]
fn bcrypt_error_text(e: &bcrypt::BcryptError) -> (res: String)
    ensures
        is_bcrypt_error_text(res@),
{
    e.to_string()
}

/// Hashes a password for storage. On success the hash is a `2b` bcrypt
/// hash of cost 12 that accepts this password; on failure the error is
/// bcrypt's own message (the library refuses no password by itself).
pub fn hash_password(password: &str) -> (res: Result<String, String>)
    ensures
        res matches Ok(h) ==> {
            &&& is_bcrypt_hash_text(h@, PASSWORD_HASH_COST)
            &&& password_matches(password@, h@)
        },
        res matches Err(m) ==> is_bcrypt_error_text(m@),
{
    match bcrypt_hash(password, PASSWORD_HASH_COST) {
        Ok(h) => Ok(h),
        Err(e) => Err(bcrypt_error_text(&e)),
    }
}

/// Whether a password is accepted by a stored hash; a stored hash that
/// bcrypt cannot read accepts nothing.
pub fn check_password(password: &str, hash: &str) -> (res: bool)
    ensures
        res == password_matches(password@, hash@),
        hash@.len() != 60 ==> !res,
{
    match bcrypt_verify(password, hash) {
        Ok(b) => b,
        Err(_) => false,
    }
}

} // verus!
