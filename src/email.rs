//! Contributor identities: an email address and the content hash that stands
//! for it as a stable, de-identified key.
use vstd::prelude::*;

use crate::errors::{AppError, AppErrorType};

verus! {

/// A contributor identity as stored: the address and the lowercase hex MD5
/// digest of its UTF-8 bytes.
#[derive(Debug, Clone)]
pub struct Email {
    pub email: String,
    pub hash_md5: String,
}

/// The payload that asks for a new identity.
#[derive(Debug, Clone)]
pub struct EmailData {
    pub email: String,
}

/// The MD5 digest of the UTF-8 encoding of a text.
pub uninterp spec fn md5_of(text: Seq<char>) -> Seq<u8>;

/// Relies on md-5's `Md5::digest` over the text's UTF-8 bytes: the digest
/// depends on the text alone and is 16 bytes long.
#[verifier::external_body]
fn md5_digest(text: &str) -> (r: Vec<u8>)
    ensures
        r@ == md5_of(text@),
        r@.len() == 16,
{
    <md5::Md5 as md5::Digest>::digest(text.as_bytes()).to_vec()
}

/// The lowercase hexadecimal digit of a value below sixteen.
pub open spec fn hex_digit(n: int) -> char {
    seq!['0', '1', '2', '3', '4', '5', '6', '7', '8', '9', 'a', 'b', 'c', 'd', 'e', 'f'][n]
}

/// Two lowercase hex digits per byte, the high half first.
pub open spec fn hex_of(b: Seq<u8>) -> Seq<char>
    decreases b.len(),
{
    if b.len() == 0 {
        Seq::empty()
    } else {
        hex_of(b.drop_last()) + seq![hex_digit(b.last() as int / 16), hex_digit(b.last() as int % 16)]
    }
}

/// Relies on `hex::encode`: each byte becomes two digits of
/// `0123456789abcdef`, the high half first.
#[verifier::external_body]
fn hex_encode(b: &[u8]) -> (r: String)
    ensures
        r@ == hex_of(b@),
{
    hex::encode(b)
}

/// The key that stands for an address: the hex form of its MD5 digest.
pub open spec fn identity_hash(email: Seq<char>) -> Seq<char> {
    hex_of(md5_of(email))
}

impl Email {
    /// The identity of `email` whose digest is `digest`, written in hex.
    pub fn from_digest(email: &String, digest: &Vec<u8>) -> (r: Email)
        ensures
            r.email@ == email@,
            r.hash_md5@ == hex_of(digest@),
    {
        Email { email: email.clone(), hash_md5: hex_encode(digest.as_slice()) }
    }

    /// The identity of the address in `data`, with its content hash.
    pub fn new(data: &EmailData) -> (r: Email)
        ensures
            r.email@ == data.email@,
            r.hash_md5@ == identity_hash(data.email@),
    {
        let digest = md5_digest(data.email.as_str());
        Email::from_digest(&data.email, &digest)
    }

    /// What creating an identity yields, given whether the address is stored
    /// already: the row to insert, or the conflict.
    pub fn create(data: &EmailData, exists: bool) -> (r: Result<Email, AppError>)
        ensures
            exists <==> r is Err,
            r matches Ok(m) ==> m.email@ == data.email@ && m.hash_md5@ == identity_hash(
                data.email@,
            ),
            r matches Err(e) ==> e.error_type == AppErrorType::AlreadyExistsError,
            r matches Err(e) ==> (e.message matches Some(t) && t@ == "Email already exists"@),
    {
        if exists {
            Err(AppError::new(AppErrorType::AlreadyExistsError, "Email already exists", String::new()))
        } else {
            Ok(Email::new(data))
        }
    }
}

} // verus!
