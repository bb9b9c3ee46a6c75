//! Password hashing and the login/registration records: passwords are
//! salted with a fixed process-wide salt and hashed with SHA-256; the hash
//! is stored and compared as lowercase hex.

use vstd::prelude::*;
use vstd::string::{StrSliceExecFns, StringExecFns};
use crate::text::{push_char, str_eq};

verus! {

/// The fixed salt appended to every password before hashing.
pub const SALT: &'static str = "xfpgsctjdluhayufpdj8glbvhukrlstjbgdbljrl4p9fjlgdj476grj7hskul47gpj";

/// Credentials a login request carries.
pub struct LoginCredentials {
    pub username: String,
    pub password: String,
}

/// A successful login: the freshly issued session token.
pub struct LoginResponse {
    pub token: String,
}

/// A successful registration: a message and the new user's id.
pub struct RegisterResponse {
    pub message: String,
    pub user_id: i32,
}

/// The SHA-256 digest of the given bytes: a function of the bytes alone.
pub uninterp spec fn sha256_of(data: Seq<u8>) -> Seq<u8>;

/// Relies on `sha2::Sha256` through `Digest::digest`: the SHA-256 digest,
/// always 32 bytes, deterministic in the input bytes.
#[verifier::external_body]
fn sha256(data: &[u8]) -> (r: Vec<u8>)
    ensures
        r@ == sha256_of(data@),
        r@.len() == 32,
{
    <sha2::Sha256 as sha2::Digest>::digest(data).to_vec()
}

/// The lowercase hex digit of a value below sixteen.
pub open spec fn hex_digit(n: int) -> char {
    if n == 0 {
        '0'
    } else if n == 1 {
        '1'
    } else if n == 2 {
        '2'
    } else if n == 3 {
        '3'
    } else if n == 4 {
        '4'
    } else if n == 5 {
        '5'
    } else if n == 6 {
        '6'
    } else if n == 7 {
        '7'
    } else if n == 8 {
        '8'
    } else if n == 9 {
        '9'
    } else if n == 10 {
        'a'
    } else if n == 11 {
        'b'
    } else if n == 12 {
        'c'
    } else if n == 13 {
        'd'
    } else if n == 14 {
        'e'
    } else {
        'f'
    }
}

/// Lowercase hex of a byte string, two digits per byte, leading zeros kept.
pub open spec fn hex_of(bytes: Seq<u8>) -> Seq<char>
    decreases bytes.len(),
{
    if bytes.len() == 0 {
        seq![]
    } else {
        seq![hex_digit(bytes[0] as int / 16), hex_digit(bytes[0] as int % 16)] + hex_of(
            bytes.subrange(1, bytes.len() as int),
        )
    }
}

fn hex_digit_char(n: u8) -> (c: char)
    requires
        n < 16,
    ensures
        c == hex_digit(n as int),
{
    match n {
        0 => '0',
        1 => '1',
        2 => '2',
        3 => '3',
        4 => '4',
        5 => '5',
        6 => '6',
        7 => '7',
        8 => '8',
        9 => '9',
        10 => 'a',
        11 => 'b',
        12 => 'c',
        13 => 'd',
        14 => 'e',
        _ => 'f',
    }
}

/// Encodes bytes as lowercase hex, as `{:x}` formats a digest.
fn hex_encode(bytes: &Vec<u8>) -> (r: String)
    ensures
        r@ == hex_of(bytes@),
{
    let mut r = String::new();
    let n = bytes.len();
    let mut i: usize = 0;
    proof {
        assert(bytes@.subrange(0, bytes@.len() as int) =~= bytes@);
        assert(Seq::<char>::empty() + hex_of(bytes@) =~= hex_of(bytes@));
    }
    while i < n
        invariant
            n == bytes@.len(),
            i <= n,
            hex_of(bytes@) == r@ + hex_of(bytes@.subrange(i as int, n as int)),
        decreases n - i,
    {
        let ghost pre = r@;
        let ghost tail = bytes@.subrange(i as int, n as int);
        proof {
            assert(tail.subrange(1, tail.len() as int) =~= bytes@.subrange(
                i as int + 1,
                n as int,
            ));
            assert(tail[0] == bytes@[i as int]);
        }
        let b = bytes[i];
        push_char(&mut r, hex_digit_char(b / 16));
        push_char(&mut r, hex_digit_char(b % 16));
        i = i + 1;
        proof {
            assert(pre + (seq![
                hex_digit(b as int / 16),
                hex_digit(b as int % 16),
            ] + hex_of(bytes@.subrange(i as int, n as int))) =~= pre.push(
                hex_digit(b as int / 16),
            ).push(hex_digit(b as int % 16)) + hex_of(bytes@.subrange(i as int, n as int)));
        }
    }
    proof {
        assert(bytes@.subrange(i as int, n as int) =~= Seq::<u8>::empty());
        assert(r@ + Seq::<char>::empty() =~= r@);
    }
    r
}

/// The stored form of a password: lowercase hex of the SHA-256 digest of
/// the UTF-8 bytes of the password followed by the fixed salt.
pub open spec fn spec_password_hash(p: Seq<char>) -> Seq<char> {
    hex_of(sha256_of(vstd::utf8::encode_utf8(p + SALT@)))
}

/// Salts and hashes a submitted password into its stored form.
pub fn hash_password(password: &str) -> (h: String)
    ensures
        h@ == spec_password_hash(password@),
{
    let mut salted = password.to_owned();
    salted.append(SALT);
    let digest = sha256(salted.as_str().as_bytes());
    hex_encode(&digest)
}

/// Whether a submitted password matches a stored hash.
pub fn verify_password(password: &str, stored_hash: &str) -> (ok: bool)
    ensures
        ok == (spec_password_hash(password@) == stored_hash@),
{
    let h = hash_password(password);
    str_eq(h.as_str(), stored_hash)
}

} // verus!
