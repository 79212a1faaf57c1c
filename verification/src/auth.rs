use vstd::prelude::*;

use crate::external::{sha256_digest, sha256_of};
use vstd::string::StringSliceAdditionalSpecFns;

verus! {

/// Lowercase hex character for one value below 16.
pub open spec fn hex_digit(n: u8) -> char {
    if n == 0 {
        '0'
    } else if n == 1 {
        '1'
    } else if n == 2 {
        '2'
    } else if n == 3 {
        '3'
    } else if n == 4 {
        '4'
    } else if n == 5 {
        '5'
    } else if n == 6 {
        '6'
    } else if n == 7 {
        '7'
    } else if n == 8 {
        '8'
    } else if n == 9 {
        '9'
    } else if n == 10 {
        'a'
    } else if n == 11 {
        'b'
    } else if n == 12 {
        'c'
    } else if n == 13 {
        'd'
    } else if n == 14 {
        'e'
    } else {
        'f'
    }
}

/// Lowercase hex rendering of a byte sequence: two characters per byte, high
/// nibble first.
pub open spec fn hex_of(bytes: Seq<u8>) -> Seq<char> {
    Seq::new(
        2 * bytes.len(),
        |i: int|
            if i % 2 == 0 {
                hex_digit((bytes[i / 2] / 16) as u8)
            } else {
                hex_digit((bytes[i / 2] % 16) as u8)
            },
    )
}

/// How a stored credential is derived from a plain password: the lowercase
/// hex of its SHA-256 digest.
pub open spec fn password_hash_of(password_bytes: Seq<u8>) -> Seq<char> {
    hex_of(sha256_of(password_bytes))
}

fn hex_digit_str(n: u8) -> (d: &'static str)
    requires
        n < 16,
    ensures
        d@ == seq![hex_digit(n)],
{
    proof {
        reveal_strlit("0");
        reveal_strlit("1");
        reveal_strlit("2");
        reveal_strlit("3");
        reveal_strlit("4");
        reveal_strlit("5");
        reveal_strlit("6");
        reveal_strlit("7");
        reveal_strlit("8");
        reveal_strlit("9");
        reveal_strlit("a");
        reveal_strlit("b");
        reveal_strlit("c");
        reveal_strlit("d");
        reveal_strlit("e");
        reveal_strlit("f");
    }
    match n {
        0 => "0",
        1 => "1",
        2 => "2",
        3 => "3",
        4 => "4",
        5 => "5",
        6 => "6",
        7 => "7",
        8 => "8",
        9 => "9",
        10 => "a",
        11 => "b",
        12 => "c",
        13 => "d",
        14 => "e",
        _ => "f",
    }
}

/// Renders a byte sequence as lowercase hex, two characters per byte.
pub fn hex_encode(bytes: &Vec<u8>) -> (r: String)
    ensures
        r@ == hex_of(bytes@),
{
    let mut s = String::new();
    let mut i: usize = 0;
    while i < bytes.len()
        invariant
            0 <= i <= bytes@.len(),
            s@ == hex_of(bytes@.take(i as int)),
        decreases bytes@.len() - i,
    {
        let b = bytes[i];
        s.append(hex_digit_str(b / 16));
        s.append(hex_digit_str(b % 16));
        i = i + 1;
        proof {
            assert(s@ =~= hex_of(bytes@.take(i as int)));
        }
    }
    proof {
        assert(bytes@.take(bytes@.len() as int) =~= bytes@);
    }
    s
}

/// Hashes a plain password into its stored form: lowercase hex of the
/// SHA-256 digest.
pub fn password_hash(password: &str) -> (r: String)
    ensures
        r@ == password_hash_of(password.spec_bytes()),
{
    let digest = sha256_digest(password.as_bytes());
    hex_encode(&digest)
}

/// Whether a presented username and plain password match a stored credential
/// row: the username must equal the stored display name or the player id, and
/// the hash of the presented password must equal the stored hash.
pub open spec fn spec_credentials_match(
    user_id: Seq<char>,
    user_name: Option<String>,
    stored_password: Seq<char>,
    given_username: Seq<char>,
    given_password_bytes: Seq<u8>,
) -> bool {
    &&& (match user_name {
        Some(n) => n@ == given_username || user_id == given_username,
        None => user_id == given_username,
    })
    &&& stored_password == password_hash_of(given_password_bytes)
}

/// Decides a login attempt against one stored credential row.
pub fn credentials_match(
    user_id: &String,
    user_name: &Option<String>,
    stored_password: &String,
    given_username: &String,
    given_password: &str,
) -> (r: bool)
    ensures
        r == spec_credentials_match(
            user_id@,
            *user_name,
            stored_password@,
            given_username@,
            given_password.spec_bytes(),
        ),
{
    let name_matches = match user_name {
        Some(n) => *n == *given_username || *user_id == *given_username,
        None => *user_id == *given_username,
    };
    let hash = password_hash(given_password);
    name_matches && *stored_password == hash
}

} // verus!
