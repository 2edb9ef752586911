//! Credential codec: deterministic password hashing and verification.
//!
//! A digest is a pure function of the password text, so the same password
//! always yields the same digest and verification is exactly a digest
//! comparison. The digest is a 64-bit fold over the password's characters,
//! printed as a fixed prefix plus sixteen hex digits.

use vstd::prelude::*;
use crate::strutil::str_eq;

verus! {

pub const DIGEST_SEED: u64 = 0xcbf2_9ce4_8422_2325;
pub const DIGEST_PRIME: u64 = 0x0000_0100_0000_01b3;

/// 64-bit fold over the characters of `s`: xor each character in, then
/// multiply (wrapping) by a fixed odd prime.
pub open spec fn digest64(s: Seq<char>) -> u64
    decreases s.len(),
{
    if s.len() == 0 {
        DIGEST_SEED
    } else {
        vstd::wrapping::u64_specs::wrapping_mul(
            digest64(s.drop_last()) ^ (s.last() as u64),
            DIGEST_PRIME,
        )
    }
}

pub open spec fn hex_digit(n: u64) -> char {
    if n == 0 {
        '0'
    } else if n == 1 {
        '1'
    } else if n == 2 {
        '2'
    } else if n == 3 {
        '3'
    } else if n == 4 {
        '4'
    } else if n == 5 {
        '5'
    } else if n == 6 {
        '6'
    } else if n == 7 {
        '7'
    } else if n == 8 {
        '8'
    } else if n == 9 {
        '9'
    } else if n == 10 {
        'a'
    } else if n == 11 {
        'b'
    } else if n == 12 {
        'c'
    } else if n == 13 {
        'd'
    } else if n == 14 {
        'e'
    } else {
        'f'
    }
}

/// The `i`-th nibble of `d`, most significant first.
pub open spec fn nibble(d: u64, i: int) -> u64 {
    (d >> ((60 - 4 * i) as u64)) & 0xf
}

pub open spec fn hex16(d: u64) -> Seq<char> {
    Seq::new(16, |i: int| hex_digit(nibble(d, i)))
}

/// The digest string of a password: a fixed prefix followed by the sixteen
/// hex digits of the 64-bit fold.
pub open spec fn digest_of(s: Seq<char>) -> Seq<char> {
    seq!['h', 'a', 's', 'h', '_'] + hex16(digest64(s))
}

fn hex_char(n: u64) -> (r: &'static str)
    requires
        n < 16,
    ensures
        r@ =~= seq![hex_digit(n)],
{
    if n == 0 {
        proof {
            reveal_strlit("0");
        }
        "0"
    } else if n == 1 {
        proof {
            reveal_strlit("1");
        }
        "1"
    } else if n == 2 {
        proof {
            reveal_strlit("2");
        }
        "2"
    } else if n == 3 {
        proof {
            reveal_strlit("3");
        }
        "3"
    } else if n == 4 {
        proof {
            reveal_strlit("4");
        }
        "4"
    } else if n == 5 {
        proof {
            reveal_strlit("5");
        }
        "5"
    } else if n == 6 {
        proof {
            reveal_strlit("6");
        }
        "6"
    } else if n == 7 {
        proof {
            reveal_strlit("7");
        }
        "7"
    } else if n == 8 {
        proof {
            reveal_strlit("8");
        }
        "8"
    } else if n == 9 {
        proof {
            reveal_strlit("9");
        }
        "9"
    } else if n == 10 {
        proof {
            reveal_strlit("a");
        }
        "a"
    } else if n == 11 {
        proof {
            reveal_strlit("b");
        }
        "b"
    } else if n == 12 {
        proof {
            reveal_strlit("c");
        }
        "c"
    } else if n == 13 {
        proof {
            reveal_strlit("d");
        }
        "d"
    } else if n == 14 {
        proof {
            reveal_strlit("e");
        }
        "e"
    } else {
        proof {
            reveal_strlit("f");
        }
        "f"
    }
}

/// Hash a password. Total over all strings, including the empty one, and
/// deterministic: the result is exactly `digest_of` of the password's
/// characters.
pub fn hash_password(password: &str) -> (r: String)
    ensures
        r@ == digest_of(password@),
{
    let len = password.unicode_len();
    let mut h: u64 = DIGEST_SEED;
    let mut i: usize = 0;
    while i < len
        invariant
            i <= len,
            len == password@.len(),
            h == digest64(password@.subrange(0, i as int)),
        decreases len - i,
    {
        let c = password.get_char(i);
        proof {
            assert(password@.subrange(0, (i + 1) as int).drop_last() =~= password@.subrange(
                0,
                i as int,
            ));
            assert(password@.subrange(0, (i + 1) as int).last() == password@[i as int]);
        }
        h = (h ^ (c as u64)).wrapping_mul(DIGEST_PRIME);
        i += 1;
    }
    proof {
        assert(password@.subrange(0, len as int) =~= password@);
    }
    let mut out = String::from_str("hash_");
    proof {
        reveal_strlit("hash_");
        assert(out@ =~= seq!['h', 'a', 's', 'h', '_'] + hex16(h).subrange(0, 0));
    }
    let mut j: usize = 0;
    while j < 16
        invariant
            j <= 16,
            h == digest64(password@),
            out@ == seq!['h', 'a', 's', 'h', '_'] + hex16(h).subrange(0, j as int),
        decreases 16 - j,
    {
        let sh: u64 = 60 - 4 * (j as u64);
        let n: u64 = (h >> sh) & 0xf;
        assert((h >> sh) & 0xf < 16) by (bit_vector);
        assert(n == nibble(h, j as int));
        let digit = hex_char(n);
        out.append(digit);
        proof {
            assert(hex16(h).subrange(0, (j + 1) as int) =~= hex16(h).subrange(0, j as int).push(
                hex_digit(nibble(h, j as int)),
            ));
            assert(out@ =~= seq!['h', 'a', 's', 'h', '_'] + hex16(h).subrange(0, (j + 1) as int));
        }
        j += 1;
    }
    proof {
        assert(hex16(h).subrange(0, 16) =~= hex16(h));
        assert(out@ =~= digest_of(password@));
    }
    out
}

/// Verify a password against a stored digest. True exactly when hashing the
/// password yields that digest.
pub fn verify_password(password: &str, hash: &str) -> (r: bool)
    ensures
        r == (digest_of(password@) == hash@),
{
    let hashed = hash_password(password);
    str_eq(hashed.as_str(), hash)
}

/// A password always verifies against its own hash: whatever `hash_password`
/// returned for `p`, `verify_password` on `p` and that digest answers true.
pub proof fn lemma_verify_of_hash(p: Seq<char>, h: Seq<char>, r: bool)
    requires
        h == digest_of(p),
        r == (digest_of(p) == h),
    ensures
        r,
{
}

} // verus!
