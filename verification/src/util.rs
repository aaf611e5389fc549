//! Secrets and time: random tokens in hexadecimal, and the clock.

use std::time::{SystemTime, UNIX_EPOCH};
use vstd::prelude::*;
use vstd::string::*;

verus! {

#[verifier::external_type_specification]
#[verifier::external_body]
pub struct ExRandomError(getrandom::Error);

/// The hexadecimal digit of `d`, in lower case.
pub open spec fn hex_digit(d: int) -> char {
    if d == 0 {
        '0'
    } else if d == 1 {
        '1'
    } else if d == 2 {
        '2'
    } else if d == 3 {
        '3'
    } else if d == 4 {
        '4'
    } else if d == 5 {
        '5'
    } else if d == 6 {
        '6'
    } else if d == 7 {
        '7'
    } else if d == 8 {
        '8'
    } else if d == 9 {
        '9'
    } else if d == 10 {
        'a'
    } else if d == 11 {
        'b'
    } else if d == 12 {
        'c'
    } else if d == 13 {
        'd'
    } else if d == 14 {
        'e'
    } else {
        'f'
    }
}

/// `bytes` in hexadecimal: two digits for each byte, the high half first.
pub open spec fn hex_of(bytes: Seq<u8>) -> Seq<char> {
    Seq::new(
        2 * bytes.len(),
        |i: int| if i % 2 == 0 { hex_digit(bytes[i / 2] as int / 16) } else { hex_digit(bytes[i / 2] as int % 16) },
    )
}

/// Whether `token` is the hexadecimal text of some `count` bytes.
pub open spec fn is_token(token: Seq<char>, count: nat) -> bool {
    exists|bytes: Seq<u8>| bytes.len() == count && token == #[trigger] hex_of(bytes)
}

/// `getrandom::getrandom` on a fresh buffer of `count` bytes. On success the
/// buffer is returned, and it has that length. An empty buffer always succeeds:
/// the crate returns at once, without asking the system. Nothing is claimed of
/// the bytes, and nothing of when the system's random source fails.
#[verifier::external_body]
pub(crate) fn random_bytes(count: usize) -> (r: Result<Vec<u8>, getrandom::Error>)
    ensures
        r matches Ok(bytes) ==> bytes@.len() == count,
        count == 0 ==> r is Ok,
{
    let mut bytes = vec![0u8; count];
    getrandom::getrandom(&mut bytes).map(|_| bytes)
}

/// `std::time::SystemTime::now`, in whole seconds since the Unix epoch (0 where
/// the clock stands before it). Nothing is claimed of the value.
#[verifier::external_body]
pub(crate) fn now() -> u64 {
    SystemTime::now().duration_since(UNIX_EPOCH).map(|d| d.as_secs()).unwrap_or(0)
}

/// The text of one hexadecimal digit.
fn digit_text(d: u8) -> (r: &'static str)
    requires
        d < 16,
    ensures
        r@ == seq![hex_digit(d as int)],
{
    proof {
        reveal_strlit("0");
        reveal_strlit("1");
        reveal_strlit("2");
        reveal_strlit("3");
        reveal_strlit("4");
        reveal_strlit("5");
        reveal_strlit("6");
        reveal_strlit("7");
        reveal_strlit("8");
        reveal_strlit("9");
        reveal_strlit("a");
        reveal_strlit("b");
        reveal_strlit("c");
        reveal_strlit("d");
        reveal_strlit("e");
        reveal_strlit("f");
    }
    let r = if d == 0 {
        "0"
    } else if d == 1 {
        "1"
    } else if d == 2 {
        "2"
    } else if d == 3 {
        "3"
    } else if d == 4 {
        "4"
    } else if d == 5 {
        "5"
    } else if d == 6 {
        "6"
    } else if d == 7 {
        "7"
    } else if d == 8 {
        "8"
    } else if d == 9 {
        "9"
    } else if d == 10 {
        "a"
    } else if d == 11 {
        "b"
    } else if d == 12 {
        "c"
    } else if d == 13 {
        "d"
    } else if d == 14 {
        "e"
    } else {
        "f"
    };
    assert(r@ =~= seq![hex_digit(d as int)]);
    r
}

/// `bytes` written in hexadecimal.
pub fn hex_text(bytes: &Vec<u8>) -> (r: String)
    ensures
        r@ == hex_of(bytes@),
{
    let mut out = String::new();
    let mut i: usize = 0;
    while i < bytes.len()
        invariant
            i <= bytes.len(),
            out@ == hex_of(bytes@.take(i as int)),
        decreases bytes.len() - i,
    {
        let b: u8 = bytes[i];
        let ghost before = out@;
        out.append(digit_text(b / 16));
        out.append(digit_text(b % 16));
        proof {
            let next = bytes@.take(i + 1);
            assert(out@ == before + seq![hex_digit(b as int / 16)] + seq![hex_digit(b as int % 16)]);
            assert forall|k: int| 0 <= k < 2 * (i + 1) implies out@[k] == hex_of(next)[k] by {
                if k < 2 * i {
                    assert(before[k] == hex_of(bytes@.take(i as int))[k]);
                    assert(bytes@.take(i as int)[k / 2] == next[k / 2]);
                }
            }
            assert(out@ =~= hex_of(next));
        }
        i += 1;
    }
    assert(bytes@.take(i as int) =~= bytes@);
    out
}

/// The secret that a draw from the random source stands for: its bytes in
/// hexadecimal, and none where the draw failed.
pub fn verifier_from(drawn: Result<Vec<u8>, getrandom::Error>) -> (r: Option<String>)
    ensures
        match drawn {
            Ok(bytes) => r matches Some(token) && token@ == hex_of(bytes@),
            Err(_) => r is None,
        },
{
    match drawn {
        Ok(bytes) => Some(hex_text(&bytes)),
        Err(_) => None,
    }
}

/// A fresh random secret: `num_bytes` bytes from the system's random source,
/// written in hexadecimal. `None` where the source fails, which it cannot
/// where no byte is asked for: the secret of no bytes is the empty text.
pub fn new_random_verifier(num_bytes: u32) -> (r: Option<String>)
    ensures
        r matches Some(token) ==> is_token(token@, num_bytes as nat),
        num_bytes == 0 ==> (r matches Some(token) && token@ == Seq::<char>::empty()),
{
    let r = verifier_from(random_bytes(num_bytes as usize));
    proof {
        if num_bytes == 0 {
            assert(r->0@ =~= Seq::<char>::empty());
        }
    }
    r
}

/// Different hexadecimal digits stand for different values.
pub proof fn lemma_hex_digit_injective(a: int, b: int)
    requires
        0 <= a < 16,
        0 <= b < 16,
        hex_digit(a) == hex_digit(b),
    ensures
        a == b,
{
}

/// Different bytes have different hexadecimal texts.
pub proof fn lemma_hex_injective(a: Seq<u8>, b: Seq<u8>)
    requires
        hex_of(a) == hex_of(b),
    ensures
        a == b,
{
    assert(hex_of(a).len() == 2 * a.len());
    assert(hex_of(b).len() == 2 * b.len());
    assert forall|i: int| 0 <= i < a.len() implies a[i] == b[i] by {
        let x = a[i] as int;
        let y = b[i] as int;
        assert(hex_of(a)[2 * i] == hex_digit(x / 16));
        assert(hex_of(b)[2 * i] == hex_digit(y / 16));
        assert(hex_of(a)[2 * i + 1] == hex_digit(x % 16));
        assert(hex_of(b)[2 * i + 1] == hex_digit(y % 16));
        lemma_hex_digit_injective(x / 16, y / 16);
        lemma_hex_digit_injective(x % 16, y % 16);
    }
    assert(a =~= b);
}

/// A hexadecimal text holds digits and lower-case letters up to `f` only.
pub proof fn lemma_hex_chars(bytes: Seq<u8>, i: int)
    requires
        0 <= i < 2 * bytes.len(),
    ensures
        ('0' <= hex_of(bytes)[i] && hex_of(bytes)[i] <= '9') || ('a' <= hex_of(bytes)[i] && hex_of(
            bytes,
        )[i] <= 'f'),
{
}

} // verus!
