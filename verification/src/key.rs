//! Derivation of the cache key: a deterministic 64-bit hash over the ordered
//! command tokens, rendered as a 16-digit lowercase hexadecimal string.
//!
//! Each token is folded into the hash as its character count followed by its
//! characters, so the key is sensitive both to token order and to token
//! boundaries: `["echo", "a b"]` and `["echo", "a", "b"]` hash differently.
//! Collisions are an accepted limitation; they are neither detected nor
//! handled.

use vstd::prelude::*;

verus! {

/// Offset basis of the 64-bit FNV-1a hash.
pub const FNV_OFFSET: u64 = 0xcbf29ce484222325;

/// Prime of the 64-bit FNV-1a hash.
pub const FNV_PRIME: u64 = 0x100000001b3;

/// One FNV-1a step: fold one value into the running hash.
pub open spec fn fnv_mix(h: u64, x: u64) -> u64 {
    ((((h ^ x) as int) * (FNV_PRIME as int)) % 0x10000000000000000) as u64
}

/// Fold the characters of one token into the running hash, in order.
pub open spec fn hash_chars(h: u64, t: Seq<char>) -> u64
    decreases t.len(),
{
    if t.len() == 0 {
        h
    } else {
        fnv_mix(hash_chars(h, t.drop_last()), t.last() as u64)
    }
}

/// Fold one token into the running hash: its character count first, then
/// its characters.
pub open spec fn hash_token(h: u64, t: Seq<char>) -> u64 {
    hash_chars(fnv_mix(h, t.len() as u64), t)
}

/// Fold a sequence of tokens into the running hash, in order.
pub open spec fn hash_tokens(h: u64, toks: Seq<Seq<char>>) -> u64
    decreases toks.len(),
{
    if toks.len() == 0 {
        h
    } else {
        hash_token(hash_tokens(h, toks.drop_last()), toks.last())
    }
}

/// The 64-bit hash of a token sequence.
pub open spec fn key_hash(toks: Seq<Seq<char>>) -> u64 {
    hash_tokens(FNV_OFFSET, toks)
}

/// The hexadecimal digit for a value below sixteen, in lower case.
pub open spec fn hex_digit_char(d: nat) -> char {
    if d == 0 {
        '0'
    } else if d == 1 {
        '1'
    } else if d == 2 {
        '2'
    } else if d == 3 {
        '3'
    } else if d == 4 {
        '4'
    } else if d == 5 {
        '5'
    } else if d == 6 {
        '6'
    } else if d == 7 {
        '7'
    } else if d == 8 {
        '8'
    } else if d == 9 {
        '9'
    } else if d == 10 {
        'a'
    } else if d == 11 {
        'b'
    } else if d == 12 {
        'c'
    } else if d == 13 {
        'd'
    } else if d == 14 {
        'e'
    } else {
        'f'
    }
}

/// The low `c` hexadecimal digits of `m`, most significant first.
pub open spec fn hex_digits(m: nat, c: nat) -> Seq<char>
    decreases c,
{
    if c == 0 {
        Seq::empty()
    } else {
        hex_digits(m / 16, (c - 1) as nat) + seq![hex_digit_char(m % 16)]
    }
}

/// A character is a lowercase hexadecimal digit.
pub open spec fn is_hex_char(c: char) -> bool {
    (48 <= c as int && c as int <= 57) || (97 <= c as int && c as int <= 102)
}

/// The cache key of a token sequence: its hash, as 16 hexadecimal digits.
pub open spec fn key_of(toks: Seq<Seq<char>>) -> Seq<char> {
    hex_digits(key_hash(toks) as nat, 16)
}

/// A rendered digit sequence has exactly the requested width, and every
/// character of it is a lowercase hexadecimal digit.
pub proof fn lemma_hex_digits_shape(m: nat, c: nat)
    ensures
        hex_digits(m, c).len() == c,
        forall|i: int| 0 <= i < c ==> is_hex_char(#[trigger] hex_digits(m, c)[i]),
    decreases c,
{
    if c > 0 {
        lemma_hex_digits_shape(m / 16, (c - 1) as nat);
    }
}

/// Law: the cache key is a pure function of the token sequence alone, so
/// identical token sequences derive identical keys across runs.
pub proof fn lemma_key_deterministic(a: Seq<Seq<char>>, b: Seq<Seq<char>>)
    requires
        a == b,
    ensures
        key_of(a) == key_of(b),
{
}

/// One FNV-1a step, executed.
fn mix(h: u64, x: u64) -> (r: u64)
    ensures
        r == fnv_mix(h, x),
{
    assert(((h ^ x) as int) * (FNV_PRIME as int) <= (u64::MAX as int) * (FNV_PRIME as int))
        by (nonlinear_arith)
        requires
            (h ^ x) <= u64::MAX,
    ;
    let wide: u128 = ((h ^ x) as u128) * (FNV_PRIME as u128);
    (wide % 0x10000000000000000u128) as u64
}

/// A one-character string holding the hexadecimal digit for `d`.
fn hex_char_str(d: u64) -> (r: &'static str)
    requires
        d < 16,
    ensures
        r@ =~= seq![hex_digit_char(d as nat)],
{
    if d == 0 {
        proof {
            reveal_strlit("0");
        }
        "0"
    } else if d == 1 {
        proof {
            reveal_strlit("1");
        }
        "1"
    } else if d == 2 {
        proof {
            reveal_strlit("2");
        }
        "2"
    } else if d == 3 {
        proof {
            reveal_strlit("3");
        }
        "3"
    } else if d == 4 {
        proof {
            reveal_strlit("4");
        }
        "4"
    } else if d == 5 {
        proof {
            reveal_strlit("5");
        }
        "5"
    } else if d == 6 {
        proof {
            reveal_strlit("6");
        }
        "6"
    } else if d == 7 {
        proof {
            reveal_strlit("7");
        }
        "7"
    } else if d == 8 {
        proof {
            reveal_strlit("8");
        }
        "8"
    } else if d == 9 {
        proof {
            reveal_strlit("9");
        }
        "9"
    } else if d == 10 {
        proof {
            reveal_strlit("a");
        }
        "a"
    } else if d == 11 {
        proof {
            reveal_strlit("b");
        }
        "b"
    } else if d == 12 {
        proof {
            reveal_strlit("c");
        }
        "c"
    } else if d == 13 {
        proof {
            reveal_strlit("d");
        }
        "d"
    } else if d == 14 {
        proof {
            reveal_strlit("e");
        }
        "e"
    } else {
        proof {
            reveal_strlit("f");
        }
        "f"
    }
}

/// Render the low `c` hexadecimal digits of `m`, most significant first.
fn hex_string(m: u64, c: usize) -> (r: String)
    ensures
        r@ == hex_digits(m as nat, c as nat),
    decreases c,
{
    if c == 0 {
        String::new()
    } else {
        let mut s = hex_string(m / 16, c - 1);
        s.append(hex_char_str(m % 16));
        s
    }
}

/// Fold one token into the running hash, executed.
fn hash_str(h: u64, t: &str) -> (r: u64)
    ensures
        r == hash_token(h, t@),
{
    let len = t.unicode_len();
    let mut cur = mix(h, len as u64);
    let mut i: usize = 0;
    while i < len
        invariant
            len == t@.len(),
            i <= len,
            cur == hash_chars(fnv_mix(h, t@.len() as u64), t@.subrange(0, i as int)),
        decreases len - i,
    {
        let c = t.get_char(i);
        cur = mix(cur, c as u64);
        proof {
            let p = t@.subrange(0, i + 1);
            assert(p.drop_last() =~= t@.subrange(0, i as int));
        }
        i = i + 1;
    }
    proof {
        assert(t@.subrange(0, len as int) =~= t@);
    }
    cur
}

/// Derive the cache key for a command's token sequence: a deterministic,
/// order- and boundary-sensitive hash of the tokens, rendered as exactly
/// 16 lowercase hexadecimal digits.
pub fn cache_key(tokens: &Vec<String>) -> (r: String)
    ensures
        r@ == key_of(tokens.deep_view()),
        r@.len() == 16,
        forall|i: int| 0 <= i < r@.len() ==> is_hex_char(#[trigger] r@[i]),
{
    let ghost toks = tokens.deep_view();
    let mut h: u64 = FNV_OFFSET;
    let mut i: usize = 0;
    while i < tokens.len()
        invariant
            toks == tokens.deep_view(),
            toks.len() == tokens.len(),
            i <= tokens.len(),
            h == hash_tokens(FNV_OFFSET, toks.subrange(0, i as int)),
        decreases tokens.len() - i,
    {
        proof {
            assert(toks[i as int] == tokens@[i as int]@);
        }
        h = hash_str(h, tokens[i].as_str());
        proof {
            let p = toks.subrange(0, i + 1);
            assert(p.drop_last() =~= toks.subrange(0, i as int));
            assert(p.last() == toks[i as int]);
        }
        i = i + 1;
    }
    proof {
        assert(toks.subrange(0, tokens.len() as int) =~= toks);
        lemma_hex_digits_shape(key_hash(toks) as nat, 16);
    }
    hex_string(h, 16)
}

} // verus!
