//! Cache keys: the hexadecimal rendering of a stable hash of a call's
//! serialized input.

use std::collections::hash_map::DefaultHasher;
use std::hash::Hasher;
use vstd::prelude::*;
use vstd::std_specs::hash::DefaultHasherAdditionalSpecFns;
use vstd::string::StringExecFns;
use vstd::utf8::encode_utf8;

use crate::error::CacheError;

verus! {

/// The lower-case hexadecimal digit for a value below sixteen.
pub open spec fn hex_digit(d: int) -> char {
    if d == 0 {
        '0'
    } else if d == 1 {
        '1'
    } else if d == 2 {
        '2'
    } else if d == 3 {
        '3'
    } else if d == 4 {
        '4'
    } else if d == 5 {
        '5'
    } else if d == 6 {
        '6'
    } else if d == 7 {
        '7'
    } else if d == 8 {
        '8'
    } else if d == 9 {
        '9'
    } else if d == 10 {
        'a'
    } else if d == 11 {
        'b'
    } else if d == 12 {
        'c'
    } else if d == 13 {
        'd'
    } else if d == 14 {
        'e'
    } else {
        'f'
    }
}

/// A number in lower-case hexadecimal, most significant digit first, with no
/// leading zero and no prefix; zero is the single digit `0`.
pub open spec fn hex_text(n: nat) -> Seq<char>
    decreases n,
{
    if n < 16 {
        seq![hex_digit(n as int)]
    } else {
        hex_text(n / 16).push(hex_digit((n % 16) as int))
    }
}

/// The hash of a serialized input: the default hasher fed the text's UTF-8
/// bytes and then the one byte that ends a string.
pub open spec fn input_hash(text: Seq<char>) -> u64 {
    DefaultHasher::spec_finish(seq![encode_utf8(text), seq![0xffu8]])
}

/// The cache key of a serialized input.
pub open spec fn cache_key_of(text: Seq<char>) -> Seq<char> {
    hex_text(input_hash(text) as nat)
}

fn digit_str(d: u64) -> (s: &'static str)
    requires
        d < 16,
    ensures
        s@ == seq![hex_digit(d as int)],
{
    proof {
        reveal_strlit("0");
        reveal_strlit("1");
        reveal_strlit("2");
        reveal_strlit("3");
        reveal_strlit("4");
        reveal_strlit("5");
        reveal_strlit("6");
        reveal_strlit("7");
        reveal_strlit("8");
        reveal_strlit("9");
        reveal_strlit("a");
        reveal_strlit("b");
        reveal_strlit("c");
        reveal_strlit("d");
        reveal_strlit("e");
        reveal_strlit("f");
    }
    let s = if d == 0 {
        "0"
    } else if d == 1 {
        "1"
    } else if d == 2 {
        "2"
    } else if d == 3 {
        "3"
    } else if d == 4 {
        "4"
    } else if d == 5 {
        "5"
    } else if d == 6 {
        "6"
    } else if d == 7 {
        "7"
    } else if d == 8 {
        "8"
    } else if d == 9 {
        "9"
    } else if d == 10 {
        "a"
    } else if d == 11 {
        "b"
    } else if d == 12 {
        "c"
    } else if d == 13 {
        "d"
    } else if d == 14 {
        "e"
    } else {
        "f"
    };
    assert(s@ =~= seq![hex_digit(d as int)]);
    s
}

fn push_hex(out: &mut String, n: u64)
    ensures
        final(out)@ == old(out)@ + hex_text(n as nat),
    decreases n,
{
    if n >= 16 {
        push_hex(out, n / 16);
    }
    out.append(digit_str(n % 16));
    assert(final(out)@ =~= old(out)@ + hex_text(n as nat));
}

/// Renders a number in lower-case hexadecimal.
pub fn to_hex(n: u64) -> (text: String)
    ensures
        text@ == hex_text(n as nat),
{
    let mut text = String::new();
    push_hex(&mut text, n);
    assert(text@ =~= hex_text(n as nat));
    text
}

/// Hashes a serialized input with the default hasher, as hashing the string
/// itself does: its bytes, then the byte `0xff`.
pub fn hash_input(text: &str) -> (h: u64)
    ensures
        h == input_hash(text@),
{
    let mut hasher = DefaultHasher::new();
    hasher.write(text.as_bytes());
    let end: [u8; 1] = [0xffu8];
    hasher.write(end.as_slice());
    assert(end@ =~= seq![0xffu8]);
    assert(hasher@ =~= seq![encode_utf8(text@), seq![0xffu8]]);
    hasher.finish()
}

/// Derives the cache key of a serialized input.
pub fn cache_key(text: &str) -> (key: String)
    ensures
        key@ == cache_key_of(text@),
{
    to_hex(hash_input(text))
}

/// Derives the cache key from the outcome of serializing a call's input: the
/// key of the text, or the serializer's error as a serialization error.
pub fn derive_key(serialized: Result<String, serde_json::Error>) -> (r: Result<String, CacheError>)
    ensures
        match serialized {
            Ok(text) => r matches Ok(key) && key@ == cache_key_of(text@),
            Err(e) => r matches Err(CacheError::Serialization(f)) && f == e,
        },
{
    match serialized {
        Ok(text) => Ok(cache_key(text.as_str())),
        Err(e) => Err(CacheError::from(e)),
    }
}

/// Every rendering has a digit, and a number of sixteen or more has two.
pub proof fn lemma_hex_text_len(n: nat)
    ensures
        hex_text(n).len() >= 1,
        n >= 16 ==> hex_text(n).len() >= 2,
    decreases n,
{
    if n >= 16 {
        lemma_hex_text_len(n / 16);
    }
}

/// Every character of a rendering is a digit `0` to `9` or a letter `a` to
/// `f`.
pub proof fn lemma_hex_text_digits(n: nat, i: int)
    requires
        0 <= i < hex_text(n).len(),
    ensures
        ('0' <= hex_text(n)[i] <= '9') || ('a' <= hex_text(n)[i] <= 'f'),
    decreases n,
{
    if n >= 16 && i < hex_text(n / 16).len() {
        lemma_hex_text_digits(n / 16, i);
    }
}

/// The rendering has no leading zero: it starts with `0` only for zero.
pub proof fn lemma_hex_text_no_leading_zero(n: nat)
    ensures
        hex_text(n)[0] == '0' <==> n == 0,
    decreases n,
{
    if n >= 16 {
        lemma_hex_text_len(n / 16);
        lemma_hex_text_no_leading_zero(n / 16);
    }
}

/// Two numbers with the same rendering are the same number.
pub proof fn lemma_hex_text_injective(a: nat, b: nat)
    requires
        hex_text(a) == hex_text(b),
    ensures
        a == b,
    decreases a,
{
    lemma_hex_text_len(a);
    lemma_hex_text_len(b);
    if a < 16 && b < 16 {
        assert(hex_text(a)[0] == hex_digit(a as int));
        assert(hex_text(b)[0] == hex_digit(b as int));
    } else if a >= 16 && b >= 16 {
        let front_a = hex_text(a / 16);
        let front_b = hex_text(b / 16);
        let last_a = hex_digit((a % 16) as int);
        let last_b = hex_digit((b % 16) as int);
        assert(front_a.push(last_a).drop_last() =~= front_a);
        assert(front_b.push(last_b).drop_last() =~= front_b);
        assert(front_a.push(last_a).last() == last_a);
        assert(front_b.push(last_b).last() == last_b);
        lemma_hex_text_injective(a / 16, b / 16);
    }
}

/// Inputs with the same serialized form have the same key.
pub proof fn lemma_equal_inputs_equal_keys(a: Seq<char>, b: Seq<char>)
    requires
        a =~= b,
    ensures
        cache_key_of(a) == cache_key_of(b),
{
}

/// Two inputs share a key exactly when they share a hash: rendering the hash
/// loses nothing, so keys collide only where the hash does.
pub proof fn lemma_keys_collide_only_with_hashes(a: Seq<char>, b: Seq<char>)
    ensures
        cache_key_of(a) == cache_key_of(b) <==> input_hash(a) == input_hash(b),
{
    if cache_key_of(a) == cache_key_of(b) {
        lemma_hex_text_injective(input_hash(a) as nat, input_hash(b) as nat);
    }
}

} // verus!
