use vstd::prelude::*;

verus! {

/// The base64url alphabet in value order: six bits index one character.
pub open spec fn b64url_alphabet() -> Seq<char> {
    "ABCDEFGHIJKLMNOPQRSTUVWXYZabcdefghijklmnopqrstuvwxyz0123456789-_"@
}

/// The character standing for a six-bit value.
pub open spec fn b64url_char(v: u8) -> char
    recommends
        v < 64,
{
    b64url_alphabet()[v as int]
}

/// The characters that unpadded base64url output is made of.
pub open spec fn is_b64url_char(c: char) -> bool {
    ('A' <= c && c <= 'Z') || ('a' <= c && c <= 'z') || ('0' <= c && c <= '9') || c == '-' || c
        == '_'
}

pub open spec fn all_b64url_chars(s: Seq<char>) -> bool {
    forall|i: int| 0 <= i < s.len() ==> is_b64url_char(#[trigger] s[i])
}

/// Unpadded base64url encoding (RFC 4648 section 5 with padding omitted).
pub open spec fn b64url_nopad(s: Seq<u8>) -> Seq<char>
    decreases s.len(),
{
    if s.len() == 0 {
        Seq::empty()
    } else if s.len() == 1 {
        seq![b64url_char(s[0] >> 2), b64url_char((s[0] & 3) << 4)]
    } else if s.len() == 2 {
        seq![
            b64url_char(s[0] >> 2),
            b64url_char(((s[0] & 3) << 4) | (s[1] >> 4)),
            b64url_char((s[1] & 15) << 2),
        ]
    } else {
        seq![
            b64url_char(s[0] >> 2),
            b64url_char(((s[0] & 3) << 4) | (s[1] >> 4)),
            b64url_char(((s[1] & 15) << 2) | (s[2] >> 6)),
            b64url_char(s[2] & 63),
        ] + b64url_nopad(s.skip(3))
    }
}

/// How many characters the unpadded encoding of `n` bytes has.
pub open spec fn b64url_encoded_len(n: nat) -> nat {
    (n / 3) * 4 + if n % 3 == 0 {
        0nat
    } else if n % 3 == 1 {
        2nat
    } else {
        3nat
    }
}

proof fn lemma_six_bit_values(b0: u8, b1: u8, b2: u8)
    ensures
        b0 >> 2 < 64,
        (b0 & 3) << 4 < 64,
        ((b0 & 3) << 4) | (b1 >> 4) < 64,
        (b1 & 15) << 2 < 64,
        ((b1 & 15) << 2) | (b2 >> 6) < 64,
        b2 & 63 < 64,
{
    assert(b0 >> 2 < 64) by (bit_vector);
    assert((b0 & 3) << 4 < 64) by (bit_vector);
    assert(((b0 & 3) << 4) | (b1 >> 4) < 64) by (bit_vector);
    assert((b1 & 15) << 2 < 64) by (bit_vector);
    assert(((b1 & 15) << 2) | (b2 >> 6) < 64) by (bit_vector);
    assert(b2 & 63 < 64) by (bit_vector);
}

proof fn lemma_b64url_char_in_set(v: u8)
    requires
        v < 64,
    ensures
        is_b64url_char(b64url_char(v)),
        '\0' <= b64url_char(v) <= '\u{7f}',
{
    reveal_strlit("ABCDEFGHIJKLMNOPQRSTUVWXYZabcdefghijklmnopqrstuvwxyz0123456789-_");
}

/// Every character of an unpadded base64url encoding is from the alphabet,
/// so in particular the encoding is ASCII.
pub proof fn lemma_b64url_nopad_charset(s: Seq<u8>)
    ensures
        all_b64url_chars(b64url_nopad(s)),
        vstd::utf8::is_ascii_chars(b64url_nopad(s)),
    decreases s.len(),
{
    if s.len() == 0 {
    } else if s.len() == 1 {
        lemma_six_bit_values(s[0], 0, 0);
        lemma_b64url_char_in_set(s[0] >> 2);
        lemma_b64url_char_in_set((s[0] & 3) << 4);
    } else if s.len() == 2 {
        lemma_six_bit_values(s[0], s[1], 0);
        lemma_b64url_char_in_set(s[0] >> 2);
        lemma_b64url_char_in_set(((s[0] & 3) << 4) | (s[1] >> 4));
        lemma_b64url_char_in_set((s[1] & 15) << 2);
    } else {
        lemma_six_bit_values(s[0], s[1], s[2]);
        lemma_b64url_char_in_set(s[0] >> 2);
        lemma_b64url_char_in_set(((s[0] & 3) << 4) | (s[1] >> 4));
        lemma_b64url_char_in_set(((s[1] & 15) << 2) | (s[2] >> 6));
        lemma_b64url_char_in_set(s[2] & 63);
        lemma_b64url_nopad_charset(s.skip(3));
    }
}

/// Characters of the base64url alphabet are ASCII.
pub proof fn lemma_b64url_chars_ascii(s: Seq<char>)
    requires
        all_b64url_chars(s),
    ensures
        vstd::utf8::is_ascii_chars(s),
{
    assert forall|i: int| 0 <= i < s.len() implies '\0' <= #[trigger] s[i] <= '\u{7f}' by {
        assert(is_b64url_char(s[i]));
    }
}

/// The unpadded encoding of `n` bytes has `b64url_encoded_len(n)` characters:
/// four for every full three-byte group, two or three for a trailing group.
pub proof fn lemma_b64url_nopad_len(s: Seq<u8>)
    ensures
        b64url_nopad(s).len() == b64url_encoded_len(s.len()),
    decreases s.len(),
{
    if s.len() >= 3 {
        lemma_b64url_nopad_len(s.skip(3));
    }
}

/// One character of the alphabet, fetched from the executable table.
fn b64_char_at(v: u8) -> (c: char)
    requires
        v < 64,
    ensures
        c == b64url_char(v),
{
    let alpha: &str = "ABCDEFGHIJKLMNOPQRSTUVWXYZabcdefghijklmnopqrstuvwxyz0123456789-_";
    proof {
        reveal_strlit("ABCDEFGHIJKLMNOPQRSTUVWXYZabcdefghijklmnopqrstuvwxyz0123456789-_");
        assert(alpha@ == b64url_alphabet());
    }
    alpha.get_char(v as usize)
}

/// Unpadded base64url encoding of a byte slice.
pub fn b64url_encode(bytes: &[u8]) -> (r: String)
    ensures
        r@ == b64url_nopad(bytes@),
{
    let n = bytes.len();
    let mut out = String::new();
    let mut i: usize = 0;
    proof {
        assert(bytes@.skip(0) =~= bytes@);
        assert(out@ + b64url_nopad(bytes@) =~= b64url_nopad(bytes@));
    }
    while n - i >= 3
        invariant
            i <= n,
            n == bytes@.len(),
            b64url_nopad(bytes@) == out@ + b64url_nopad(bytes@.skip(i as int)),
        decreases n - i,
    {
        let b0 = bytes[i];
        let b1 = bytes[i + 1];
        let b2 = bytes[i + 2];
        proof {
            lemma_six_bit_values(b0, b1, b2);
        }
        let c0 = b64_char_at(b0 >> 2);
        let c1 = b64_char_at(((b0 & 3) << 4) | (b1 >> 4));
        let c2 = b64_char_at(((b1 & 15) << 2) | (b2 >> 6));
        let c3 = b64_char_at(b2 & 63);
        crate::strutil::push_char(&mut out, c0);
        crate::strutil::push_char(&mut out, c1);
        crate::strutil::push_char(&mut out, c2);
        crate::strutil::push_char(&mut out, c3);
        proof {
            let tail = bytes@.skip(i as int);
            assert(tail.len() >= 3);
            assert(tail.skip(3) =~= bytes@.skip(i + 3));
            assert(b64url_nopad(tail) == seq![
                b64url_char(tail[0] >> 2),
                b64url_char(((tail[0] & 3) << 4) | (tail[1] >> 4)),
                b64url_char(((tail[1] & 15) << 2) | (tail[2] >> 6)),
                b64url_char(tail[2] & 63),
            ] + b64url_nopad(tail.skip(3)));
            assert(out@ + b64url_nopad(bytes@.skip(i + 3)) =~= b64url_nopad(bytes@));
        }
        i = i + 3;
    }
    if n - i == 1 {
        let b0 = bytes[i];
        proof {
            lemma_six_bit_values(b0, 0, 0);
        }
        let c0 = b64_char_at(b0 >> 2);
        let c1 = b64_char_at((b0 & 3) << 4);
        crate::strutil::push_char(&mut out, c0);
        crate::strutil::push_char(&mut out, c1);
        proof {
            let tail = bytes@.skip(i as int);
            assert(tail.len() == 1);
            assert(tail[0] == bytes@[i as int]);
            assert(out@ =~= b64url_nopad(bytes@));
        }
    } else if n - i == 2 {
        let b0 = bytes[i];
        let b1 = bytes[i + 1];
        proof {
            lemma_six_bit_values(b0, b1, 0);
        }
        let c0 = b64_char_at(b0 >> 2);
        let c1 = b64_char_at(((b0 & 3) << 4) | (b1 >> 4));
        let c2 = b64_char_at((b1 & 15) << 2);
        crate::strutil::push_char(&mut out, c0);
        crate::strutil::push_char(&mut out, c1);
        crate::strutil::push_char(&mut out, c2);
        proof {
            let tail = bytes@.skip(i as int);
            assert(tail.len() == 2);
            assert(out@ =~= b64url_nopad(bytes@));
        }
    } else {
        proof {
            let tail = bytes@.skip(i as int);
            assert(tail.len() == 0);
            assert(tail =~= Seq::<u8>::empty());
            assert(out@ =~= b64url_nopad(bytes@));
        }
    }
    out
}

} // verus!
