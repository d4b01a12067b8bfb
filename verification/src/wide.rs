use vstd::prelude::*;

use vstd::string::StrSliceExecFns;
use vstd::utf8::char_is_scalar;

verus! {

/// The UTF-16 code units of one character: one unit below 0x10000,
/// else a surrogate pair built from the scalar value minus 0x10000.
pub open spec fn utf16_units(c: char) -> Seq<u16> {
    if (c as u32) < 0x10000 {
        seq![c as u16]
    } else {
        seq![
            (0xD800 + (((c as u32) - 0x10000) as u32 >> 10)) as u16,
            (0xDC00 + (((c as u32) - 0x10000) as u32 & 0x3FF)) as u16,
        ]
    }
}

/// The UTF-16 encoding of a character sequence.
pub open spec fn utf16_encode(s: Seq<char>) -> Seq<u16>
    decreases s.len(),
{
    if s.len() == 0 {
        Seq::empty()
    } else {
        utf16_units(s[0]) + utf16_encode(s.skip(1))
    }
}

proof fn lemma_utf16_encode_push(s: Seq<char>, c: char)
    ensures
        utf16_encode(s.push(c)) == utf16_encode(s) + utf16_units(c),
    decreases s.len(),
{
    if s.len() == 0 {
        assert(s.push(c)[0] == c);
        assert(s.push(c).skip(1) =~= Seq::<char>::empty());
        assert(utf16_encode(s.push(c)) == utf16_units(c) + utf16_encode(Seq::<char>::empty()));
        assert(utf16_units(c) + utf16_encode(Seq::<char>::empty()) =~= utf16_units(c));
        assert(utf16_encode(s) + utf16_units(c) =~= utf16_units(c));
    } else {
        assert(s.push(c)[0] == s[0]);
        assert(s.push(c).skip(1) =~= s.skip(1).push(c));
        lemma_utf16_encode_push(s.skip(1), c);
        assert(utf16_units(s[0]) + (utf16_encode(s.skip(1)) + utf16_units(c)) =~= (utf16_units(
            s[0],
        ) + utf16_encode(s.skip(1))) + utf16_units(c));
    }
}

/// Encode a string as null-terminated UTF-16, the form every
/// string-taking native dialog call consumes.
pub fn as_null_term_utf16(s: &str) -> (r: Vec<u16>)
    ensures
        r@ == utf16_encode(s@).push(0u16),
{
    let n = s.unicode_len();
    let mut r: Vec<u16> = Vec::new();
    let mut i: usize = 0;
    while i < n
        invariant
            i <= n,
            n == s@.len(),
            r@ == utf16_encode(s@.take(i as int)),
        decreases n - i,
    {
        let c = s.get_char(i);
        proof {
            char_is_scalar(c);
        }
        let u = c as u32;
        if u < 0x10000 {
            r.push(u as u16);
        } else {
            let v: u32 = u - 0x10000;
            proof {
                assert((v >> 10u32) < 0x400 && (v & 0x3FF) < 0x400) by (bit_vector)
                    requires
                        v <= 0xFFFFFu32,
                ;
            }
            let hi: u32 = 0xD800 + (v >> 10);
            let lo: u32 = 0xDC00 + (v & 0x3FF);
            r.push(hi as u16);
            r.push(lo as u16);
        }
        proof {
            assert(s@.take(i + 1) =~= s@.take(i as int).push(s@[i as int]));
            lemma_utf16_encode_push(s@.take(i as int), s@[i as int]);
        }
        i = i + 1;
    }
    proof {
        assert(s@.take(n as int) =~= s@);
    }
    r.push(0);
    r
}

} // verus!
