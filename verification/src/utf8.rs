//! Well-formed UTF-8, as the byte-level validity predicate the bridge uses to
//! decide whether a foreign buffer may become an argument or a query string.

use vstd::prelude::*;

verus! {

/// Number of bytes spanned by a well-formed scalar encoding that begins with
/// byte `b`, or 0 if no well-formed encoding begins with `b`.
pub open spec fn encoded_len(b: u8) -> int {
    if b < 0x80 {
        1
    } else if b < 0xC2 {
        0
    } else if b < 0xE0 {
        2
    } else if b < 0xF0 {
        3
    } else if b < 0xF5 {
        4
    } else {
        0
    }
}

/// A continuation byte: `0x80 ..= 0xBF`.
pub open spec fn is_continuation(b: u8) -> bool {
    0x80 <= b && b <= 0xBF
}

/// Constraint on the second byte of a multi-byte encoding.  The narrowed
/// ranges rule out overlong forms (after `0xE0` and `0xF0`), surrogate code
/// points (after `0xED`) and values beyond the last code point (after `0xF4`).
pub open spec fn second_byte_ok(b0: u8, b1: u8) -> bool {
    if b0 == 0xE0 {
        0xA0 <= b1 && b1 <= 0xBF
    } else if b0 == 0xED {
        0x80 <= b1 && b1 <= 0x9F
    } else if b0 == 0xF0 {
        0x90 <= b1 && b1 <= 0xBF
    } else if b0 == 0xF4 {
        0x80 <= b1 && b1 <= 0x8F
    } else {
        is_continuation(b1)
    }
}

/// The sequence starts with one whole well-formed scalar encoding.
pub open spec fn head_ok(s: Seq<u8>) -> bool {
    let n = encoded_len(s[0]);
    &&& 1 <= n
    &&& n <= s.len()
    &&& (n >= 2 ==> second_byte_ok(s[0], s[1]))
    &&& (n >= 3 ==> is_continuation(s[2]))
    &&& (n >= 4 ==> is_continuation(s[3]))
}

/// Well-formed UTF-8: a concatenation of well-formed scalar encodings.
pub open spec fn is_utf8(s: Seq<u8>) -> bool
    decreases s.len(),
{
    if s.len() == 0 {
        true
    } else {
        head_ok(s) && is_utf8(s.skip(encoded_len(s[0])))
    }
}

/// Every sequence of plain ASCII bytes is well-formed UTF-8.
pub proof fn lemma_ascii_is_utf8(s: Seq<u8>)
    requires
        forall|i: int| 0 <= i < s.len() ==> s[i] < 0x80,
    ensures
        is_utf8(s),
    decreases s.len(),
{
    if s.len() > 0 {
        assert(head_ok(s));
        lemma_ascii_is_utf8(s.skip(1));
    }
}

/// Decides well-formedness of a whole byte buffer.
pub fn check_utf8(v: &Vec<u8>) -> (r: bool)
    ensures
        r == is_utf8(v@),
{
    let n = v.len();
    let mut i: usize = 0;
    proof {
        assert(v@.skip(0) =~= v@);
    }
    while i < n
        invariant
            i <= n,
            n == v@.len(),
            is_utf8(v@) == is_utf8(v@.skip(i as int)),
        decreases n - i,
    {
        let b0 = v[i];
        let w: usize = if b0 < 0x80 {
            1
        } else if b0 < 0xC2 {
            0
        } else if b0 < 0xE0 {
            2
        } else if b0 < 0xF0 {
            3
        } else if b0 < 0xF5 {
            4
        } else {
            0
        };
        assert(w as int == encoded_len(v@.skip(i as int)[0]));
        if w == 0 || n - i < w {
            assert(!head_ok(v@.skip(i as int)));
            return false;
        }
        if w >= 2 {
            let b1 = v[i + 1];
            let ok = if b0 == 0xE0 {
                0xA0 <= b1 && b1 <= 0xBF
            } else if b0 == 0xED {
                0x80 <= b1 && b1 <= 0x9F
            } else if b0 == 0xF0 {
                0x90 <= b1 && b1 <= 0xBF
            } else if b0 == 0xF4 {
                0x80 <= b1 && b1 <= 0x8F
            } else {
                0x80 <= b1 && b1 <= 0xBF
            };
            if !ok {
                assert(!second_byte_ok(v@.skip(i as int)[0], v@.skip(i as int)[1]));
                return false;
            }
        }
        if w >= 3 {
            let b2 = v[i + 2];
            if !(0x80 <= b2 && b2 <= 0xBF) {
                assert(!is_continuation(v@.skip(i as int)[2]));
                return false;
            }
        }
        if w >= 4 {
            let b3 = v[i + 3];
            if !(0x80 <= b3 && b3 <= 0xBF) {
                assert(!is_continuation(v@.skip(i as int)[3]));
                return false;
            }
        }
        proof {
            assert(head_ok(v@.skip(i as int)));
            assert(v@.skip(i as int).skip(w as int) =~= v@.skip(i as int + w as int));
        }
        i = i + w;
    }
    proof {
        assert(v@.skip(n as int) =~= Seq::<u8>::empty());
    }
    true
}

/// Copies a byte buffer, so that a borrowed buffer can be handed on as an
/// owned value while the caller keeps its own.
pub fn copy_bytes(v: &Vec<u8>) -> (r: Vec<u8>)
    ensures
        r@ == v@,
{
    let n = v.len();
    let mut out: Vec<u8> = Vec::new();
    let mut i: usize = 0;
    while i < n
        invariant
            i <= n,
            n == v@.len(),
            out@ == v@.take(i as int),
        decreases n - i,
    {
        out.push(v[i]);
        proof {
            assert(out@ =~= v@.take(i as int + 1));
        }
        i = i + 1;
    }
    proof {
        assert(v@.take(n as int) =~= v@);
    }
    out
}

} // verus!
