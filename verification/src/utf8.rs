//! Executable validation of UTF-8 byte sequences.
//!
//! A native function declared to return a string hands the bridge a
//! null-terminated byte buffer; before those bytes are surfaced as text,
//! they must be checked against the UTF-8 grammar. The validator below is
//! proved equivalent to vstd's specification of UTF-8 validity.

use vstd::prelude::*;
use vstd::utf8::{
    decode_first_codepoint, length_of_first_codepoint, length_of_first_scalar,
    not_overlong_encoding, not_surrogate, pop_first_scalar, valid_first_scalar,
    valid_leading_and_continuation_bytes_first_codepoint, valid_utf8,
};

verus! {

/// Decides whether `s` is a valid UTF-8 encoding.
pub fn is_valid_utf8(s: &[u8]) -> (r: bool)
    ensures
        r == valid_utf8(s@),
{
    let n = s.len();
    let mut i: usize = 0;
    proof {
        assert(s@.skip(0) =~= s@);
    }
    while i < n
        invariant
            i <= n == s@.len(),
            valid_utf8(s@) == valid_utf8(s@.skip(i as int)),
        decreases n - i,
    {
        let ghost suf = s@.skip(i as int);
        assert(suf.len() == n - i);
        let b0 = s[i];
        assert(suf[0] == b0);
        if b0 < 0x80 {
            // one byte: 0xxxxxxx
            proof {
                assert(valid_first_scalar(suf));
                assert(length_of_first_scalar(suf) == 1);
                assert(pop_first_scalar(suf) =~= s@.skip(i + 1));
            }
            i = i + 1;
        } else if b0 < 0xc0 {
            // a stray continuation byte cannot lead a scalar
            proof {
                assert(!valid_leading_and_continuation_bytes_first_codepoint(suf));
                assert(!valid_utf8(suf));
            }
            return false;
        } else if b0 <= 0xdf {
            // two bytes: 110xxxxx 10xxxxxx
            if n - i >= 2 && 0x80 <= s[i + 1] && s[i + 1] <= 0xbf {
                let b1 = s[i + 1];
                assert(suf[1] == b1);
                let cp: u32 = (((b0 & 0x1f) as u32) << 6) | ((b1 & 0x3f) as u32);
                proof {
                    assert(valid_leading_and_continuation_bytes_first_codepoint(suf));
                    assert(decode_first_codepoint(suf) == cp);
                    assert(length_of_first_codepoint(suf) == 2);
                }
                if 0x80 <= cp {
                    proof {
                        assert((((b0 & 0x1f) as u32) << 6) | ((b1 & 0x3f) as u32) <= 0x7ff)
                            by (bit_vector);
                        assert(not_surrogate(cp));
                        assert(valid_first_scalar(suf));
                        assert(pop_first_scalar(suf) =~= s@.skip(i + 2));
                    }
                    i = i + 2;
                } else {
                    // an overlong two-byte encoding
                    proof {
                        assert(!not_overlong_encoding(cp, 2));
                        assert(!valid_first_scalar(suf));
                        assert(!valid_utf8(suf));
                    }
                    return false;
                }
            } else {
                proof {
                    assert(!valid_leading_and_continuation_bytes_first_codepoint(suf));
                    assert(!valid_utf8(suf));
                }
                return false;
            }
        } else if b0 <= 0xef {
            // three bytes: 1110xxxx 10xxxxxx 10xxxxxx
            if n - i >= 3 && 0x80 <= s[i + 1] && s[i + 1] <= 0xbf && 0x80 <= s[i + 2] && s[i + 2]
                <= 0xbf {
                let b1 = s[i + 1];
                let b2 = s[i + 2];
                assert(suf[1] == b1 && suf[2] == b2);
                let cp: u32 = (((b0 & 0x0f) as u32) << 12) | (((b1 & 0x3f) as u32) << 6) | ((b2
                    & 0x3f) as u32);
                proof {
                    assert(valid_leading_and_continuation_bytes_first_codepoint(suf));
                    assert(decode_first_codepoint(suf) == cp);
                    assert(length_of_first_codepoint(suf) == 3);
                }
                if 0x800 <= cp && !(0xd800 <= cp && cp <= 0xdfff) {
                    proof {
                        assert(valid_first_scalar(suf));
                        assert(pop_first_scalar(suf) =~= s@.skip(i + 3));
                    }
                    i = i + 3;
                } else {
                    // overlong, or a surrogate codepoint
                    proof {
                        assert(!valid_first_scalar(suf));
                        assert(!valid_utf8(suf));
                    }
                    return false;
                }
            } else {
                proof {
                    assert(!valid_leading_and_continuation_bytes_first_codepoint(suf));
                    assert(!valid_utf8(suf));
                }
                return false;
            }
        } else if b0 <= 0xf7 {
            // four bytes: 11110xxx 10xxxxxx 10xxxxxx 10xxxxxx
            if n - i >= 4 && 0x80 <= s[i + 1] && s[i + 1] <= 0xbf && 0x80 <= s[i + 2] && s[i + 2]
                <= 0xbf && 0x80 <= s[i + 3] && s[i + 3] <= 0xbf {
                let b1 = s[i + 1];
                let b2 = s[i + 2];
                let b3 = s[i + 3];
                assert(suf[1] == b1 && suf[2] == b2 && suf[3] == b3);
                let cp: u32 = (((b0 & 0x07) as u32) << 18) | (((b1 & 0x3f) as u32) << 12) | (((b2
                    & 0x3f) as u32) << 6) | ((b3 & 0x3f) as u32);
                proof {
                    assert(valid_leading_and_continuation_bytes_first_codepoint(suf));
                    assert(decode_first_codepoint(suf) == cp);
                    assert(length_of_first_codepoint(suf) == 4);
                }
                if 0x10000 <= cp && cp <= 0x10ffff {
                    proof {
                        assert(not_surrogate(cp));
                        assert(valid_first_scalar(suf));
                        assert(pop_first_scalar(suf) =~= s@.skip(i + 4));
                    }
                    i = i + 4;
                } else {
                    // overlong, or beyond the last Unicode scalar
                    proof {
                        assert(!valid_first_scalar(suf));
                        assert(!valid_utf8(suf));
                    }
                    return false;
                }
            } else {
                proof {
                    assert(!valid_leading_and_continuation_bytes_first_codepoint(suf));
                    assert(!valid_utf8(suf));
                }
                return false;
            }
        } else {
            // 0xf8 and above never leads a scalar
            proof {
                assert(!valid_leading_and_continuation_bytes_first_codepoint(suf));
                assert(!valid_utf8(suf));
            }
            return false;
        }
    }
    proof {
        assert(s@.skip(n as int) =~= Seq::<u8>::empty());
        assert(valid_utf8(Seq::<u8>::empty()));
    }
    true
}

} // verus!
