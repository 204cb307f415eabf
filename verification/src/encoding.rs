//! Verified recognition of UTF-8: a byte-by-byte scan that decides whether a
//! byte sequence is a valid UTF-8 encoding, proved against vstd's model of
//! UTF-8 (`vstd::utf8::valid_utf8`).
use vstd::prelude::*;
use vstd::utf8::*;

verus! {

/// Decides whether `bytes` is a valid UTF-8 encoding of some character
/// sequence: every scalar's encoding is well formed, not overlong, and not
/// in the surrogate range.
pub fn is_utf8_text(bytes: &Vec<u8>) -> (valid: bool)
    ensures
        valid == valid_utf8(bytes@),
{
    let n = bytes.len();
    let mut i: usize = 0;
    proof {
        assert(bytes@.subrange(0, n as int) =~= bytes@);
        assert(bytes@.subrange(0, 0) =~= Seq::<u8>::empty());
    }
    while i < n
        invariant
            i <= n,
            n == bytes@.len(),
            partial_valid_utf8(bytes@, i as int),
            valid_utf8(bytes@) <==> valid_utf8(bytes@.subrange(i as int, n as int)),
        decreases n - i,
    {
        let ghost suf = bytes@.subrange(i as int, n as int);
        let rem = n - i;
        let b0 = bytes[i];
        proof {
            assert(suf.len() == rem);
            assert(suf[0] == b0);
        }
        if b0 < 0x80 {
            // one byte: the scalar is the byte itself
            proof {
                assert(valid_first_scalar(suf));
                assert(length_of_first_scalar(suf) == 1);
                lemma_scan_step(bytes@, i as int, 1);
            }
            i = i + 1;
        } else if b0 < 0xc0 {
            // a continuation byte can never begin a scalar's encoding
            proof {
                lemma_scan_stop(bytes@, i as int);
            }
            return false;
        } else if b0 < 0xe0 {
            if rem < 2 {
                proof {
                    lemma_scan_stop(bytes@, i as int);
                }
                return false;
            }
            let b1 = bytes[i + 1];
            proof {
                assert(suf[1] == b1);
            }
            if !(0x80 <= b1 && b1 < 0xc0) {
                proof {
                    lemma_scan_stop(bytes@, i as int);
                }
                return false;
            }
            let cp: u32 = (((b0 & 0x1f) as u32) << 6) | ((b1 & 0x3f) as u32);
            proof {
                assert(decode_first_codepoint(suf) == cp);
                assert(length_of_first_codepoint(suf) == 2);
            }
            if cp < 0x80 {
                // overlong: two bytes spent on a one-byte scalar
                proof {
                    lemma_scan_stop(bytes@, i as int);
                }
                return false;
            }
            proof {
                assert(cp <= 0x7ff) by (bit_vector)
                    requires
                        cp == (((b0 & 0x1f) as u32) << 6) | ((b1 & 0x3f) as u32),
                ;
                assert(valid_first_scalar(suf));
                assert(length_of_first_scalar(suf) == 2);
                lemma_scan_step(bytes@, i as int, 2);
            }
            i = i + 2;
        } else if b0 < 0xf0 {
            if rem < 3 {
                proof {
                    lemma_scan_stop(bytes@, i as int);
                }
                return false;
            }
            let b1 = bytes[i + 1];
            let b2 = bytes[i + 2];
            proof {
                assert(suf[1] == b1);
                assert(suf[2] == b2);
            }
            if !(0x80 <= b1 && b1 < 0xc0) || !(0x80 <= b2 && b2 < 0xc0) {
                proof {
                    lemma_scan_stop(bytes@, i as int);
                }
                return false;
            }
            let cp: u32 = (((b0 & 0x0f) as u32) << 12) | (((b1 & 0x3f) as u32) << 6) | ((b2
                & 0x3f) as u32);
            proof {
                assert(decode_first_codepoint(suf) == cp);
                assert(length_of_first_codepoint(suf) == 3);
            }
            if cp < 0x800 || (0xd800 <= cp && cp <= 0xdfff) {
                // overlong encoding, or a codepoint in the surrogate range
                proof {
                    lemma_scan_stop(bytes@, i as int);
                }
                return false;
            }
            proof {
                assert(valid_first_scalar(suf));
                assert(length_of_first_scalar(suf) == 3);
                lemma_scan_step(bytes@, i as int, 3);
            }
            i = i + 3;
        } else if b0 < 0xf8 {
            if rem < 4 {
                proof {
                    lemma_scan_stop(bytes@, i as int);
                }
                return false;
            }
            let b1 = bytes[i + 1];
            let b2 = bytes[i + 2];
            let b3 = bytes[i + 3];
            proof {
                assert(suf[1] == b1);
                assert(suf[2] == b2);
                assert(suf[3] == b3);
            }
            if !(0x80 <= b1 && b1 < 0xc0) || !(0x80 <= b2 && b2 < 0xc0) || !(0x80 <= b3 && b3
                < 0xc0) {
                proof {
                    lemma_scan_stop(bytes@, i as int);
                }
                return false;
            }
            let cp: u32 = (((b0 & 0x07) as u32) << 18) | (((b1 & 0x3f) as u32) << 12) | (((b2
                & 0x3f) as u32) << 6) | ((b3 & 0x3f) as u32);
            proof {
                assert(decode_first_codepoint(suf) == cp);
                assert(length_of_first_codepoint(suf) == 4);
            }
            if cp < 0x10000 || cp > 0x10ffff {
                // overlong encoding, or a value beyond the last scalar
                proof {
                    lemma_scan_stop(bytes@, i as int);
                }
                return false;
            }
            proof {
                assert(valid_first_scalar(suf));
                assert(length_of_first_scalar(suf) == 4);
                lemma_scan_step(bytes@, i as int, 4);
            }
            i = i + 4;
        } else {
            // 0xf8 and above is no leading byte of any width
            proof {
                lemma_scan_stop(bytes@, i as int);
            }
            return false;
        }
    }
    proof {
        assert(bytes@.subrange(n as int, n as int) =~= Seq::<u8>::empty());
    }
    true
}

/// After a well-formed scalar encoding of `width` bytes at position `i`, the
/// scan may advance: the prefix through the scalar stays valid, and validity
/// of the whole hinges on the bytes after it exactly as it hinged on the
/// bytes from `i`.
proof fn lemma_scan_step(bytes: Seq<u8>, i: int, width: int)
    requires
        0 <= i,
        i + width <= bytes.len(),
        partial_valid_utf8(bytes, i),
        valid_first_scalar(bytes.subrange(i, bytes.len() as int)),
        length_of_first_scalar(bytes.subrange(i, bytes.len() as int)) == width,
    ensures
        partial_valid_utf8(bytes, i + width),
        valid_utf8(bytes.subrange(i, bytes.len() as int)) <==> valid_utf8(
            bytes.subrange(i + width, bytes.len() as int),
        ),
{
    let n = bytes.len() as int;
    let suf = bytes.subrange(i, n);
    partial_valid_utf8_extend(bytes, i);
    assert(pop_first_scalar(suf) =~= bytes.subrange(i + width, n));
    reveal_with_fuel(valid_utf8, 2);
}

/// When no well-formed scalar encoding begins at position `i`, the scan may
/// stop: the suffix from `i`, and with it the whole sequence, is not valid
/// UTF-8.
proof fn lemma_scan_stop(bytes: Seq<u8>, i: int)
    requires
        0 <= i < bytes.len(),
        !valid_first_scalar(bytes.subrange(i, bytes.len() as int)),
        valid_utf8(bytes) <==> valid_utf8(bytes.subrange(i, bytes.len() as int)),
    ensures
        !valid_utf8(bytes),
{
    reveal_with_fuel(valid_utf8, 2);
}

} // verus!
