//! Validity of a record's text payload: a byte sequence that decodes as
//! UTF-8 and contains no nul byte.

use vstd::prelude::*;

verus! {

/// A continuation byte of a multi-byte UTF-8 sequence.
pub open spec fn is_cont_byte(b: u8) -> bool {
    0x80 <= b <= 0xBF
}

/// A one-byte (ASCII) UTF-8 sequence.
pub open spec fn valid_utf8_1(a: u8) -> bool {
    a <= 0x7F
}

/// A two-byte UTF-8 sequence (shortest form only).
pub open spec fn valid_utf8_2(a: u8, b: u8) -> bool {
    0xC2 <= a <= 0xDF && is_cont_byte(b)
}

/// A three-byte UTF-8 sequence (shortest form, no surrogates).
pub open spec fn valid_utf8_3(a: u8, b: u8, c: u8) -> bool {
    &&& is_cont_byte(c)
    &&& {
        ||| (a == 0xE0 && 0xA0 <= b <= 0xBF)
        ||| (0xE1 <= a <= 0xEC && is_cont_byte(b))
        ||| (a == 0xED && 0x80 <= b <= 0x9F)
        ||| (0xEE <= a <= 0xEF && is_cont_byte(b))
    }
}

/// A four-byte UTF-8 sequence (shortest form, at most U+10FFFF).
pub open spec fn valid_utf8_4(a: u8, b: u8, c: u8, d: u8) -> bool {
    &&& is_cont_byte(c)
    &&& is_cont_byte(d)
    &&& {
        ||| (a == 0xF0 && 0x90 <= b <= 0xBF)
        ||| (0xF1 <= a <= 0xF3 && is_cont_byte(b))
        ||| (a == 0xF4 && 0x80 <= b <= 0x8F)
    }
}

/// The whole byte sequence is well-formed UTF-8.
pub open spec fn valid_utf8(s: Seq<u8>) -> bool
    decreases s.len(),
{
    if s.len() == 0 {
        true
    } else if valid_utf8_1(s[0]) {
        valid_utf8(s.skip(1))
    } else if s.len() >= 2 && valid_utf8_2(s[0], s[1]) {
        valid_utf8(s.skip(2))
    } else if s.len() >= 3 && valid_utf8_3(s[0], s[1], s[2]) {
        valid_utf8(s.skip(3))
    } else if s.len() >= 4 && valid_utf8_4(s[0], s[1], s[2], s[3]) {
        valid_utf8(s.skip(4))
    } else {
        false
    }
}

/// No byte of the sequence is nul.
pub open spec fn nul_free(s: Seq<u8>) -> bool {
    forall|k: int| 0 <= k < s.len() ==> s[k] != 0
}

/// A byte sequence may become a record's text payload exactly when it
/// decodes as UTF-8 and holds no nul byte.
pub open spec fn is_text(s: Seq<u8>) -> bool {
    valid_utf8(s) && nul_free(s)
}

/// Decides whether `bytes` is well-formed UTF-8.
pub fn check_utf8(bytes: &Vec<u8>) -> (r: bool)
    ensures
        r == valid_utf8(bytes@),
{
    let n = bytes.len();
    let mut i: usize = 0;
    proof {
        assert(bytes@.skip(0) =~= bytes@);
    }
    while i < n
        invariant
            i <= n,
            n == bytes@.len(),
            valid_utf8(bytes@) == valid_utf8(bytes@.skip(i as int)),
        decreases n - i,
    {
        let a = bytes[i];
        proof {
            assert(bytes@.skip(i as int)[0] == a);
        }
        if a <= 0x7F {
            proof {
                assert(bytes@.skip(i as int).skip(1) =~= bytes@.skip(i as int + 1));
            }
            i = i + 1;
        } else if 0xC2 <= a && a <= 0xDF {
            if n - i >= 2 && 0x80 <= bytes[i + 1] && bytes[i + 1] <= 0xBF {
                proof {
                    assert(bytes@.skip(i as int)[1] == bytes@[i + 1]);
                    assert(bytes@.skip(i as int).skip(2) =~= bytes@.skip(i as int + 2));
                }
                i = i + 2;
            } else {
                proof {
                    assert(!valid_utf8(bytes@.skip(i as int)));
                }
                return false;
            }
        } else if 0xE0 <= a && a <= 0xEF {
            let ok = if n - i >= 3 {
                let b = bytes[i + 1];
                let c = bytes[i + 2];
                let b_ok = if a == 0xE0 {
                    0xA0 <= b && b <= 0xBF
                } else if a == 0xED {
                    0x80 <= b && b <= 0x9F
                } else {
                    0x80 <= b && b <= 0xBF
                };
                b_ok && 0x80 <= c && c <= 0xBF
            } else {
                false
            };
            if ok {
                proof {
                    assert(bytes@.skip(i as int)[1] == bytes@[i + 1]);
                    assert(bytes@.skip(i as int)[2] == bytes@[i + 2]);
                    assert(bytes@.skip(i as int).skip(3) =~= bytes@.skip(i as int + 3));
                }
                i = i + 3;
            } else {
                proof {
                    assert(!valid_utf8(bytes@.skip(i as int)));
                }
                return false;
            }
        } else if 0xF0 <= a && a <= 0xF4 {
            let ok = if n - i >= 4 {
                let b = bytes[i + 1];
                let c = bytes[i + 2];
                let d = bytes[i + 3];
                let b_ok = if a == 0xF0 {
                    0x90 <= b && b <= 0xBF
                } else if a == 0xF4 {
                    0x80 <= b && b <= 0x8F
                } else {
                    0x80 <= b && b <= 0xBF
                };
                b_ok && 0x80 <= c && c <= 0xBF && 0x80 <= d && d <= 0xBF
            } else {
                false
            };
            if ok {
                proof {
                    assert(bytes@.skip(i as int)[1] == bytes@[i + 1]);
                    assert(bytes@.skip(i as int)[2] == bytes@[i + 2]);
                    assert(bytes@.skip(i as int)[3] == bytes@[i + 3]);
                    assert(bytes@.skip(i as int).skip(4) =~= bytes@.skip(i as int + 4));
                }
                i = i + 4;
            } else {
                proof {
                    assert(!valid_utf8(bytes@.skip(i as int)));
                }
                return false;
            }
        } else {
            proof {
                assert(!valid_utf8(bytes@.skip(i as int)));
            }
            return false;
        }
    }
    proof {
        assert(bytes@.skip(n as int) =~= Seq::<u8>::empty());
    }
    true
}

/// Decides whether `bytes` holds no nul byte.
pub fn check_nul_free(bytes: &Vec<u8>) -> (r: bool)
    ensures
        r == nul_free(bytes@),
{
    let n = bytes.len();
    let mut i: usize = 0;
    while i < n
        invariant
            i <= n,
            n == bytes@.len(),
            forall|k: int| 0 <= k < i ==> bytes@[k] != 0,
        decreases n - i,
    {
        if bytes[i] == 0 {
            return false;
        }
        i = i + 1;
    }
    true
}

/// Decides whether `bytes` is acceptable as a record's text payload.
pub fn check_text(bytes: &Vec<u8>) -> (r: bool)
    ensures
        r == is_text(bytes@),
{
    check_utf8(bytes) && check_nul_free(bytes)
}

} // verus!
