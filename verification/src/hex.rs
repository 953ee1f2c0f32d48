//! Parsing of the accent color of a subject's cover image: a hex string,
//! usually of the shape `#rrggbb`. A leading `#` is stripped and the rest is
//! read as a base-16 integer. The result is a 24-bit color; anything that is
//! empty, holds a non-hex character, or does not fit in 24 bits is rejected
//! by returning `None`, never by failing.
use vstd::prelude::*;

verus! {

/// The smallest integer that is not a 24-bit color.
pub const COLOR_LIMIT: u32 = 0x100_0000;

pub open spec fn is_hex_digit(c: char) -> bool {
    ('0' as int <= c as int && c as int <= '9' as int) || ('a' as int <= c as int && c as int
        <= 'f' as int) || ('A' as int <= c as int && c as int <= 'F' as int)
}

/// The value of one hex digit (meaningful only when `is_hex_digit(c)`).
pub open spec fn hex_digit_val(c: char) -> int {
    if '0' as int <= c as int && c as int <= '9' as int {
        c as int - '0' as int
    } else if 'a' as int <= c as int && c as int <= 'f' as int {
        c as int - 'a' as int + 10
    } else {
        c as int - 'A' as int + 10
    }
}

pub open spec fn all_hex_digits(s: Seq<char>) -> bool {
    forall|i: int| 0 <= i < s.len() ==> is_hex_digit(#[trigger] s[i])
}

/// The base-16 value of a digit sequence, most significant digit first.
pub open spec fn hex_seq_val(s: Seq<char>) -> int
    decreases s.len(),
{
    if s.len() == 0 {
        0
    } else {
        hex_seq_val(s.drop_last()) * 16 + hex_digit_val(s.last())
    }
}

/// One leading `#` removed, if there is one.
pub open spec fn strip_hash(s: Seq<char>) -> Seq<char> {
    if s.len() > 0 && s[0] == '#' {
        s.drop_first()
    } else {
        s
    }
}

/// What parsing a color string yields: strip a leading `#`, then read the
/// rest as base 16; `None` when the rest is empty, holds a character that is
/// no hex digit, or names a value that does not fit in 24 bits.
pub open spec fn spec_parse_hex_color(s: Seq<char>) -> Option<u32> {
    let t = strip_hash(s);
    if t.len() > 0 && all_hex_digits(t) && hex_seq_val(t) < COLOR_LIMIT {
        Some(hex_seq_val(t) as u32)
    } else {
        None
    }
}

pub proof fn lemma_hex_seq_val_nonneg(s: Seq<char>)
    requires
        all_hex_digits(s),
    ensures
        hex_seq_val(s) >= 0,
    decreases s.len(),
{
    if s.len() > 0 {
        assert(all_hex_digits(s.drop_last())) by {
            assert(forall|i: int|
                0 <= i < s.len() - 1 ==> s.drop_last()[i] == #[trigger] s[i]);
        }
        lemma_hex_seq_val_nonneg(s.drop_last());
    }
}

/// The value of one hex digit.
fn hex_digit(c: char) -> (r: Option<u32>)
    ensures
        r is Some <==> is_hex_digit(c),
        r matches Some(v) ==> v == hex_digit_val(c),
{
    let u = c as u32;
    if u >= '0' as u32 && u <= '9' as u32 {
        Some(u - '0' as u32)
    } else if u >= 'a' as u32 && u <= 'f' as u32 {
        Some(u - 'a' as u32 + 10)
    } else if u >= 'A' as u32 && u <= 'F' as u32 {
        Some(u - 'A' as u32 + 10)
    } else {
        None
    }
}

/// Parses a cover-image color string into a 24-bit color.
pub fn parse_hex_color(s: &str) -> (r: Option<u32>)
    ensures
        r == spec_parse_hex_color(s@),
{
    let len = s.unicode_len();
    let start: usize = if len > 0 && s.get_char(0) == '#' {
        1
    } else {
        0
    };
    let ghost t = strip_hash(s@);
    proof {
        assert(t =~= s@.subrange(start as int, len as int));
    }
    if len == start {
        return None;
    }
    // `acc` follows the value of the digits read so far, saturated at
    // `COLOR_LIMIT`: a saturated prefix can only grow when more digits follow.
    let mut acc: u32 = 0;
    let mut i: usize = start;
    while i < len
        invariant
            start <= i <= len,
            len == s@.len(),
            t == strip_hash(s@),
            t == s@.subrange(start as int, len as int),
            all_hex_digits(t.take(i - start)),
            acc == if hex_seq_val(t.take(i - start)) < COLOR_LIMIT {
                hex_seq_val(t.take(i - start))
            } else {
                COLOR_LIMIT as int
            },
        decreases len - i,
    {
        let c = s.get_char(i);
        let ghost prefix = t.take(i - start);
        let ghost next_prefix = t.take(i + 1 - start);
        proof {
            assert(next_prefix.drop_last() =~= prefix);
            assert(next_prefix.last() == c);
            lemma_hex_seq_val_nonneg(prefix);
        }
        match hex_digit(c) {
            Some(d) => {
                let grown = acc * 16 + d;
                acc = if grown > COLOR_LIMIT {
                    COLOR_LIMIT
                } else {
                    grown
                };
                proof {
                    assert(all_hex_digits(next_prefix)) by {
                        assert(forall|j: int|
                            0 <= j < prefix.len() ==> next_prefix[j] == #[trigger] prefix[j]);
                    }
                    assert(hex_seq_val(next_prefix) == hex_seq_val(prefix) * 16 + hex_digit_val(
                        c,
                    ));
                }
            },
            None => {
                proof {
                    assert(t[i - start] == c);
                    assert(!all_hex_digits(t));
                    assert(spec_parse_hex_color(s@) is None);
                }
                return None;
            },
        }
        i += 1;
    }
    proof {
        assert(t.take(len - start) =~= t);
    }
    if acc < COLOR_LIMIT {
        Some(acc)
    } else {
        None
    }
}

} // verus!
