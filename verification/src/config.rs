//! Configuration values and the parsing they need. The subject identifiers
//! arrive as one comma-separated string; every field that reads as a
//! decimal integer fitting the identifier width is kept, in order, and
//! every other field is dropped. Reading the string from the secret store
//! is an I/O concern outside this crate.
use vstd::prelude::*;

verus! {

/// The configuration of the relay: the subjects to watch and the
/// destination address. The destination is mandatory; the caller that
/// builds a `Config` fails at startup when it is missing.
pub struct Config {
    pub user_ids: Vec<u32>,
    pub webhook_url: String,
}

pub open spec fn is_dec_digit(c: char) -> bool {
    '0' as int <= c as int && c as int <= '9' as int
}

pub open spec fn dec_digit_val(c: char) -> int {
    c as int - '0' as int
}

pub open spec fn all_dec_digits(s: Seq<char>) -> bool {
    forall|i: int| 0 <= i < s.len() ==> is_dec_digit(#[trigger] s[i])
}

/// The base-10 value of a digit sequence, most significant digit first.
pub open spec fn dec_seq_val(s: Seq<char>) -> int
    decreases s.len(),
{
    if s.len() == 0 {
        0
    } else {
        dec_seq_val(s.drop_last()) * 10 + dec_digit_val(s.last())
    }
}

/// What one comma-separated field yields: its decimal value when the field
/// is non-empty, all digits, and fits the identifier width; nothing else.
pub open spec fn spec_parse_id(f: Seq<char>) -> Option<u32> {
    if f.len() > 0 && all_dec_digits(f) && dec_seq_val(f) <= u32::MAX {
        Some(dec_seq_val(f) as u32)
    } else {
        None
    }
}

/// The position of the first comma, or the length when there is none.
pub open spec fn first_comma(s: Seq<char>) -> nat
    decreases s.len(),
{
    if s.len() == 0 {
        0
    } else if s[0] == ',' {
        0
    } else {
        1 + first_comma(s.drop_first())
    }
}

/// The fields of a comma-separated string, commas removed. A string with
/// no comma is one field; every comma separates two fields, so the empty
/// string is one (empty) field.
pub open spec fn split_commas(s: Seq<char>) -> Seq<Seq<char>>
    decreases s.len(),
{
    let i = first_comma(s);
    if i >= s.len() {
        seq![s]
    } else {
        seq![s.take(i as int)] + split_commas(s.skip(i as int + 1))
    }
}

/// The identifiers the valid fields yield, in order.
pub open spec fn ids_of_fields(fields: Seq<Seq<char>>) -> Seq<u32>
    decreases fields.len(),
{
    if fields.len() == 0 {
        Seq::empty()
    } else {
        let rest = ids_of_fields(fields.drop_first());
        match spec_parse_id(fields[0]) {
            Some(v) => seq![v] + rest,
            None => rest,
        }
    }
}

/// What parsing the whole identifier list yields.
pub open spec fn spec_parse_user_ids(s: Seq<char>) -> Seq<u32> {
    ids_of_fields(split_commas(s))
}

pub proof fn lemma_first_comma(s: Seq<char>)
    ensures
        first_comma(s) <= s.len(),
        first_comma(s) < s.len() ==> s[first_comma(s) as int] == ',',
        forall|j: int| 0 <= j < first_comma(s) ==> s[j] != ',',
    decreases s.len(),
{
    if s.len() > 0 && s[0] != ',' {
        lemma_first_comma(s.drop_first());
        assert forall|j: int| 0 <= j < first_comma(s) implies s[j] != ',' by {
            if j >= 1 {
                assert(s.drop_first()[j - 1] == s[j]);
            }
        }
        if first_comma(s) < s.len() {
            assert(s.drop_first()[first_comma(s) as int - 1] == s[first_comma(s) as int]);
        }
    }
}

pub proof fn lemma_dec_seq_val_nonneg(s: Seq<char>)
    requires
        all_dec_digits(s),
    ensures
        dec_seq_val(s) >= 0,
    decreases s.len(),
{
    if s.len() > 0 {
        assert(all_dec_digits(s.drop_last())) by {
            assert(forall|i: int|
                0 <= i < s.len() - 1 ==> s.drop_last()[i] == #[trigger] s[i]);
        }
        lemma_dec_seq_val_nonneg(s.drop_last());
    }
}

pub proof fn lemma_ids_of_fields_append(a: Seq<Seq<char>>, b: Seq<Seq<char>>)
    ensures
        ids_of_fields(a + b) == ids_of_fields(a) + ids_of_fields(b),
    decreases a.len(),
{
    if a.len() == 0 {
        assert(a + b =~= b);
        assert(ids_of_fields(a) + ids_of_fields(b) =~= ids_of_fields(b));
    } else {
        assert((a + b).drop_first() =~= a.drop_first() + b);
        lemma_ids_of_fields_append(a.drop_first(), b);
        match spec_parse_id(a[0]) {
            Some(v) => {
                assert(seq![v] + (ids_of_fields(a.drop_first()) + ids_of_fields(b)) =~= (seq![v]
                    + ids_of_fields(a.drop_first())) + ids_of_fields(b));
            },
            None => {},
        }
    }
}

/// The decimal value of one identifier field.
fn parse_id_str(f: &str) -> (r: Option<u32>)
    ensures
        r == spec_parse_id(f@),
{
    let len = f.unicode_len();
    if len == 0 {
        return None;
    }
    // `acc` follows the value of the digits read so far, saturated just
    // above the identifier width so that overflow is detected exactly.
    let cap: u64 = 0x1_0000_0000;
    let mut acc: u64 = 0;
    let mut i: usize = 0;
    while i < len
        invariant
            0 <= i <= len,
            len == f@.len(),
            cap == 0x1_0000_0000u64,
            all_dec_digits(f@.take(i as int)),
            acc == if dec_seq_val(f@.take(i as int)) < cap {
                dec_seq_val(f@.take(i as int))
            } else {
                cap as int
            },
        decreases len - i,
    {
        let c = f.get_char(i);
        let ghost prefix = f@.take(i as int);
        let ghost next_prefix = f@.take(i as int + 1);
        proof {
            assert(next_prefix.drop_last() =~= prefix);
            assert(next_prefix.last() == c);
            lemma_dec_seq_val_nonneg(prefix);
        }
        let u = c as u32;
        if u >= '0' as u32 && u <= '9' as u32 {
            let d = (u - '0' as u32) as u64;
            let grown = acc * 10 + d;
            acc = if grown > cap {
                cap
            } else {
                grown
            };
            proof {
                assert(all_dec_digits(next_prefix)) by {
                    assert(forall|j: int|
                        0 <= j < prefix.len() ==> next_prefix[j] == #[trigger] prefix[j]);
                }
                assert(dec_seq_val(next_prefix) == dec_seq_val(prefix) * 10 + dec_digit_val(c));
            }
        } else {
            proof {
                assert(f@[i as int] == c);
                assert(!all_dec_digits(f@));
            }
            return None;
        }
        i += 1;
    }
    proof {
        assert(f@.take(len as int) =~= f@);
    }
    if acc <= 0xFFFF_FFFF {
        Some(acc as u32)
    } else {
        None
    }
}

/// Parses the comma-separated identifier list: every field that reads as a
/// decimal identifier is kept, in order; every other field is dropped.
pub fn parse_user_ids(s: &str) -> (ids: Vec<u32>)
    ensures
        ids@ == spec_parse_user_ids(s@),
{
    let len = s.unicode_len();
    let mut ids: Vec<u32> = Vec::new();
    let mut pos: usize = 0;
    let ghost fields = split_commas(s@);
    let ghost mut k: int = 0;
    proof {
        assert(s@.skip(0) =~= s@);
        assert(fields.skip(0) =~= fields);
    }
    loop
        invariant_except_break
            0 <= k < fields.len(),
            pos <= len,
            split_commas(s@.skip(pos as int)) == fields.skip(k),
        invariant
            len == s@.len(),
            fields == split_commas(s@),
            ids@ == ids_of_fields(fields.take(k)),
            k <= fields.len(),
        ensures
            k == fields.len(),
        decreases len - pos,
    {
        let mut i: usize = pos;
        while i < len && s.get_char(i) != ','
            invariant
                pos <= i <= len,
                len == s@.len(),
                forall|j: int| pos <= j < i ==> s@[j] != ',',
            decreases len - i,
        {
            i += 1;
        }
        let ghost rest = s@.skip(pos as int);
        proof {
            lemma_first_comma(rest);
            // the scan stopped at the first comma of the rest, or at its end
            assert(forall|j: int| 0 <= j < i - pos ==> rest[j] != ',');
            if i < len {
                assert(rest[i - pos] == ',');
            }
            assert(first_comma(rest) == i - pos);
            assert(rest.take(i - pos) =~= s@.subrange(pos as int, i as int));
        }
        let field = s.substring_char(pos, i);
        let ghost current = fields[k];
        proof {
            assert(fields.skip(k)[0] == fields[k]);
            if i < len {
                assert(current == rest.take(i - pos));
            } else {
                assert(current == rest);
                assert(rest.take(i - pos) =~= rest);
            }
            assert(field@ == current);
        }
        match parse_id_str(field) {
            Some(v) => {
                ids.push(v);
            },
            None => {},
        }
        proof {
            assert(fields.take(k + 1) =~= fields.take(k) + seq![current]);
            lemma_ids_of_fields_append(fields.take(k), seq![current]);
            assert(seq![current].drop_first() =~= Seq::<Seq<char>>::empty());
            assert(ids_of_fields(Seq::<Seq<char>>::empty()) == Seq::<u32>::empty());
            assert(seq![current][0] == current);
            match spec_parse_id(current) {
                Some(v) => {
                    assert(ids_of_fields(seq![current]) =~= seq![v]);
                },
                None => {
                    assert(ids_of_fields(seq![current]) =~= Seq::<u32>::empty());
                },
            }
            assert(ids@ =~= ids_of_fields(fields.take(k + 1)));
        }
        if i == len {
            proof {
                assert(first_comma(rest) == rest.len());
                assert(fields.skip(k) =~= seq![current]);
                k = k + 1;
                assert(k == fields.len());
                assert(fields.take(k) =~= fields);
            }
            break;
        }
        proof {
            assert(split_commas(rest) == seq![rest.take(i - pos)] + split_commas(
                rest.skip(i - pos + 1),
            ));
            assert(rest.skip(i - pos + 1) =~= s@.skip(i as int + 1));
            assert(split_commas(s@.skip(i as int + 1)) =~= fields.skip(k + 1)) by {
                assert(fields.skip(k).drop_first() =~= fields.skip(k + 1));
                assert(split_commas(rest).drop_first() =~= split_commas(
                    s@.skip(i as int + 1),
                ));
            }
            k = k + 1;
        }
        pos = i + 1;
    }
    proof {
        assert(fields.take(fields.len() as int) =~= fields);
    }
    ids
}

} // verus!
