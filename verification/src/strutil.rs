//! Verified string utilities: equality, case-insensitive comparison,
//! splitting on commas, and parsing of the scalar types.
//!
//! The parse functions implement the standard library's grammar for integers
//! and booleans read from a string: an optional sign followed by one or more
//! decimal digits, rejected on overflow; exactly `true` or `false` for
//! booleans.

use vstd::prelude::*;
use vstd::std_specs::iter::IteratorSpec;

verus! {

broadcast use vstd::string::next_postcondition, vstd::string::axiom_spec_iter;

/// Whether `c` is an ASCII decimal digit.
pub open spec fn spec_is_digit(c: char) -> bool {
    48 <= (c as u32) && (c as u32) <= 57
}

/// The numeric value of a digit character.
pub open spec fn spec_digit_val(c: char) -> int {
    (c as u32) - 48
}

/// Whether every character of `s` is an ASCII decimal digit.
pub open spec fn spec_all_digits(s: Seq<char>) -> bool {
    forall|i: int| 0 <= i < s.len() ==> spec_is_digit(s[i])
}

/// The value of a digit string read in base ten.
pub open spec fn spec_digits_val(s: Seq<char>) -> int
    decreases s.len(),
{
    if s.len() == 0 {
        0
    } else {
        spec_digits_val(s.drop_last()) * 10 + spec_digit_val(s.last())
    }
}

/// A digit string's value is non-negative.
pub proof fn lemma_digits_val_nonneg(s: Seq<char>)
    requires
        spec_all_digits(s),
    ensures
        spec_digits_val(s) >= 0,
    decreases s.len(),
{
    if s.len() > 0 {
        assert(spec_all_digits(s.drop_last()));
        lemma_digits_val_nonneg(s.drop_last());
    }
}

/// A digit string's value bounds the value of each of its prefixes.
pub proof fn lemma_digits_val_prefix(s: Seq<char>, j: int)
    requires
        spec_all_digits(s),
        0 <= j <= s.len(),
    ensures
        spec_digits_val(s.take(j)) <= spec_digits_val(s),
    decreases s.len() - j,
{
    if j < s.len() {
        lemma_digits_val_prefix(s, j + 1);
        let t = s.take(j + 1);
        assert(t.drop_last() =~= s.take(j));
        assert(spec_all_digits(s.take(j)));
        lemma_digits_val_nonneg(s.take(j));
        assert(spec_digits_val(t) == spec_digits_val(s.take(j)) * 10 + spec_digit_val(s[j]));
    } else {
        assert(s.take(j) =~= s);
    }
}

/// What parsing a non-empty all-digit string yields: its value, unless the
/// value does not fit in a `u64`.
pub open spec fn spec_digits_result(s: Seq<char>) -> Option<u64> {
    if s.len() > 0 && spec_all_digits(s) && spec_digits_val(s) <= u64::MAX {
        Some(spec_digits_val(s) as u64)
    } else {
        None
    }
}

/// What parsing `s` as a `u64` yields: an optional `+`, then digits.
pub open spec fn spec_parse_u64(s: Seq<char>) -> Option<u64> {
    if s.len() > 0 && s[0] == '+' {
        spec_digits_result(s.skip(1))
    } else {
        spec_digits_result(s)
    }
}

/// What parsing `s` as an `i64` yields: an optional sign, then digits,
/// rejected outside the `i64` range.
pub open spec fn spec_parse_i64(s: Seq<char>) -> Option<i64> {
    if s.len() > 0 && s[0] == '-' {
        let d = s.skip(1);
        if d.len() > 0 && spec_all_digits(d) && -spec_digits_val(d) >= i64::MIN {
            Some((-spec_digits_val(d)) as i64)
        } else {
            None
        }
    } else {
        let d = if s.len() > 0 && s[0] == '+' {
            s.skip(1)
        } else {
            s
        };
        if d.len() > 0 && spec_all_digits(d) && spec_digits_val(d) <= i64::MAX {
            Some(spec_digits_val(d) as i64)
        } else {
            None
        }
    }
}

/// What parsing `s` as a `bool` yields: exactly `true` or `false`.
pub open spec fn spec_parse_bool(s: Seq<char>) -> Option<bool> {
    if s == "true"@ {
        Some(true)
    } else if s == "false"@ {
        Some(false)
    } else {
        None
    }
}

/// String equality by view.
pub fn str_eq(a: &str, b: &str) -> (r: bool)
    ensures
        r == (a@ == b@),
{
    let x = a.to_owned();
    let y = b.to_owned();
    x == y
}

/// The lower-cased code point of `c`, folding only ASCII letters.
pub open spec fn spec_lower32(c: char) -> int {
    if 65 <= (c as u32) && (c as u32) <= 90 {
        (c as u32) + 32
    } else {
        (c as u32) as int
    }
}

/// ASCII-case-insensitive string equality.
pub open spec fn spec_eq_ci(a: Seq<char>, b: Seq<char>) -> bool {
    a.len() == b.len() && (forall|i: int|
        0 <= i < a.len() ==> spec_lower32(a[i]) == spec_lower32(b[i]))
}

/// The lower-cased code point of `c`, folding only ASCII letters.
fn lower32(c: char) -> (r: u32)
    ensures
        r as int == spec_lower32(c),
{
    let u = c as u32;
    if 65 <= u && u <= 90 {
        u + 32
    } else {
        u
    }
}

/// ASCII-case-insensitive string equality, as header lookup uses it.
pub fn eq_ignore_case(a: &str, b: &str) -> (r: bool)
    ensures
        r == spec_eq_ci(a@, b@),
{
    let mut ita = a.chars();
    let mut itb = b.chars();
    let ghost mut j: int = 0;
    loop
        invariant
            0 <= j <= a@.len(),
            j <= b@.len(),
            ita.remaining() == a@.skip(j),
            itb.remaining() == b@.skip(j),
            forall|i: int| 0 <= i < j ==> spec_lower32(a@[i]) == spec_lower32(b@[i]),
        decreases a@.len() - j,
    {
        let ca = ita.next();
        let cb = itb.next();
        match (ca, cb) {
            (Some(x), Some(y)) => {
                if lower32(x) != lower32(y) {
                    assert(a@[j] == x && b@[j] == y);
                    return false;
                }
                proof {
                    j = j + 1;
                }
            },
            (None, None) => {
                assert(a@.len() == j && b@.len() == j);
                return true;
            },
            (Some(x), None) => {
                assert(b@.len() == j && a@.len() > j);
                return false;
            },
            (None, Some(y)) => {
                assert(a@.len() == j && b@.len() > j);
                return false;
            },
        }
    }
}

/// Relies on `String::push` of std: appends the given character to the end
/// of the string.
#[verifier::external_body]
fn push_char(s: &mut String, c: char)
    ensures
        final(s)@ == old(s)@.push(c),
{
    s.push(c);
}

/// What splitting `s` on `,` yields: the pieces between commas, in order;
/// always at least one piece.
pub open spec fn spec_split_commas(s: Seq<char>) -> Seq<Seq<char>>
    decreases s.len(),
{
    if s.len() == 0 {
        seq![Seq::<char>::empty()]
    } else if s[0] == ',' {
        seq![Seq::<char>::empty()] + spec_split_commas(s.skip(1))
    } else {
        let rest = spec_split_commas(s.skip(1));
        rest.update(0, seq![s[0]] + rest[0])
    }
}

/// Splitting yields at least one piece.
pub proof fn lemma_split_nonempty(s: Seq<char>)
    ensures
        spec_split_commas(s).len() >= 1,
    decreases s.len(),
{
    if s.len() > 0 {
        lemma_split_nonempty(s.skip(1));
    }
}

/// Splits `s` on commas, as list-shaped fields are decoded.
pub fn split_commas(s: &str) -> (r: Vec<String>)
    ensures
        r@.map_values(|t: String| t@) == spec_split_commas(s@),
{
    let mut it = s.chars();
    let mut out: Vec<String> = Vec::new();
    let mut cur: String = String::new();
    let ghost mut j: int = 0;
    proof {
        lemma_split_nonempty(s@);
        assert(s@.skip(0) =~= s@);
        let rest = spec_split_commas(s@);
        assert(Seq::<char>::empty() + rest[0] =~= rest[0]);
        assert(Seq::<Seq<char>>::empty() + seq![rest[0]] + rest.skip(1) =~~= rest);
    }
    loop
        invariant
            0 <= j <= s@.len(),
            it.remaining() == s@.skip(j),
            ({
                let rest = spec_split_commas(s@.skip(j));
                spec_split_commas(s@) == out@.map_values(|t: String| t@) + seq![cur@ + rest[0]]
                    + rest.skip(1)
            }),
        decreases s@.len() - j,
    {
        let c = it.next();
        match c {
            Some(ch) => {
                proof {
                    assert(s@.skip(j).len() > 0);
                    assert(s@.skip(j)[0] == s@[j]);
                    assert(s@.skip(j).drop_first() =~= s@.skip(j + 1));
                    lemma_split_nonempty(s@.skip(j));
                    lemma_split_nonempty(s@.skip(j + 1));
                }
                let ghost rold = s@.skip(j);
                let ghost rnew = s@.skip(j + 1);
                let ghost curv = cur@;
                let ghost outv = out@.map_values(|t: String| t@);
                if ch == ',' {
                    out.push(cur);
                    cur = String::new();
                    proof {
                        let rest_old = spec_split_commas(rold);
                        let rest_new = spec_split_commas(rnew);
                        assert(rold[0] == ',');
                        assert(rold.skip(1) =~= rnew);
                        assert(rest_old == seq![Seq::<char>::empty()] + rest_new);
                        assert(rest_old[0] =~= Seq::<char>::empty());
                        assert(rest_old.skip(1) =~= rest_new);
                        assert(out@.map_values(|t: String| t@) =~= outv.push(curv));
                        assert(curv + rest_old[0] =~= curv);
                        assert(cur@ + rest_new[0] =~= rest_new[0]);
                        assert(outv + seq![curv + rest_old[0]] + rest_old.skip(1) =~~= outv.push(
                            curv,
                        ) + seq![cur@ + rest_new[0]] + rest_new.skip(1));
                    }
                } else {
                    push_char(&mut cur, ch);
                    proof {
                        let rest_old = spec_split_commas(rold);
                        let rest_new = spec_split_commas(rnew);
                        assert(rold[0] == ch && ch != ',');
                        assert(rold.skip(1) =~= rnew);
                        assert(rest_old == rest_new.update(0, seq![ch] + rest_new[0]));
                        assert(rest_old[0] =~= seq![ch] + rest_new[0]);
                        assert(rest_old.skip(1) =~= rest_new.skip(1));
                        assert(cur@ =~= curv.push(ch));
                        assert(curv + (seq![ch] + rest_new[0]) =~= cur@ + rest_new[0]);
                        assert(outv + seq![curv + rest_old[0]] + rest_old.skip(1) =~~= outv
                            + seq![cur@ + rest_new[0]] + rest_new.skip(1));
                    }
                }
                proof {
                    j = j + 1;
                }
            },
            None => {
                proof {
                    assert(s@.skip(j).len() == 0);
                    assert(spec_split_commas(s@.skip(j)) =~= seq![Seq::<char>::empty()]);
                }
                let ghost curv = cur@;
                let ghost outv = out@.map_values(|t: String| t@);
                out.push(cur);
                proof {
                    let rest = spec_split_commas(s@.skip(j));
                    assert(curv + rest[0] =~= curv);
                    assert(rest.skip(1) =~= Seq::<Seq<char>>::empty());
                    assert(out@.map_values(|t: String| t@) =~= outv.push(curv));
                    assert(outv + seq![curv + rest[0]] + rest.skip(1) =~~= outv.push(curv));
                }
                return out;
            },
        }
    }
}

/// Reads digits from the rest of `it`, continuing from the digits `pre`
/// already read into `acc`; `tail` names what is left of the iterator.
fn parse_digits_rest<'a>(
    it: std::str::Chars<'a>,
    acc: u64,
    started: bool,
    Ghost(pre): Ghost<Seq<char>>,
    Ghost(tail): Ghost<Seq<char>>,
) -> (r: Option<u64>)
    requires
        spec_all_digits(pre),
        spec_digits_val(pre) == acc,
        started == (pre.len() > 0),
        it.remaining() == tail,
    ensures
        r == spec_digits_result(pre + tail),
{
    let mut it = it;
    let mut a = acc;
    let mut got = started;
    let ghost total = pre + tail;
    let ghost mut j: int = 0;
    proof {
        assert(tail.skip(0) =~= tail);
        assert(total.take(pre.len() as int) =~= pre);
    }
    loop
        invariant
            0 <= j <= tail.len(),
            it.remaining() == tail.skip(j),
            total == pre + tail,
            spec_all_digits(total.take(pre.len() + j)),
            spec_digits_val(total.take(pre.len() + j)) == a,
            got == (pre.len() + j > 0),
        decreases tail.len() - j,
    {
        let ghost cur = total.take(pre.len() + j);
        proof {
            assert(total =~= cur + tail.skip(j));
        }
        let c = it.next();
        match c {
            Some(ch) => {
                proof {
                    assert(tail.skip(j).len() > 0);
                    assert(tail.skip(j)[0] == tail[j]);
                    assert(tail.skip(j).drop_first() =~= tail.skip(j + 1));
                    assert(ch == tail[j]);
                    assert(total[cur.len() as int] == ch);
                }
                let u = ch as u32;
                if !(48 <= u && u <= 57) {
                    proof {
                        assert(!spec_is_digit(total[cur.len() as int]));
                        assert(!spec_all_digits(total));
                    }
                    return None;
                }
                let d: u64 = (u - 48) as u64;
                let ghost cur2 = total.take(pre.len() + j + 1);
                proof {
                    assert(cur2.drop_last() =~= cur);
                    assert(cur2.last() == ch);
                    assert(spec_digits_val(cur2) == spec_digits_val(cur) * 10 + spec_digit_val(
                        ch,
                    ));
                }
                let next = a.checked_mul(10);
                let overflow: bool = match next {
                    Some(m) => {
                        match m.checked_add(d) {
                            Some(v) => {
                                a = v;
                                false
                            },
                            None => true,
                        }
                    },
                    None => {
                        proof {
                            lemma_digits_val_nonneg(cur);
                        }
                        true
                    },
                };
                if overflow {
                    proof {
                        assert(spec_digits_val(cur2) > u64::MAX);
                        if spec_all_digits(total) {
                            lemma_digits_val_prefix(total, pre.len() + j + 1);
                        }
                    }
                    return None;
                }
                got = true;
                proof {
                    j = j + 1;
                }
            },
            None => {
                proof {
                    assert(tail.skip(j).len() == 0);
                    assert(j == tail.len());
                    assert(cur =~= total);
                }
                if !got {
                    proof {
                        assert(total.len() == 0);
                    }
                    return None;
                }
                return Some(a);
            },
        }
    }
}

/// Parses `s` as a `u64`, as the standard library's string parse does.
pub fn parse_u64(s: &str) -> (r: Option<u64>)
    ensures
        r == spec_parse_u64(s@),
{
    let mut it = s.chars();
    let first = it.next();
    match first {
        None => {
            assert(s@.len() == 0);
            None
        },
        Some(c) => {
            proof {
                assert(s@[0] == c);
                assert(s@.drop_first() =~= s@.skip(1));
                assert(it.remaining() == s@.skip(1));
            }
            if c == '+' {
                let r = parse_digits_rest(
                    it,
                    0,
                    false,
                    Ghost(Seq::<char>::empty()),
                    Ghost(s@.skip(1)),
                );
                proof {
                    assert(Seq::<char>::empty() + s@.skip(1) =~= s@.skip(1));
                }
                r
            } else {
                let u = c as u32;
                if 48 <= u && u <= 57 {
                    let d: u64 = (u - 48) as u64;
                    let ghost pc: Seq<char> = seq![c];
                    proof {
                        assert(pc.drop_last() =~= Seq::<char>::empty());
                        assert(pc.last() == c);
                        assert(spec_digits_val(Seq::<char>::empty()) == 0);
                        assert(spec_digits_val(pc) == spec_digit_val(c));
                        assert(spec_digits_val(pc) == d);
                    }
                    let r = parse_digits_rest(it, d, true, Ghost(pc), Ghost(s@.skip(1)));
                    proof {
                        assert(pc + s@.skip(1) =~= s@);
                    }
                    r
                } else {
                    proof {
                        assert(!spec_is_digit(s@[0]));
                        assert(!spec_all_digits(s@));
                    }
                    None
                }
            }
        },
    }
}

/// Turns the magnitude a digit parse yields into a non-negative `i64`.
fn mag_to_i64(m: Option<u64>, Ghost(d): Ghost<Seq<char>>) -> (r: Option<i64>)
    requires
        m == spec_digits_result(d),
    ensures
        r == (if d.len() > 0 && spec_all_digits(d) && spec_digits_val(d) <= i64::MAX {
            Some(spec_digits_val(d) as i64)
        } else {
            None::<i64>
        }),
{
    match m {
        None => {
            proof {
                if d.len() > 0 && spec_all_digits(d) {
                    lemma_digits_val_nonneg(d);
                }
            }
            None
        },
        Some(mag) => {
            proof {
                lemma_digits_val_nonneg(d);
            }
            if mag <= 0x7fff_ffff_ffff_ffffu64 {
                Some(mag as i64)
            } else {
                None
            }
        },
    }
}

/// Parses `s` as an `i64`, as the standard library's string parse does.
pub fn parse_i64(s: &str) -> (r: Option<i64>)
    ensures
        r == spec_parse_i64(s@),
{
    let mut it = s.chars();
    let first = it.next();
    match first {
        None => {
            assert(s@.len() == 0);
            None
        },
        Some(c) => {
            proof {
                assert(s@[0] == c);
                assert(s@.drop_first() =~= s@.skip(1));
                assert(it.remaining() == s@.skip(1));
            }
            if c == '-' {
                let m = parse_digits_rest(
                    it,
                    0,
                    false,
                    Ghost(Seq::<char>::empty()),
                    Ghost(s@.skip(1)),
                );
                proof {
                    assert(Seq::<char>::empty() + s@.skip(1) =~= s@.skip(1));
                }
                match m {
                    None => {
                        proof {
                            let d = s@.skip(1);
                            if d.len() > 0 && spec_all_digits(d) {
                                lemma_digits_val_nonneg(d);
                            }
                        }
                        None
                    },
                    Some(mag) => {
                        proof {
                            lemma_digits_val_nonneg(s@.skip(1));
                        }
                        if mag <= 0x7fff_ffff_ffff_ffffu64 {
                            Some((-(mag as i64)))
                        } else if mag == 0x8000_0000_0000_0000u64 {
                            Some(i64::MIN)
                        } else {
                            None
                        }
                    },
                }
            } else if c == '+' {
                let m = parse_digits_rest(
                    it,
                    0,
                    false,
                    Ghost(Seq::<char>::empty()),
                    Ghost(s@.skip(1)),
                );
                proof {
                    assert(Seq::<char>::empty() + s@.skip(1) =~= s@.skip(1));
                }
                mag_to_i64(m, Ghost(s@.skip(1)))
            } else {
                let u = c as u32;
                if 48 <= u && u <= 57 {
                    let d: u64 = (u - 48) as u64;
                    let ghost pc: Seq<char> = seq![c];
                    proof {
                        assert(pc.drop_last() =~= Seq::<char>::empty());
                        assert(pc.last() == c);
                        assert(spec_digits_val(Seq::<char>::empty()) == 0);
                        assert(spec_digits_val(pc) == spec_digit_val(c));
                        assert(spec_digits_val(pc) == d);
                    }
                    let m = parse_digits_rest(it, d, true, Ghost(pc), Ghost(s@.skip(1)));
                    proof {
                        assert(pc + s@.skip(1) =~= s@);
                    }
                    mag_to_i64(m, Ghost(s@))
                } else {
                    proof {
                        assert(!spec_is_digit(s@[0]));
                        assert(!spec_all_digits(s@));
                    }
                    None
                }
            }
        },
    }
}

/// Parses `s` as a `bool`: exactly `true` or `false`.
pub fn parse_bool(s: &str) -> (r: Option<bool>)
    ensures
        r == spec_parse_bool(s@),
{
    if str_eq(s, "true") {
        Some(true)
    } else if str_eq(s, "false") {
        Some(false)
    } else {
        None
    }
}


} // verus!
