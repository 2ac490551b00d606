//! Decimal rendering and parsing of subject identifiers.
//!
//! Session tokens carry the subject as a decimal string; these functions are
//! the verified bridge between identifiers and that textual form, with a
//! proved round trip.
use vstd::prelude::*;
use vstd::arithmetic::div_mod::{lemma_fundamental_div_mod, lemma_div_decreases};
use vstd::string::{StrSliceExecFns, StringExecFns};

verus! {

/// A decimal digit character.
pub open spec fn is_digit(c: char) -> bool {
    '0' <= c && c <= '9'
}

/// The numeric value of a digit character.
pub open spec fn digit_val(c: char) -> nat
    recommends
        is_digit(c),
{
    (c as int - '0' as int) as nat
}

/// The digit character for a value below ten.
pub open spec fn digit_char(d: nat) -> char
    recommends
        d < 10,
{
    if d == 0 {
        '0'
    } else if d == 1 {
        '1'
    } else if d == 2 {
        '2'
    } else if d == 3 {
        '3'
    } else if d == 4 {
        '4'
    } else if d == 5 {
        '5'
    } else if d == 6 {
        '6'
    } else if d == 7 {
        '7'
    } else if d == 8 {
        '8'
    } else {
        '9'
    }
}

/// The canonical decimal rendering of a number: no sign, no leading zeros
/// (except for zero itself).
pub open spec fn dec_rep(n: nat) -> Seq<char>
    decreases n,
{
    if n < 10 {
        seq![digit_char(n)]
    } else {
        dec_rep(n / 10).push(digit_char(n % 10))
    }
}

/// All characters of the sequence are decimal digits.
pub open spec fn all_digits(s: Seq<char>) -> bool {
    forall|i: int| 0 <= i < s.len() ==> is_digit(#[trigger] s[i])
}

/// The numeric value of a digit sequence (most significant digit first).
pub open spec fn seq_val(s: Seq<char>) -> nat
    decreases s.len(),
{
    if s.len() == 0 {
        0
    } else {
        seq_val(s.drop_last()) * 10 + digit_val(s.last())
    }
}

/// A sequence parses as an identifier iff it is a non-empty run of digits
/// whose value fits the identifier type.
pub open spec fn parses_as_u64(s: Seq<char>) -> bool {
    s.len() >= 1 && all_digits(s) && seq_val(s) <= u64::MAX
}

proof fn lemma_digit_char_val(d: nat)
    requires
        d < 10,
    ensures
        is_digit(digit_char(d)),
        digit_val(digit_char(d)) == d,
{
}

/// The canonical rendering is a non-empty digit run whose value is the
/// rendered number; together with `seq_val` this makes `dec_rep` injective.
pub proof fn lemma_dec_rep_val(n: nat)
    ensures
        dec_rep(n).len() >= 1,
        all_digits(dec_rep(n)),
        seq_val(dec_rep(n)) == n,
    decreases n,
{
    if n < 10 {
        lemma_digit_char_val(n);
        let s = dec_rep(n);
        assert(s =~= seq![digit_char(n)]);
        assert(s.drop_last() =~= Seq::<char>::empty());
        assert(s.last() == digit_char(n));
        assert(seq_val(s) == seq_val(s.drop_last()) * 10 + digit_val(s.last()));
        assert(seq_val(s.drop_last()) == 0);
    } else {
        lemma_dec_rep_val(n / 10);
        lemma_digit_char_val(n % 10);
        lemma_fundamental_div_mod(n as int, 10);
        let s = dec_rep(n);
        assert(s == dec_rep(n / 10).push(digit_char(n % 10)));
        assert(s.len() == dec_rep(n / 10).len() + 1);
        assert(s.drop_last() =~= dec_rep(n / 10));
        assert(s.last() == digit_char(n % 10));
        assert(seq_val(s) == seq_val(s.drop_last()) * 10 + digit_val(s.last()));
        assert(seq_val(s) == (n / 10) * 10 + n % 10);
    }
}

/// Prefix values never exceed the value of the whole digit run.
proof fn lemma_seq_val_prefix(s: Seq<char>, i: int)
    requires
        0 <= i <= s.len(),
    ensures
        seq_val(s.take(i)) <= seq_val(s),
    decreases s.len() - i,
{
    if i < s.len() {
        lemma_seq_val_prefix(s, i + 1);
        assert(s.take(i + 1).drop_last() =~= s.take(i));
        assert(s.take(i + 1).last() == s[i]);
        assert(seq_val(s.take(i)) <= seq_val(s.take(i)) * 10 + digit_val(s[i])) by (nonlinear_arith);
    } else {
        assert(s.take(i) =~= s);
    }
}

/// Renders an identifier as its canonical decimal string.
pub fn u64_to_string(n: u64) -> (r: String)
    ensures
        r@ == dec_rep(n as nat),
{
    let mut digits: Vec<u64> = Vec::new();
    let mut m: u64 = n;
    digits.push(m % 10);
    m = m / 10;
    while m > 0
        invariant
            digits@.len() >= 1,
            forall|k: int| 0 <= k < digits@.len() ==> #[trigger] digits@[k] < 10,
            dec_rep(n as nat) =~= (if m > 0 {
                dec_rep(m as nat)
            } else {
                Seq::<char>::empty()
            }) + rev_chars(digits@),
        decreases m,
    {
        proof {
            lemma_div_decreases(m as int, 10);
        }
        let d: u64 = m % 10;
        let next: u64 = m / 10;
        proof {
            if m >= 10 {
                assert(dec_rep(m as nat) =~= dec_rep((m as nat) / 10).push(
                    digit_char((m as nat) % 10),
                ));
            }
            assert(rev_chars(digits@.push(d)) =~= seq![digit_char(d as nat)] + rev_chars(
                digits@,
            ));
        }
        digits.push(d);
        m = next;
    }
    let mut s = String::new();
    let mut i: usize = digits.len();
    while i > 0
        invariant
            i <= digits@.len(),
            forall|k: int| 0 <= k < digits@.len() ==> #[trigger] digits@[k] < 10,
            s@ =~= rev_chars(digits@).take(digits@.len() - i),
        decreases i,
    {
        i = i - 1;
        let ds = digit_str(digits[i]);
        s.append(ds);
        proof {
            let full = rev_chars(digits@);
            assert(full.take(digits@.len() - i) =~= full.take(digits@.len() - (i + 1)).push(
                full[digits@.len() - i - 1],
            ));
        }
    }
    proof {
        assert(rev_chars(digits@).take(digits@.len() as int) =~= rev_chars(digits@));
        assert(s@ =~= dec_rep(n as nat));
    }
    s
}

/// The digit sequence read back to front, as characters: the rendering order
/// of digits collected least-significant first.
spec fn rev_chars(ds: Seq<u64>) -> Seq<char> {
    Seq::new(ds.len(), |i: int| digit_char(ds[ds.len() - 1 - i] as nat))
}

/// The one-character string for a digit value.
fn digit_str(d: u64) -> (r: &'static str)
    requires
        d < 10,
    ensures
        r@ =~= seq![digit_char(d as nat)],
{
    proof {
        reveal_strlit("0");
        reveal_strlit("1");
        reveal_strlit("2");
        reveal_strlit("3");
        reveal_strlit("4");
        reveal_strlit("5");
        reveal_strlit("6");
        reveal_strlit("7");
        reveal_strlit("8");
        reveal_strlit("9");
    }
    if d == 0 {
        "0"
    } else if d == 1 {
        "1"
    } else if d == 2 {
        "2"
    } else if d == 3 {
        "3"
    } else if d == 4 {
        "4"
    } else if d == 5 {
        "5"
    } else if d == 6 {
        "6"
    } else if d == 7 {
        "7"
    } else if d == 8 {
        "8"
    } else {
        "9"
    }
}

/// Parses a decimal string back into an identifier: accepts exactly the
/// non-empty digit runs whose value fits, and returns that value.
pub fn parse_u64(s: &str) -> (r: Option<u64>)
    ensures
        r matches Some(v) ==> parses_as_u64(s@) && seq_val(s@) == v as nat,
        parses_as_u64(s@) ==> (r matches Some(v) && v as nat == seq_val(s@)),
{
    let n = s.unicode_len();
    if n == 0 {
        return None;
    }
    let mut acc: u64 = 0;
    let mut i: usize = 0;
    while i < n
        invariant
            n == s@.len(),
            0 <= i <= n,
            all_digits(s@.take(i as int)),
            acc as nat == seq_val(s@.take(i as int)),
        decreases n - i,
    {
        let c = s.get_char(i);
        let cv: u32 = c as u32;
        if cv < 48 || cv > 57 {
            proof {
                assert(s@.take(i as int + 1)[i as int] == c);
                assert(!all_digits(s@));
            }
            return None;
        }
        let d: u64 = digit_value(c);
        proof {
            assert(s@.take(i as int + 1).drop_last() =~= s@.take(i as int));
            assert(s@.take(i as int + 1).last() == s@[i as int]);
        }
        if acc > (u64::MAX - d) / 10 {
            proof {
                lemma_fundamental_div_mod((u64::MAX - d) as int, 10);
                assert((acc as nat) * 10 + d as nat > u64::MAX) by (nonlinear_arith)
                    requires
                        acc as nat > ((u64::MAX - d) as nat) / 10,
                        d < 10,
                        (u64::MAX - d) as nat == 10 * (((u64::MAX - d) as nat) / 10) + (
                        (u64::MAX - d) as nat) % 10,
                        ((u64::MAX - d) as nat) % 10 < 10,
                ;
                if parses_as_u64(s@) {
                    lemma_seq_val_prefix(s@, i as int + 1);
                }
            }
            return None;
        }
        proof {
            lemma_fundamental_div_mod((u64::MAX - d) as int, 10);
            assert((acc as nat) * 10 + d as nat <= u64::MAX) by (nonlinear_arith)
                requires
                    acc as nat <= ((u64::MAX - d) as nat) / 10,
                    d < 10,
                    (u64::MAX - d) as nat == 10 * (((u64::MAX - d) as nat) / 10) + ((u64::MAX
                        - d) as nat) % 10,
                    0 <= ((u64::MAX - d) as nat) % 10,
            ;
        }
        acc = acc * 10 + d;
        i = i + 1;
    }
    proof {
        assert(s@.take(n as int) =~= s@);
    }
    Some(acc)
}

/// The numeric value of a digit character.
fn digit_value(c: char) -> (d: u64)
    requires
        is_digit(c),
    ensures
        d < 10,
        d as nat == digit_val(c),
{
    ((c as u32) - 48) as u64
}

/// Law: rendering then parsing an identifier gives it back, so distinct
/// identifiers always render to distinct subject strings.
pub proof fn lemma_dec_roundtrip(a: u64, b: u64)
    ensures
        parses_as_u64(dec_rep(a as nat)),
        seq_val(dec_rep(a as nat)) == a as nat,
        dec_rep(a as nat) == dec_rep(b as nat) ==> a == b,
{
    lemma_dec_rep_val(a as nat);
    lemma_dec_rep_val(b as nat);
}

} // verus!
