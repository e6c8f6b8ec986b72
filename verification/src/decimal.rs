//! Decimal numerals over character sequences: the value of a digit string,
//! the canonical rendering of a number, and verified helpers to scan and
//! append such numerals.

use vstd::prelude::*;
use vstd::string::StrSliceExecFns;
use vstd::string::StringExecFns;

verus! {

/// Whether a character is an ASCII decimal digit.
pub open spec fn is_dec_digit(c: char) -> bool {
    c == '0' || c == '1' || c == '2' || c == '3' || c == '4' || c == '5' || c == '6' || c == '7'
        || c == '8' || c == '9'
}

/// The value of a decimal digit character (10 for a non-digit).
pub open spec fn digit_val(c: char) -> nat {
    if c == '0' {
        0
    } else if c == '1' {
        1
    } else if c == '2' {
        2
    } else if c == '3' {
        3
    } else if c == '4' {
        4
    } else if c == '5' {
        5
    } else if c == '6' {
        6
    } else if c == '7' {
        7
    } else if c == '8' {
        8
    } else if c == '9' {
        9
    } else {
        10
    }
}

/// The decimal digit character with the given value ('0' past 9).
pub open spec fn digit_char(d: nat) -> char {
    if d == 0 {
        '0'
    } else if d == 1 {
        '1'
    } else if d == 2 {
        '2'
    } else if d == 3 {
        '3'
    } else if d == 4 {
        '4'
    } else if d == 5 {
        '5'
    } else if d == 6 {
        '6'
    } else if d == 7 {
        '7'
    } else if d == 8 {
        '8'
    } else {
        '9'
    }
}

/// Whether every character of `s` is a decimal digit.
pub open spec fn all_dec_digits(s: Seq<char>) -> bool {
    forall|j: int| 0 <= j < s.len() ==> is_dec_digit(#[trigger] s[j])
}

/// The number a digit string denotes, most significant digit first.
pub open spec fn dec_val(s: Seq<char>) -> nat
    decreases s.len(),
{
    if s.len() == 0 {
        0
    } else {
        dec_val(s.drop_last()) * 10 + digit_val(s.last())
    }
}

/// The canonical decimal rendering of a number: no leading zero except
/// for the single digit of zero itself.
pub open spec fn dec_render(n: nat) -> Seq<char>
    decreases n,
{
    if n < 10 {
        seq![digit_char(n)]
    } else {
        dec_render(n / 10) + seq![digit_char(n % 10)]
    }
}

/// The end of the run of digits that starts at `from`: the first index at
/// or past `from` that holds a non-digit, or the length of `s`.
pub open spec fn digit_run_end(s: Seq<char>, from: int) -> int
    decreases s.len() - from,
{
    if from < 0 || from >= s.len() {
        s.len() as int
    } else if !is_dec_digit(s[from]) {
        from
    } else {
        digit_run_end(s, from + 1)
    }
}

/// A numeral's value clamped just past the 64-bit range, so that "too
/// large for u64" is still visible in the clamped value.
pub open spec fn capped_u64(n: nat) -> nat {
    if n > 0xFFFF_FFFF_FFFF_FFFF {
        0x1_0000_0000_0000_0000
    } else {
        n
    }
}

/// Appending a digit multiplies the numeral's value by ten and adds it.
pub proof fn lemma_dec_val_push(s: Seq<char>, c: char)
    ensures
        dec_val(s.push(c)) == dec_val(s) * 10 + digit_val(c),
{
    assert(s.push(c).drop_last() =~= s);
}

/// What `digit_run_end` returns: the bounds of the digit run, the digits
/// inside it, and the non-digit (or the end of `s`) just past it.
pub proof fn lemma_digit_run_end_bounds(s: Seq<char>, from: int)
    requires
        0 <= from <= s.len(),
    ensures
        from <= digit_run_end(s, from) <= s.len(),
        forall|j: int| from <= j < digit_run_end(s, from) ==> is_dec_digit(#[trigger] s[j]),
        digit_run_end(s, from) == s.len() || !is_dec_digit(s[digit_run_end(s, from)]),
    decreases s.len() - from,
{
    if from < s.len() && is_dec_digit(s[from]) {
        lemma_digit_run_end_bounds(s, from + 1);
    }
}

/// The digit run is determined: any index bounding a digit run that ends
/// at a non-digit or at the end of `s` is `digit_run_end`.
pub proof fn lemma_digit_run_end_unique(s: Seq<char>, from: int, j: int)
    requires
        0 <= from <= j <= s.len(),
        forall|k: int| from <= k < j ==> is_dec_digit(#[trigger] s[k]),
        j == s.len() || !is_dec_digit(s[j]),
    ensures
        digit_run_end(s, from) == j,
    decreases j - from,
{
    if from < j {
        assert(is_dec_digit(s[from]));
        lemma_digit_run_end_unique(s, from + 1, j);
    }
}

/// The canonical rendering consists of digits only.
pub proof fn lemma_dec_render_digits(n: nat)
    ensures
        dec_render(n).len() >= 1,
        all_dec_digits(dec_render(n)),
    decreases n,
{
    if n >= 10 {
        lemma_dec_render_digits(n / 10);
    }
}

/// Decimal round trip: the canonical rendering of a number denotes that
/// number.
pub proof fn lemma_dec_render_val(n: nat)
    ensures
        dec_val(dec_render(n)) == n,
    decreases n,
{
    if n < 10 {
        let s = seq![digit_char(n)];
        assert(s.len() == 1);
        assert(s.drop_last() =~= Seq::<char>::empty());
        assert(s.last() == digit_char(n));
        assert(dec_val(Seq::<char>::empty()) == 0);
        assert(dec_val(s) == dec_val(s.drop_last()) * 10 + digit_val(s.last()));
        assert(dec_val(s) == digit_val(digit_char(n)));
        assert(digit_val(digit_char(n)) == n);
    } else {
        lemma_dec_render_val(n / 10);
        assert(dec_render(n / 10) + seq![digit_char(n % 10)] =~= dec_render(n / 10).push(
            digit_char(n % 10),
        ));
        lemma_dec_val_push(dec_render(n / 10), digit_char(n % 10));
        assert(digit_val(digit_char(n % 10)) == n % 10);
        assert(dec_val(dec_render(n)) == (n / 10) * 10 + n % 10);
    }
}

/// The k-th power of ten.
pub open spec fn pow10(k: nat) -> nat
    decreases k,
{
    if k == 0 {
        1
    } else {
        10 * pow10((k - 1) as nat)
    }
}

/// A number below the k-th power of ten renders in at most k digits.
pub proof fn lemma_dec_render_len(n: nat, k: nat)
    requires
        k >= 1,
        n < pow10(k),
    ensures
        dec_render(n).len() <= k,
    decreases k,
{
    if n >= 10 {
        assert(pow10(k) == 10 * pow10((k - 1) as nat));
        assert(n / 10 < pow10((k - 1) as nat)) by (nonlinear_arith)
            requires
                n < 10 * pow10((k - 1) as nat),
        ;
        assert(pow10(1) == 10) by {
            reveal_with_fuel(pow10, 2);
        }
        if k == 1 {
            assert(false);
        }
        lemma_dec_render_len(n / 10, (k - 1) as nat);
    }
}

/// The value of a decimal digit character, or nothing for any other
/// character.
pub fn char_digit(c: char) -> (r: Option<u8>)
    ensures
        r is Some <==> is_dec_digit(c),
        r is Some ==> r->0 == digit_val(c) && r->0 < 10,
{
    match c {
        '0' => Some(0),
        '1' => Some(1),
        '2' => Some(2),
        '3' => Some(3),
        '4' => Some(4),
        '5' => Some(5),
        '6' => Some(6),
        '7' => Some(7),
        '8' => Some(8),
        '9' => Some(9),
        _ => None,
    }
}

/// Scans the run of digits that starts at `from` and accumulates its
/// value, clamped just past the 64-bit range so that overflow is visible.
pub(crate) fn scan_digits(s: &str, from: usize) -> (r: (usize, u128))
    requires
        from <= s@.len(),
    ensures
        r.0 == digit_run_end(s@, from as int),
        r.1 == capped_u64(dec_val(s@.subrange(from as int, digit_run_end(s@, from as int)))),
{
    let len = s.unicode_len();
    let mut i = from;
    let mut acc: u128 = 0;
    proof {
        assert(s@.subrange(from as int, from as int) =~= Seq::<char>::empty());
    }
    loop
        invariant
            from <= i <= len,
            len == s@.len(),
            forall|j: int| from <= j < i ==> is_dec_digit(#[trigger] s@[j]),
            acc == capped_u64(dec_val(s@.subrange(from as int, i as int))),
            acc <= 0x1_0000_0000_0000_0000,
        ensures
            i == digit_run_end(s@, from as int),
            acc == capped_u64(dec_val(s@.subrange(from as int, i as int))),
        decreases len - i,
    {
        if i == len {
            proof {
                lemma_digit_run_end_unique(s@, from as int, i as int);
            }
            break;
        }
        let c = s.get_char(i);
        match char_digit(c) {
            Some(d) => {
                let ghost prefix = s@.subrange(from as int, i as int);
                let ghost v = dec_val(prefix);
                let raw: u128 = acc * 10 + (d as u128);
                proof {
                    assert(s@.subrange(from as int, i + 1) =~= prefix.push(s@[i as int]));
                    lemma_dec_val_push(prefix, s@[i as int]);
                    if v > 0xFFFF_FFFF_FFFF_FFFF {
                        assert(v * 10 + digit_val(s@[i as int]) > 0xFFFF_FFFF_FFFF_FFFF)
                            by (nonlinear_arith)
                            requires
                                v > 0xFFFF_FFFF_FFFF_FFFF,
                        ;
                    }
                }
                acc = if raw > 0xFFFF_FFFF_FFFF_FFFF {
                    0x1_0000_0000_0000_0000
                } else {
                    raw
                };
                i = i + 1;
            },
            None => {
                proof {
                    lemma_digit_run_end_unique(s@, from as int, i as int);
                }
                break;
            },
        }
    }
    (i, acc)
}

/// Appends one decimal digit character to `out`.
fn append_digit(out: &mut String, d: u8)
    requires
        d < 10,
    ensures
        final(out)@ == old(out)@ + seq![digit_char(d as nat)],
{
    match d {
        0 => {
            out.append("0");
            proof {
                reveal_strlit("0");
                assert("0"@ =~= seq!['0']);
            }
        },
        1 => {
            out.append("1");
            proof {
                reveal_strlit("1");
                assert("1"@ =~= seq!['1']);
            }
        },
        2 => {
            out.append("2");
            proof {
                reveal_strlit("2");
                assert("2"@ =~= seq!['2']);
            }
        },
        3 => {
            out.append("3");
            proof {
                reveal_strlit("3");
                assert("3"@ =~= seq!['3']);
            }
        },
        4 => {
            out.append("4");
            proof {
                reveal_strlit("4");
                assert("4"@ =~= seq!['4']);
            }
        },
        5 => {
            out.append("5");
            proof {
                reveal_strlit("5");
                assert("5"@ =~= seq!['5']);
            }
        },
        6 => {
            out.append("6");
            proof {
                reveal_strlit("6");
                assert("6"@ =~= seq!['6']);
            }
        },
        7 => {
            out.append("7");
            proof {
                reveal_strlit("7");
                assert("7"@ =~= seq!['7']);
            }
        },
        8 => {
            out.append("8");
            proof {
                reveal_strlit("8");
                assert("8"@ =~= seq!['8']);
            }
        },
        _ => {
            out.append("9");
            proof {
                reveal_strlit("9");
                assert("9"@ =~= seq!['9']);
            }
        },
    }
}

/// Appends the canonical decimal rendering of `n` to `out`.
pub(crate) fn append_dec_u64(out: &mut String, n: u64)
    ensures
        final(out)@ == old(out)@ + dec_render(n as nat),
    decreases n,
{
    if n < 10 {
        append_digit(out, n as u8);
    } else {
        append_dec_u64(out, n / 10);
        append_digit(out, (n % 10) as u8);
    }
}

} // verus!
