//! Decimal text: parsing the page-count and page-index readouts, and
//! rendering the zero-padded page numbers that image files are named by.

use vstd::prelude::*;

verus! {

/// A decimal digit character.
pub open spec fn is_digit(c: char) -> bool {
    48 <= c as int <= 57
}

/// The numeric value of a decimal digit character.
pub open spec fn digit_val(c: char) -> int {
    c as int - 48
}

/// Every character of `s` is a decimal digit.
pub open spec fn all_digits(s: Seq<char>) -> bool {
    forall|i: int| 0 <= i < s.len() ==> is_digit(#[trigger] s[i])
}

/// The number denoted by a sequence of decimal digit characters, most
/// significant first; the empty sequence denotes zero.
pub open spec fn dec_val(s: Seq<char>) -> int
    decreases s.len(),
{
    if s.len() == 0 {
        0
    } else {
        dec_val(s.drop_last()) * 10 + digit_val(s.last())
    }
}

/// The character for one decimal digit.
pub open spec fn digit_char(d: int) -> char {
    if d == 0 {
        '0'
    } else if d == 1 {
        '1'
    } else if d == 2 {
        '2'
    } else if d == 3 {
        '3'
    } else if d == 4 {
        '4'
    } else if d == 5 {
        '5'
    } else if d == 6 {
        '6'
    } else if d == 7 {
        '7'
    } else if d == 8 {
        '8'
    } else {
        '9'
    }
}

/// The decimal rendering of `n`, most significant digit first, without
/// leading zeros (a single `'0'` for zero itself).
pub open spec fn dec_digits(n: nat) -> Seq<char>
    decreases n,
{
    if n < 10 {
        seq![digit_char(n as int)]
    } else {
        dec_digits(n / 10) + seq![digit_char((n % 10) as int)]
    }
}

/// `s` left-padded with `'0'` to at least five characters.
pub open spec fn zero_pad5(s: Seq<char>) -> Seq<char> {
    if s.len() >= 5 {
        s
    } else {
        Seq::new((5 - s.len()) as nat, |i: int| '0') + s
    }
}

/// The file name an image receives from its 1-based page number: the
/// number zero-padded to five digits, then `.png`.
pub open spec fn page_file_name_spec(n: nat) -> Seq<char> {
    zero_pad5(dec_digits(n)) + seq!['.', 'p', 'n', 'g']
}

/// The digit count of a decimal rendering grows with its magnitude.
proof fn lemma_dec_digits_len(n: nat)
    ensures
        dec_digits(n).len() >= 1,
        n < 10 ==> dec_digits(n).len() == 1,
        10 <= n < 100 ==> dec_digits(n).len() == 2,
        100 <= n < 1000 ==> dec_digits(n).len() == 3,
        1000 <= n < 10000 ==> dec_digits(n).len() == 4,
        10000 <= n ==> dec_digits(n).len() >= 5,
    decreases n,
{
    if n >= 10 {
        lemma_dec_digits_len(n / 10);
    }
}

/// A digit string denotes a non-negative number.
proof fn lemma_dec_val_nonneg(s: Seq<char>)
    requires
        all_digits(s),
    ensures
        dec_val(s) >= 0,
    decreases s.len(),
{
    if s.len() > 0 {
        assert forall|i: int| 0 <= i < s.drop_last().len() implies is_digit(
            #[trigger] s.drop_last()[i],
        ) by {
            assert(s.drop_last()[i] == s[i]);
        }
        lemma_dec_val_nonneg(s.drop_last());
    }
}

/// A prefix of a digit string never denotes more than the whole string.
proof fn lemma_dec_val_take_le(s: Seq<char>, k: int)
    requires
        all_digits(s),
        0 <= k <= s.len(),
    ensures
        dec_val(s.take(k)) <= dec_val(s),
    decreases s.len() - k,
{
    if k < s.len() {
        assert(s.take(k + 1).drop_last() =~= s.take(k));
        assert(s.take(k + 1).last() == s[k]);
        assert forall|i: int| 0 <= i < s.take(k).len() implies is_digit(
            #[trigger] s.take(k)[i],
        ) by {
            assert(s.take(k)[i] == s[i]);
        }
        lemma_dec_val_nonneg(s.take(k));
        lemma_dec_val_take_le(s, k + 1);
    } else {
        assert(s.take(k) =~= s);
    }
}

/// A digit's character denotes the digit.
proof fn lemma_digit_char_val(d: int)
    requires
        0 <= d < 10,
    ensures
        digit_val(digit_char(d)) == d,
        is_digit(digit_char(d)),
{
}

/// A decimal rendering consists of digits and denotes the number it was
/// made from.
proof fn lemma_dec_digits_value(n: nat)
    ensures
        all_digits(dec_digits(n)),
        dec_val(dec_digits(n)) == n,
    decreases n,
{
    reveal_with_fuel(dec_val, 3);
    if n < 10 {
        lemma_digit_char_val(n as int);
        assert(dec_digits(n).drop_last() =~= Seq::<char>::empty());
        assert(dec_digits(n).last() == digit_char(n as int));
    } else {
        lemma_dec_digits_value(n / 10);
        lemma_digit_char_val((n % 10) as int);
        assert(dec_digits(n).drop_last() =~= dec_digits(n / 10));
        assert(dec_digits(n).last() == digit_char((n % 10) as int));
        assert(n == n / 10 * 10 + n % 10) by (nonlinear_arith);
        assert forall|i: int| 0 <= i < dec_digits(n).len() implies is_digit(
            #[trigger] dec_digits(n)[i],
        ) by {
            if i < dec_digits(n / 10).len() {
                assert(dec_digits(n)[i] == dec_digits(n / 10)[i]);
            } else {
                assert(dec_digits(n)[i] == digit_char((n % 10) as int));
            }
        }
    }
}

/// Leading zeros do not change the number a digit string denotes.
proof fn lemma_dec_val_leading_zeros(k: nat, s: Seq<char>)
    ensures
        dec_val(Seq::new(k, |i: int| '0') + s) == dec_val(s),
    decreases s.len(),
{
    let z = Seq::new(k, |i: int| '0');
    if s.len() == 0 {
        assert(z + s =~= z);
        lemma_dec_val_zeros(k);
    } else {
        assert((z + s).drop_last() =~= z + s.drop_last());
        assert((z + s).last() == s.last());
        lemma_dec_val_leading_zeros(k, s.drop_last());
    }
}

/// A string of zeros denotes zero.
proof fn lemma_dec_val_zeros(k: nat)
    ensures
        dec_val(Seq::new(k, |i: int| '0')) == 0,
    decreases k,
{
    if k > 0 {
        assert(Seq::new(k, |i: int| '0').drop_last() =~= Seq::new(
            (k - 1) as nat,
            |i: int| '0',
        ));
        lemma_dec_val_zeros((k - 1) as nat);
    }
}

/// The padded digit block of a file name still denotes its page number.
proof fn lemma_zero_pad5_value(n: nat)
    ensures
        dec_val(zero_pad5(dec_digits(n))) == n,
{
    lemma_dec_digits_value(n);
    if dec_digits(n).len() < 5 {
        lemma_dec_val_leading_zeros((5 - dec_digits(n).len()) as nat, dec_digits(n));
    }
}

/// Distinct page numbers receive distinct file names: the numbering of a
/// chapter's images never makes two jobs write the same file.
pub proof fn lemma_file_names_distinct(m: nat, n: nat)
    requires
        m != n,
    ensures
        page_file_name_spec(m) != page_file_name_spec(n),
{
    if page_file_name_spec(m) == page_file_name_spec(n) {
        let a = zero_pad5(dec_digits(m));
        let b = zero_pad5(dec_digits(n));
        let suffix = seq!['.', 'p', 'n', 'g'];
        assert(page_file_name_spec(m) == a + suffix);
        assert(page_file_name_spec(n) == b + suffix);
        assert((a + suffix).len() == a.len() + 4);
        assert((b + suffix).len() == b.len() + 4);
        assert(a.len() == b.len());
        assert forall|i: int| 0 <= i < a.len() implies a[i] == b[i] by {
            assert((a + suffix)[i] == a[i]);
            assert((b + suffix)[i] == b[i]);
        }
        assert(a =~= b);
        lemma_zero_pad5_value(m);
        lemma_zero_pad5_value(n);
    }
}

/// Parses a decimal page readout. Succeeds exactly on non-empty strings of
/// decimal digits whose value fits in a `u32`, and then returns that value.
pub fn parse_u32(s: &str) -> (r: Option<u32>)
    ensures
        r is Some <==> (s@.len() > 0 && all_digits(s@) && dec_val(s@) <= u32::MAX),
        r matches Some(v) ==> v == dec_val(s@),
{
    let n = s.unicode_len();
    if n == 0 {
        return None;
    }
    let mut i: usize = 0;
    let mut acc: u64 = 0;
    while i < n
        invariant
            n == s@.len(),
            0 <= i <= n,
            all_digits(s@.take(i as int)),
            acc == dec_val(s@.take(i as int)),
            acc <= u32::MAX,
        decreases n - i,
    {
        let c = s.get_char(i);
        let cv = c as u32;
        if cv < 48 || cv > 57 {
            proof {
                assert(!is_digit(s@[i as int]));
            }
            return None;
        }
        let d = cv - 48;
        let next: u64 = acc * 10 + d as u64;
        proof {
            assert(s@.take(i as int + 1).drop_last() =~= s@.take(i as int));
            assert(s@.take(i as int + 1).last() == s@[i as int]);
            assert forall|j: int| 0 <= j < i as int + 1 implies is_digit(
                #[trigger] s@.take(i as int + 1)[j],
            ) by {
                assert(s@.take(i as int + 1)[j] == s@[j]);
            }
        }
        if next > u32::MAX as u64 {
            proof {
                if all_digits(s@) {
                    lemma_dec_val_take_le(s@, i as int + 1);
                }
            }
            return None;
        }
        acc = next;
        i = i + 1;
    }
    proof {
        assert(s@.take(n as int) =~= s@);
    }
    Some(acc as u32)
}

/// The string for one decimal digit.
fn digit_str(d: u64) -> (r: &'static str)
    requires
        d < 10,
    ensures
        r@ == seq![digit_char(d as int)],
{
    if d == 0 {
        proof {
            reveal_strlit("0");
            assert("0"@ =~= seq![digit_char(0)]);
        }
        return "0";
    }
    if d == 1 {
        proof {
            reveal_strlit("1");
            assert("1"@ =~= seq![digit_char(1)]);
        }
        return "1";
    }
    if d == 2 {
        proof {
            reveal_strlit("2");
            assert("2"@ =~= seq![digit_char(2)]);
        }
        return "2";
    }
    if d == 3 {
        proof {
            reveal_strlit("3");
            assert("3"@ =~= seq![digit_char(3)]);
        }
        return "3";
    }
    if d == 4 {
        proof {
            reveal_strlit("4");
            assert("4"@ =~= seq![digit_char(4)]);
        }
        return "4";
    }
    if d == 5 {
        proof {
            reveal_strlit("5");
            assert("5"@ =~= seq![digit_char(5)]);
        }
        return "5";
    }
    if d == 6 {
        proof {
            reveal_strlit("6");
            assert("6"@ =~= seq![digit_char(6)]);
        }
        return "6";
    }
    if d == 7 {
        proof {
            reveal_strlit("7");
            assert("7"@ =~= seq![digit_char(7)]);
        }
        return "7";
    }
    if d == 8 {
        proof {
            reveal_strlit("8");
            assert("8"@ =~= seq![digit_char(8)]);
        }
        return "8";
    }
    proof {
        reveal_strlit("9");
        assert("9"@ =~= seq![digit_char(9)]);
    }
    "9"
}

/// Appends the decimal rendering of `n` to `out`.
fn push_dec_digits(n: u64, out: &mut String)
    ensures
        final(out)@ == old(out)@ + dec_digits(n as nat),
    decreases n,
{
    if n >= 10 {
        push_dec_digits(n / 10, out);
    }
    out.append(digit_str(n % 10));
    proof {
        if n < 10 {
            assert(dec_digits(n as nat) =~= seq![digit_char(n as int)]);
        } else {
            assert(dec_digits(n as nat) =~= dec_digits((n / 10) as nat) + seq![
                digit_char((n % 10) as int),
            ]);
        }
        assert(out@ =~= old(out)@ + dec_digits(n as nat));
    }
}

/// The file name for the image at 1-based page number `n`: `n` zero-padded
/// to at least five digits, with the fixed `.png` suffix.
pub fn page_file_name(n: u64) -> (r: String)
    ensures
        r@ == page_file_name_spec(n as nat),
{
    let mut s = String::new();
    if n < 10 {
        s.append("0000");
    } else if n < 100 {
        s.append("000");
    } else if n < 1000 {
        s.append("00");
    } else if n < 10000 {
        s.append("0");
    }
    proof {
        reveal_strlit("0000");
        reveal_strlit("000");
        reveal_strlit("00");
        reveal_strlit("0");
        lemma_dec_digits_len(n as nat);
        if n < 10 {
            assert(s@ =~= Seq::new(4, |i: int| '0'));
        } else if n < 100 {
            assert(s@ =~= Seq::new(3, |i: int| '0'));
        } else if n < 1000 {
            assert(s@ =~= Seq::new(2, |i: int| '0'));
        } else if n < 10000 {
            assert(s@ =~= Seq::new(1, |i: int| '0'));
        } else {
            assert(s@ =~= Seq::<char>::empty());
        }
    }
    push_dec_digits(n, &mut s);
    s.append(".png");
    proof {
        reveal_strlit(".png");
        assert(".png"@ =~= seq!['.', 'p', 'n', 'g']);
        assert(s@ =~= page_file_name_spec(n as nat));
    }
    s
}

} // verus!
