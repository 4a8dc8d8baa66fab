use vstd::prelude::*;

verus! {

/// Whether `c` is an ASCII decimal digit.
pub open spec fn is_digit_char(c: char) -> bool {
    48 <= c as u32 <= 57
}

/// The numeric value of an ASCII decimal digit.
pub open spec fn digit_val(c: char) -> int {
    c as u32 - 48
}

/// Every character of `s` is an ASCII decimal digit.
pub open spec fn all_digits(s: Seq<char>) -> bool {
    forall|i: int| 0 <= i < s.len() ==> is_digit_char(#[trigger] s[i])
}

/// The value of a non-empty digit string read most-significant first.
pub open spec fn digits_value(s: Seq<char>) -> int
    decreases s.len(),
{
    if s.len() == 0 {
        0
    } else {
        digits_value(s.drop_last()) * 10 + digit_val(s.last())
    }
}

/// What `i32` parsing makes of a character sequence: an optional single
/// `+` or `-`, then at least one decimal digit and nothing else, with the
/// signed value within the range of `i32`.
pub open spec fn parse_decimal_i32(s: Seq<char>) -> Option<int> {
    let digits = if s.len() > 0 && (s[0] == '+' || s[0] == '-') {
        s.skip(1)
    } else {
        s
    };
    let negative = s.len() > 0 && s[0] == '-';
    if digits.len() == 0 || !all_digits(digits) {
        None
    } else {
        let v = if negative {
            -digits_value(digits)
        } else {
            digits_value(digits)
        };
        if i32::MIN <= v <= i32::MAX {
            Some(v)
        } else {
            None
        }
    }
}

/// The digit character for a value between 0 and 9.
pub open spec fn digit_char(d: int) -> char {
    if d == 0 {
        '0'
    } else if d == 1 {
        '1'
    } else if d == 2 {
        '2'
    } else if d == 3 {
        '3'
    } else if d == 4 {
        '4'
    } else if d == 5 {
        '5'
    } else if d == 6 {
        '6'
    } else if d == 7 {
        '7'
    } else if d == 8 {
        '8'
    } else {
        '9'
    }
}

/// The decimal rendering of a non-negative number, without sign or leading
/// zeros (the single digit `0` for zero).
pub open spec fn decimal_render(n: int) -> Seq<char>
    decreases n,
{
    if n < 10 {
        seq![digit_char(n)]
    } else {
        decimal_render(n / 10).push(digit_char(n % 10))
    }
}

/// A digit string's value is never negative.
proof fn lemma_digits_value_nonneg(s: Seq<char>)
    requires
        all_digits(s),
    ensures
        digits_value(s) >= 0,
    decreases s.len(),
{
    if s.len() > 0 {
        assert(all_digits(s.drop_last()));
        lemma_digits_value_nonneg(s.drop_last());
    }
}

/// Rendering a non-negative number yields a non-empty all-digit string
/// whose value is the number itself.
pub proof fn lemma_render_value(n: int)
    requires
        n >= 0,
    ensures
        decimal_render(n).len() >= 1,
        all_digits(decimal_render(n)),
        digits_value(decimal_render(n)) == n,
    decreases n,
{
    if n < 10 {
        let s = decimal_render(n);
        assert(s =~= seq![digit_char(n)]);
        assert(s.drop_last() =~= Seq::<char>::empty());
        assert(digits_value(s) == digits_value(s.drop_last()) * 10 + digit_val(s.last()));
    } else {
        lemma_render_value(n / 10);
        vstd::arithmetic::div_mod::lemma_fundamental_div_mod(n, 10);
        let r = decimal_render(n / 10);
        let whole = r.push(digit_char(n % 10));
        assert(whole.drop_last() =~= r);
        assert(forall|i: int| 0 <= i < whole.len()
            ==> is_digit_char(#[trigger] whole[i]) == if i < r.len() {
                is_digit_char(r[i])
            } else {
                is_digit_char(digit_char(n % 10))
            });
    }
}

/// Parsing the decimal rendering of a non-negative number within the range
/// of `i32` yields the number back.
pub proof fn lemma_render_round_trip(n: int)
    requires
        0 <= n <= i32::MAX,
    ensures
        parse_decimal_i32(decimal_render(n)) == Some(n),
{
    lemma_render_value(n);
    let s = decimal_render(n);
    assert(is_digit_char(s[0]));
    assert(s[0] != '+' && s[0] != '-');
}

/// An accumulator bound strictly above the magnitude of every `i32`:
/// once a digit string's value reaches it, no suffix can bring it back
/// into range.
const ACC_CAP: u64 = 4294967296;

/// Parses a string as an `i32`, accepting exactly what `parse_decimal_i32`
/// describes: an optional single sign, then at least one decimal digit and
/// nothing else, with the value in range.
pub fn parse_i32_text(s: &str) -> (r: Option<i32>)
    ensures
        r is Some <==> parse_decimal_i32(s@) is Some,
        r matches Some(n) ==> parse_decimal_i32(s@) == Some(n as int),
{
    let len = s.unicode_len();
    let mut start: usize = 0;
    let mut negative = false;
    if len > 0 {
        let c0 = s.get_char(0);
        if c0 == '+' {
            start = 1;
        } else if c0 == '-' {
            negative = true;
            start = 1;
        }
    }
    let ghost digits: Seq<char> = s@.skip(start as int);
    if start == len {
        proof {
            assert(digits.len() == 0);
        }
        return None;
    }
    let mut acc: u64 = 0;
    let mut i: usize = start;
    while i < len
        invariant
            len == s@.len(),
            start <= i <= len,
            start == (if s@.len() > 0 && (s@[0] == '+' || s@[0] == '-') {
                1int
            } else {
                0int
            }),
            negative == (s@.len() > 0 && s@[0] == '-'),
            digits == s@.skip(start as int),
            all_digits(digits.subrange(0, i - start)),
            acc <= ACC_CAP,
            (digits_value(digits.subrange(0, i - start)) <= ACC_CAP
                && acc == digits_value(digits.subrange(0, i - start)))
                || (digits_value(digits.subrange(0, i - start)) > ACC_CAP && acc == ACC_CAP),
        decreases len - i,
    {
        let c = s.get_char(i);
        let cu = c as u32;
        let ghost k = i - start;
        proof {
            assert(digits[k as int] == c);
        }
        if cu < 48 || cu > 57 {
            proof {
                assert(!is_digit_char(digits[k as int]));
            }
            return None;
        }
        let d = (cu - 48) as u64;
        proof {
            let pre = digits.subrange(0, k as int);
            let post = digits.subrange(0, k + 1);
            assert(post.drop_last() =~= pre);
            assert(post.last() == c);
            lemma_digits_value_nonneg(pre);
        }
        let next = acc * 10 + d;
        if next > ACC_CAP {
            acc = ACC_CAP;
        } else {
            acc = next;
        }
        i = i + 1;
    }
    proof {
        assert(digits.subrange(0, i - start) =~= digits);
        assert(digits.len() > 0);
        let spec_digits = if s@.len() > 0 && (s@[0] == '+' || s@[0] == '-') {
            s@.skip(1)
        } else {
            s@
        };
        assert(digits =~= spec_digits);
        lemma_digits_value_nonneg(digits);
    }
    if negative {
        if acc <= 2147483648 {
            if acc == 2147483648 {
                Some(i32::MIN)
            } else {
                Some(-(acc as i32))
            }
        } else {
            None
        }
    } else {
        if acc <= 2147483647 {
            Some(acc as i32)
        } else {
            None
        }
    }
}

/// Renders a number in decimal, matching `decimal_render`.
pub fn render_u64(n: u64) -> (r: String)
    ensures
        r@ == decimal_render(n as int),
    decreases n,
{
    if n < 10 {
        digit_str(n).to_owned()
    } else {
        let mut s = render_u64(n / 10);
        s.append(digit_str(n % 10));
        s
    }
}

/// The one-character string for a digit value.
fn digit_str(d: u64) -> (r: &'static str)
    requires
        d < 10,
    ensures
        r@ == seq![digit_char(d as int)],
{
    proof {
        reveal_strlit("0");
        reveal_strlit("1");
        reveal_strlit("2");
        reveal_strlit("3");
        reveal_strlit("4");
        reveal_strlit("5");
        reveal_strlit("6");
        reveal_strlit("7");
        reveal_strlit("8");
        reveal_strlit("9");
    }
    if d == 0 {
        proof { assert("0"@ =~= seq![digit_char(0)]); }
        "0"
    } else if d == 1 {
        proof { assert("1"@ =~= seq![digit_char(1)]); }
        "1"
    } else if d == 2 {
        proof { assert("2"@ =~= seq![digit_char(2)]); }
        "2"
    } else if d == 3 {
        proof { assert("3"@ =~= seq![digit_char(3)]); }
        "3"
    } else if d == 4 {
        proof { assert("4"@ =~= seq![digit_char(4)]); }
        "4"
    } else if d == 5 {
        proof { assert("5"@ =~= seq![digit_char(5)]); }
        "5"
    } else if d == 6 {
        proof { assert("6"@ =~= seq![digit_char(6)]); }
        "6"
    } else if d == 7 {
        proof { assert("7"@ =~= seq![digit_char(7)]); }
        "7"
    } else if d == 8 {
        proof { assert("8"@ =~= seq![digit_char(8)]); }
        "8"
    } else {
        proof { assert("9"@ =~= seq![digit_char(9)]); }
        "9"
    }
}

} // verus!
