//! Process-wide configuration: the storage root, the token signing secret
//! and the token expiration window.
//!
//! All three are required and the window must be a positive whole number of
//! minutes: a process fails fast at startup when any is absent or malformed.
//! The window arrives as text from the environment; parsing it is verified
//! against an exact specification of signed decimal numerals.

use vstd::prelude::*;

verus! {

/// A decimal digit.
pub open spec fn is_ascii_digit(c: char) -> bool {
    48 <= c as u32 && c as u32 <= 57
}

/// The numeric value of a decimal digit.
pub open spec fn digit_value(c: char) -> int {
    c as u32 - 48
}

/// Every character is a decimal digit.
pub open spec fn all_digits(s: Seq<char>) -> bool {
    forall|i: int| 0 <= i < s.len() ==> is_ascii_digit(#[trigger] s[i])
}

/// The value of a digit string read left to right.
pub open spec fn digits_value(s: Seq<char>) -> int
    decreases s.len(),
{
    if s.len() == 0 {
        0
    } else {
        digits_value(s.drop_last()) * 10 + digit_value(s.last())
    }
}

/// The digits of a numeral: what follows an optional leading sign.
pub open spec fn int_text_digits(s: Seq<char>) -> Seq<char> {
    if s.len() > 0 && (s[0] == '-' || s[0] == '+') {
        s.skip(1)
    } else {
        s
    }
}

/// Whether the numeral carries a minus sign.
pub open spec fn int_text_negative(s: Seq<char>) -> bool {
    s.len() > 0 && s[0] == '-'
}

/// The signed value of a numeral.
pub open spec fn signed_value(s: Seq<char>) -> int {
    if int_text_negative(s) {
        -digits_value(int_text_digits(s))
    } else {
        digits_value(int_text_digits(s))
    }
}

/// The texts that denote a 64-bit signed integer: an optional sign, at
/// least one digit, nothing else, and a value in range.
pub open spec fn is_valid_i64_text(s: Seq<char>) -> bool {
    &&& int_text_digits(s).len() > 0
    &&& all_digits(int_text_digits(s))
    &&& i64::MIN <= signed_value(s) <= i64::MAX
}

/// A digit string's value is never negative.
proof fn lemma_digits_value_nonneg(s: Seq<char>)
    requires
        all_digits(s),
    ensures
        digits_value(s) >= 0,
    decreases s.len(),
{
    if s.len() > 0 {
        assert(all_digits(s.drop_last())) by {
            assert(forall|i: int|
                0 <= i < s.len() - 1 ==> is_ascii_digit(#[trigger] s.drop_last()[i]));
        }
        lemma_digits_value_nonneg(s.drop_last());
    }
}

/// Reading more digits never shrinks the value.
proof fn lemma_digits_value_prefix_le(s: Seq<char>, m: int)
    requires
        all_digits(s),
        0 <= m <= s.len(),
    ensures
        digits_value(s.take(m)) <= digits_value(s),
    decreases s.len() - m,
{
    if m == s.len() {
        assert(s.take(m) =~= s);
    } else {
        assert(all_digits(s.drop_last())) by {
            assert(forall|i: int|
                0 <= i < s.len() - 1 ==> is_ascii_digit(#[trigger] s.drop_last()[i]));
        }
        assert(s.drop_last().take(m) =~= s.take(m));
        lemma_digits_value_prefix_le(s.drop_last(), m);
        lemma_digits_value_nonneg(s.drop_last());
        assert(digits_value(s) == digits_value(s.drop_last()) * 10 + digit_value(s.last()));
        assert(digits_value(s.drop_last()) * 10 >= digits_value(s.drop_last())) by (nonlinear_arith)
            requires
                digits_value(s.drop_last()) >= 0,
        ;
    }
}

/// Parses a signed decimal numeral as a 64-bit integer: `Some` exactly on
/// the texts `is_valid_i64_text` admits, with the value `signed_value`
/// gives.
pub fn parse_i64(s: &str) -> (r: Option<i64>)
    ensures
        r is Some <==> is_valid_i64_text(s@),
        r matches Some(v) ==> v == signed_value(s@),
{
    let n = s.unicode_len();
    if n == 0 {
        return None;
    }
    let first = s.get_char(0);
    let negative = first == '-';
    let start: usize = if first == '-' || first == '+' {
        1
    } else {
        0
    };
    if start == n {
        return None;
    }
    let ghost digits = int_text_digits(s@);
    proof {
        assert(digits =~= s@.subrange(start as int, n as int));
    }
    let magnitude_cap: u64 = if negative {
        9223372036854775808
    } else {
        9223372036854775807
    };
    let mut acc: u64 = 0;
    let mut i: usize = start;
    while i < n
        invariant
            start <= i <= n,
            n == s@.len(),
            start <= 1,
            digits == s@.subrange(start as int, n as int),
            digits == int_text_digits(s@),
            negative == int_text_negative(s@),
            magnitude_cap == if negative {
                9223372036854775808u64
            } else {
                9223372036854775807u64
            },
            forall|k: int| start <= k < i ==> is_ascii_digit(#[trigger] s@[k]),
            acc == digits_value(digits.take(i - start)),
            acc <= magnitude_cap,
        decreases n - i,
    {
        let c = s.get_char(i);
        let cv = c as u32;
        if cv < 48 || cv > 57 {
            proof {
                assert(!is_ascii_digit(digits[i - start]));
                assert(!all_digits(digits));
            }
            return None;
        }
        let d = (cv - 48) as u64;
        proof {
            assert(digits.take(i + 1 - start).drop_last() =~= digits.take(i - start));
            assert(digits.take(i + 1 - start).last() == s@[i as int]);
        }
        let grown = match acc.checked_mul(10) {
            Some(g) => g.checked_add(d),
            None => None,
        };
        match grown {
            Some(next) if next <= magnitude_cap => {
                acc = next;
            },
            _ => {
                proof {
                    let taken = i + 1 - start;
                    if all_digits(digits) {
                        assert(digits_value(digits.take(taken)) > magnitude_cap) by {
                            lemma_digits_value_nonneg(digits.take(i - start));
                        }
                        lemma_digits_value_prefix_le(digits, taken);
                        assert(digits_value(digits) > magnitude_cap);
                    }
                }
                return None;
            },
        }
        i = i + 1;
    }
    proof {
        assert(digits.take(n - start) =~= digits);
        assert(all_digits(digits));
        lemma_digits_value_nonneg(digits);
    }
    if negative {
        if acc == 9223372036854775808 {
            Some(i64::MIN)
        } else {
            Some(-(acc as i64))
        }
    } else {
        Some(acc as i64)
    }
}

/// Process-wide configuration, dependency-injected into every operation
/// that needs it.
#[derive(Clone, Debug)]
pub struct EnvSettings {
    pub db_collection_path: String,
    pub user_jwt_secret: String,
    pub user_jwt_expiration_minutes: i64,
}

impl EnvSettings {
    /// The configuration is sane: the expiration window is positive.
    pub open spec fn wf(&self) -> bool {
        0 < self.user_jwt_expiration_minutes
    }

    /// Builds the configuration from raw values, the expiration window from
    /// its environment text. `None` exactly when that text is not a numeral
    /// or names no positive number of minutes.
    pub fn from_values(
        db_collection_path: String,
        user_jwt_secret: String,
        expiration_minutes_text: &str,
    ) -> (r: Option<EnvSettings>)
        ensures
            r is Some <==> (is_valid_i64_text(expiration_minutes_text@) && 0 < signed_value(
                expiration_minutes_text@,
            )),
            r matches Some(s) ==> s.db_collection_path@ == db_collection_path@
                && s.user_jwt_secret@ == user_jwt_secret@ && s.user_jwt_expiration_minutes
                == signed_value(expiration_minutes_text@) && s.wf(),
    {
        let minutes = parse_i64(expiration_minutes_text)?;
        if minutes <= 0 {
            return None;
        }
        Some(
            EnvSettings {
                db_collection_path,
                user_jwt_secret,
                user_jwt_expiration_minutes: minutes,
            },
        )
    }
}

} // verus!
