use vstd::prelude::*;

verus! {

/// Seconds a command may run when no timeout is configured.
pub const DEFAULT_TIMEOUT_SECS: u64 = 50;

/// Port the service listens on when none is configured.
pub const DEFAULT_PORT: u16 = 48786;

/// Whether `c` is one of the ASCII digits.
pub open spec fn is_digit(c: char) -> bool {
    '0' <= c && c <= '9'
}

/// The value of a digit character.
pub open spec fn digit_value(c: char) -> nat {
    ((c as u32) - ('0' as u32)) as nat
}

/// Whether every character of `s` is a digit.
pub open spec fn all_digits(s: Seq<char>) -> bool {
    forall|i: int| 0 <= i < s.len() ==> is_digit(#[trigger] s[i])
}

/// The number that the digits `s` write in base ten.
pub open spec fn digits_value(s: Seq<char>) -> nat
    decreases s.len(),
{
    if s.len() == 0 {
        0
    } else {
        digits_value(s.drop_last()) * 10 + digit_value(s.last())
    }
}

/// `s` without a leading plus sign, if it has one.
pub open spec fn unsigned_digits(s: Seq<char>) -> Seq<char> {
    if s.len() > 0 && s[0] == '+' {
        s.drop_first()
    } else {
        s
    }
}

/// The unsigned number that `s` writes in base ten: an optional plus sign,
/// then one or more digits, with a value that fits in 64 bits.
pub open spec fn decimal_value(s: Seq<char>) -> Option<nat> {
    let d = unsigned_digits(s);
    if d.len() > 0 && all_digits(d) && digits_value(d) <= u64::MAX {
        Some(digits_value(d))
    } else {
        None
    }
}

/// The value of a prefix of a digit string is at most that of the whole.
proof fn lemma_prefix_value_le(s: Seq<char>, k: int)
    requires
        0 <= k <= s.len(),
        all_digits(s),
    ensures
        digits_value(s.subrange(0, k)) <= digits_value(s),
    decreases s.len(),
{
    if k < s.len() {
        let init = s.drop_last();
        assert(all_digits(init)) by {
            assert forall|i: int| 0 <= i < init.len() implies is_digit(#[trigger] init[i]) by {
                assert(init[i] == s[i]);
            }
        }
        lemma_prefix_value_le(init, k);
        assert(init.subrange(0, k) =~= s.subrange(0, k));
    } else {
        assert(s.subrange(0, k) =~= s);
    }
}

/// Reads an unsigned 64-bit number written in base ten, with an optional
/// leading plus sign.
pub fn parse_u64(s: &str) -> (r: Option<u64>)
    ensures
        match r {
            Some(n) => decimal_value(s@) == Some(n as nat),
            None => decimal_value(s@) is None,
        },
{
    let len = s.unicode_len();
    let mut start: usize = 0;
    if len > 0 && s.get_char(0) == '+' {
        start = 1;
    }
    let ghost d = unsigned_digits(s@);
    assert(d =~= s@.subrange(start as int, len as int));
    if start == len {
        return None;
    }
    let mut value: u64 = 0;
    let mut i: usize = start;
    while i < len
        invariant
            start <= i <= len,
            len == s@.len(),
            d =~= s@.subrange(start as int, len as int),
            d == unsigned_digits(s@),
            all_digits(d.subrange(0, i - start)),
            value as nat == digits_value(d.subrange(0, i - start)),
        decreases len - i,
    {
        let c = s.get_char(i);
        let ghost prefix = d.subrange(0, i - start);
        let ghost next = d.subrange(0, i + 1 - start);
        assert(next.drop_last() =~= prefix);
        assert(next.last() == c);
        assert(d[i - start] == c);
        if c < '0' || c > '9' {
            assert(!is_digit(d[i - start]));
            assert(!all_digits(d));
            return None;
        }
        let digit: u64 = (c as u32 - '0' as u32) as u64;
        assert(digit as nat == digit_value(c));
        if value > (u64::MAX - digit) / 10 {
            proof {
                assert(value * 10 + digit > u64::MAX) by (nonlinear_arith)
                    requires
                        value > (u64::MAX - digit) / 10,
                        digit <= 9,
                ;
                assert(all_digits(next)) by {
                    assert forall|j: int| 0 <= j < next.len() implies is_digit(#[trigger] next[j]) by {
                        if j < prefix.len() {
                            assert(next[j] == prefix[j]);
                        }
                    }
                }
                assert(digits_value(next) == value * 10 + digit);
                if all_digits(d) {
                    lemma_prefix_value_le(d, i + 1 - start);
                    assert(digits_value(d) > u64::MAX);
                }
            }
            return None;
        }
        proof {
            assert(value * 10 + digit <= u64::MAX) by (nonlinear_arith)
                requires
                    value <= (u64::MAX - digit) / 10,
                    digit <= 9,
            ;
            assert forall|j: int| 0 <= j < next.len() implies is_digit(#[trigger] next[j]) by {
                if j < prefix.len() {
                    assert(next[j] == prefix[j]);
                }
            }
        }
        value = value * 10 + digit;
        i = i + 1;
    }
    assert(d.subrange(0, len - start) =~= d);
    Some(value)
}

/// The command timeout in seconds: the configured value where it reads as a
/// number, else the default.
pub fn timeout_from_setting(setting: Option<&str>) -> (r: u64)
    ensures
        r == match setting {
            Some(s) => match decimal_value(s@) {
                Some(n) => n as u64,
                None => DEFAULT_TIMEOUT_SECS,
            },
            None => DEFAULT_TIMEOUT_SECS,
        },
{
    match setting {
        Some(s) => match parse_u64(s) {
            Some(n) => n,
            None => DEFAULT_TIMEOUT_SECS,
        },
        None => DEFAULT_TIMEOUT_SECS,
    }
}

/// The listening port: the configured value where it reads as a number that
/// fits in 16 bits, else the default.
pub fn port_from_setting(setting: Option<&str>) -> (r: u16)
    ensures
        r == match setting {
            Some(s) => match decimal_value(s@) {
                Some(n) => if n <= u16::MAX {
                    n as u16
                } else {
                    DEFAULT_PORT
                },
                None => DEFAULT_PORT,
            },
            None => DEFAULT_PORT,
        },
{
    match setting {
        Some(s) => match parse_u64(s) {
            Some(n) => if n <= u16::MAX as u64 {
                n as u16
            } else {
                DEFAULT_PORT
            },
            None => DEFAULT_PORT,
        },
        None => DEFAULT_PORT,
    }
}

} // verus!
