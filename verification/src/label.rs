//! Human-readable names of indicators, such as `RMA(14)`.
use vstd::prelude::*;
use vstd::string::StringExecFns;

verus! {

/// The character of a decimal digit `d` (`0 <= d < 10`).
pub open spec fn digit_char(d: nat) -> char {
    (48 + d) as char
}

/// The decimal notation of `n`, most significant digit first, without
/// leading zeros (`0` is written as a single `0`).
pub open spec fn decimal(n: nat) -> Seq<char>
    decreases n,
{
    if n < 10 {
        seq![digit_char(n)]
    } else {
        decimal(n / 10).push(digit_char(n % 10))
    }
}

/// The number that a string of decimal digits denotes, read the usual way:
/// each character `c` counts for `c - '0'`, most significant first.
pub open spec fn decimal_value(s: Seq<char>) -> int
    decreases s.len(),
{
    if s.len() == 0 {
        0
    } else {
        decimal_value(s.drop_last()) * 10 + ((s.last() as int) - ('0' as int))
    }
}

/// Whether every character of `s` is one of `'0'` to `'9'`.
pub open spec fn all_decimal_digits(s: Seq<char>) -> bool {
    forall|i: int| 0 <= i < s.len() ==> '0' <= #[trigger] s[i] <= '9'
}

/// The decimal notation of `n` is made of the characters `'0'` to `'9'`,
/// read back it is `n` itself, and it has no leading zero.
pub proof fn lemma_decimal_reads_back(n: nat)
    ensures
        all_decimal_digits(decimal(n)),
        decimal_value(decimal(n)) == n,
        decimal(n).len() >= 1,
        n > 0 ==> decimal(n)[0] != '0',
    decreases n,
{
    assert(('0' as int) == 48);
    assert((digit_char(n % 10) as int) == 48 + n % 10);
    if n < 10 {
        assert(decimal(n).drop_last() =~= Seq::<char>::empty());
        assert(decimal_value(decimal(n).drop_last()) == 0);
        assert(decimal(n).last() == digit_char(n));
    } else {
        lemma_decimal_reads_back(n / 10);
        let s = decimal(n);
        assert(s.drop_last() =~= decimal(n / 10));
        assert(s.last() == digit_char(n % 10));
        assert(s[0] == decimal(n / 10)[0]);
        assert(decimal_value(s) == decimal_value(decimal(n / 10)) * 10 + (n % 10));
        assert((n / 10) * 10 + n % 10 == n);
    }
}

/// Two periods get the same notation only if they are equal.
pub proof fn lemma_decimal_injective(m: nat, n: nat)
    requires
        decimal(m) == decimal(n),
    ensures
        m == n,
{
    lemma_decimal_reads_back(m);
    lemma_decimal_reads_back(n);
}

/// `name(period)`, the way an indicator names itself.
pub open spec fn period_label(name: Seq<char>, period: nat) -> Seq<char> {
    name + seq!['('] + decimal(period) + seq![')']
}

fn digit_str(d: usize) -> (r: &'static str)
    requires
        d < 10,
    ensures
        r@ == seq![digit_char(d as nat)],
{
    match d {
        0 => {
            proof {
                reveal_strlit("0");
            }
            "0"
        },
        1 => {
            proof {
                reveal_strlit("1");
            }
            "1"
        },
        2 => {
            proof {
                reveal_strlit("2");
            }
            "2"
        },
        3 => {
            proof {
                reveal_strlit("3");
            }
            "3"
        },
        4 => {
            proof {
                reveal_strlit("4");
            }
            "4"
        },
        5 => {
            proof {
                reveal_strlit("5");
            }
            "5"
        },
        6 => {
            proof {
                reveal_strlit("6");
            }
            "6"
        },
        7 => {
            proof {
                reveal_strlit("7");
            }
            "7"
        },
        8 => {
            proof {
                reveal_strlit("8");
            }
            "8"
        },
        _ => {
            proof {
                reveal_strlit("9");
            }
            "9"
        },
    }
}

/// Appends the decimal notation of `n` to `s`.
pub fn push_decimal(s: &mut String, n: usize)
    ensures
        final(s)@ == old(s)@ + decimal(n as nat),
    decreases n,
{
    if n >= 10 {
        push_decimal(s, n / 10);
    }
    s.append(digit_str(n % 10));
    proof {
        if n >= 10 {
            assert(decimal(n as nat) == decimal((n / 10) as nat).push(digit_char((n % 10) as nat)));
        }
    }
}

/// Builds `name(period)`, such as `RMA(14)`: the name, `(`, the decimal
/// digits of the period, read back equal to it, and `)`.
pub fn format_period_label(name: &str, period: usize) -> (s: String)
    ensures
        s@ == period_label(name@, period as nat),
        s@.len() >= name@.len() + 3,
        s@.subrange(0, name@.len() as int) == name@,
        s@[name@.len() as int] == '(',
        s@.last() == ')',
        all_decimal_digits(s@.subrange(name@.len() + 1 as int, s@.len() - 1)),
        decimal_value(s@.subrange(name@.len() + 1 as int, s@.len() - 1)) == period,
{
    let mut s = String::from_str(name);
    s.append("(");
    push_decimal(&mut s, period);
    s.append(")");
    proof {
        reveal_strlit("(");
        reveal_strlit(")");
        assert(s@ =~= period_label(name@, period as nat));
        lemma_period_label_reads_back(name@, period as nat);
    }
    s
}

/// `name(period)` is the name, `(`, decimal digits that read back as the
/// period, and `)`.
pub proof fn lemma_period_label_reads_back(name: Seq<char>, period: nat)
    ensures
        period_label(name, period).len() >= name.len() + 3,
        period_label(name, period).subrange(0, name.len() as int) == name,
        period_label(name, period)[name.len() as int] == '(',
        period_label(name, period).last() == ')',
        all_decimal_digits(
            period_label(name, period).subrange(
                name.len() + 1 as int,
                period_label(name, period).len() - 1,
            ),
        ),
        decimal_value(
            period_label(name, period).subrange(
                name.len() + 1 as int,
                period_label(name, period).len() - 1,
            ),
        ) == period,
{
    lemma_decimal_reads_back(period);
    let l = period_label(name, period);
    let d = decimal(period);
    assert(l.subrange(0, name.len() as int) =~= name);
    assert(l.subrange(name.len() + 1 as int, l.len() - 1) =~= d);
}

} // verus!
