//! Text rendering of the final account states.
//!
//! An amount is shown with four decimals, after which trailing zeros and a
//! trailing decimal point are stripped (`1.0000` gives `1`, `1.5000` gives `1.5`).
use crate::account::Account;
use vstd::prelude::*;
use vstd::string::*;

verus! {

pub open spec fn digit_char(d: nat) -> char {
    if d == 0 {
        '0'
    } else if d == 1 {
        '1'
    } else if d == 2 {
        '2'
    } else if d == 3 {
        '3'
    } else if d == 4 {
        '4'
    } else if d == 5 {
        '5'
    } else if d == 6 {
        '6'
    } else if d == 7 {
        '7'
    } else if d == 8 {
        '8'
    } else {
        '9'
    }
}

/// Decimal digits of `n`, most significant first, without leading zeros.
pub open spec fn decimal_digits(n: nat) -> Seq<char>
    decreases n,
{
    if n < 10 {
        seq![digit_char(n)]
    } else {
        decimal_digits(n / 10) + seq![digit_char(n % 10)]
    }
}

pub open spec fn trim_trailing_zeros(s: Seq<char>) -> Seq<char>
    decreases s.len(),
{
    if s.len() > 0 && s.last() == '0' {
        trim_trailing_zeros(s.drop_last())
    } else {
        s
    }
}

/// The four fractional digits of a fixed-point value whose fraction is `f`.
pub open spec fn fraction_digits(f: nat) -> Seq<char> {
    seq![digit_char(f / 1000), digit_char(f / 100 % 10), digit_char(f / 10 % 10), digit_char(f % 10)]
}

/// The fractional part as displayed: empty for a whole number, else a point
/// followed by the significant fractional digits.
pub open spec fn fraction_text(f: nat) -> Seq<char> {
    let digits = trim_trailing_zeros(fraction_digits(f));
    if digits.len() == 0 {
        Seq::empty()
    } else {
        seq!['.'] + digits
    }
}

/// A non-negative fixed-point value, in ten-thousandths, as displayed.
pub open spec fn magnitude_text(n: nat) -> Seq<char> {
    decimal_digits(n / 10000) + fraction_text(n % 10000)
}

/// A fixed-point amount, in ten-thousandths, as displayed.
pub open spec fn amount_text(x: int) -> Seq<char> {
    if x < 0 {
        seq!['-'] + magnitude_text((-x) as nat)
    } else {
        magnitude_text(x as nat)
    }
}

pub open spec fn bool_text(b: bool) -> Seq<char> {
    if b {
        "true"@
    } else {
        "false"@
    }
}

pub open spec fn header_text() -> Seq<char> {
    "client,available,held,total,locked\n"@
}

/// One report row: `client,available,held,total,locked` and a line break.
pub open spec fn row_text(a: Account) -> Seq<char> {
    decimal_digits(a.client as nat) + ","@ + amount_text(a.available as int) + ","@
        + amount_text(a.held as int) + ","@ + amount_text(a.total as int) + ","@
        + bool_text(a.locked) + "\n"@
}

/// The row of client `k`, or nothing when it has no account.
pub open spec fn row_at(accounts: Map<u16, Account>, k: int) -> Seq<char> {
    if accounts.contains_key(k as u16) {
        row_text(accounts[k as u16])
    } else {
        Seq::empty()
    }
}

/// The rows of the clients below `n`, in ascending client order.
pub open spec fn rows_below(accounts: Map<u16, Account>, n: int) -> Seq<char>
    decreases n,
{
    if n <= 0 {
        Seq::empty()
    } else {
        rows_below(accounts, n - 1) + row_at(accounts, n - 1)
    }
}

/// The whole report: nothing at all when there is no account, else the
/// header followed by one row per account in ascending client order.
pub open spec fn report_text(accounts: Map<u16, Account>) -> Seq<char> {
    if accounts.len() == 0 {
        Seq::empty()
    } else {
        header_text() + rows_below(accounts, 0x10000)
    }
}

fn digit_str(d: u64) -> (r: &'static str)
    requires
        d < 10,
    ensures
        r@ == seq![digit_char(d as nat)],
{
    proof {
        reveal_strlit("0");
        reveal_strlit("1");
        reveal_strlit("2");
        reveal_strlit("3");
        reveal_strlit("4");
        reveal_strlit("5");
        reveal_strlit("6");
        reveal_strlit("7");
        reveal_strlit("8");
        reveal_strlit("9");
    }
    if d == 0 {
        "0"
    } else if d == 1 {
        "1"
    } else if d == 2 {
        "2"
    } else if d == 3 {
        "3"
    } else if d == 4 {
        "4"
    } else if d == 5 {
        "5"
    } else if d == 6 {
        "6"
    } else if d == 7 {
        "7"
    } else if d == 8 {
        "8"
    } else {
        "9"
    }
}

/// Appends the decimal digits of `n`.
pub fn push_decimal(n: u64, out: &mut String)
    ensures
        final(out)@ == old(out)@ + decimal_digits(n as nat),
    decreases n,
{
    if n < 10 {
        out.append(digit_str(n));
    } else {
        push_decimal(n / 10, out);
        out.append(digit_str(n % 10));
        assert(final(out)@ =~= old(out)@ + decimal_digits(n as nat));
    }
}

proof fn lemma_fraction_text(f: nat)
    requires
        f < 10000,
    ensures
        ({
            let d1 = f / 1000;
            let d2 = f / 100 % 10;
            let d3 = f / 10 % 10;
            let d4 = f % 10;
            let full = fraction_digits(f);
            fraction_text(f) == if d4 != 0 {
                seq!['.'] + full
            } else if d3 != 0 {
                seq!['.'] + full.take(3)
            } else if d2 != 0 {
                seq!['.'] + full.take(2)
            } else if d1 != 0 {
                seq!['.'] + full.take(1)
            } else {
                Seq::<char>::empty()
            }
        }),
{
    reveal_with_fuel(trim_trailing_zeros, 5);
    let full = fraction_digits(f);
    assert(full.drop_last() =~= full.take(3));
    assert(full.take(3).drop_last() =~= full.take(2));
    assert(full.take(2).drop_last() =~= full.take(1));
    assert(full.take(1).drop_last() =~= Seq::<char>::empty());
}

/// Appends a fixed-point amount as displayed.
pub fn push_amount(x: i64, out: &mut String)
    ensures
        final(out)@ == old(out)@ + amount_text(x as int),
{
    let magnitude: u64 = if x < 0 {
        (-(x as i128)) as u64
    } else {
        x as u64
    };
    let ghost start = out@;
    if x < 0 {
        proof {
            reveal_strlit("-");
        }
        out.append("-");
    }
    push_decimal(magnitude / 10000, out);
    let f = magnitude % 10000;
    let d1 = f / 1000;
    let d2 = f / 100 % 10;
    let d3 = f / 10 % 10;
    let d4 = f % 10;
    proof {
        lemma_fraction_text(f as nat);
        reveal_strlit(".");
    }
    if d1 != 0 || d2 != 0 || d3 != 0 || d4 != 0 {
        out.append(".");
        out.append(digit_str(d1));
        if d2 != 0 || d3 != 0 || d4 != 0 {
            out.append(digit_str(d2));
            if d3 != 0 || d4 != 0 {
                out.append(digit_str(d3));
                if d4 != 0 {
                    out.append(digit_str(d4));
                }
            }
        }
    }
    assert(out@ =~= start + amount_text(x as int));
}

/// Appends the report row of `a`.
pub fn push_row(a: &Account, out: &mut String)
    ensures
        final(out)@ == old(out)@ + row_text(*a),
{
    let ghost start = out@;
    push_decimal(a.client as u64, out);
    out.append(",");
    push_amount(a.available, out);
    out.append(",");
    push_amount(a.held, out);
    out.append(",");
    push_amount(a.total, out);
    out.append(",");
    if a.locked {
        out.append("true");
    } else {
        out.append("false");
    }
    out.append("\n");
    assert(out@ =~= start + row_text(*a));
}

/// Appends the report header.
pub fn push_header(out: &mut String)
    ensures
        final(out)@ == old(out)@ + header_text(),
{
    out.append("client,available,held,total,locked\n");
}

} // verus!
