//! The text of the final report.
use vstd::prelude::*;
use crate::stats::{FeedSummary, Report};

verus! {

pub open spec fn digit_char(d: nat) -> char {
    seq!['0', '1', '2', '3', '4', '5', '6', '7', '8', '9'][d as int]
}

/// The decimal digits of `n`, without leading zeros.
pub open spec fn decimal(n: nat) -> Seq<char>
    decreases n,
{
    if n < 10 {
        seq![digit_char(n)]
    } else {
        decimal(n / 10) + seq![digit_char(n % 10)]
    }
}

/// A count of hundredths written with two decimals: 2500 is "25.00".
pub open spec fn fixed2(x: nat) -> Seq<char> {
    decimal(x / 100) + seq!['.', digit_char((x % 100) / 10), digit_char(x % 10)]
}

/// One feed's line of the report.
pub open spec fn feed_line(name: Seq<char>, f: FeedSummary) -> Seq<char> {
    name + ": first "@ + fixed2(f.win_pct_x100 as nat) + "%, mean delay when behind "@ + fixed2(
        f.avg_loss_delay_x100 as nat,
    ) + " ms, mean delay overall "@ + fixed2(f.avg_overall_delay_x100 as nat) + " ms\n"@
}

pub open spec fn report_text(r: Report) -> Seq<char> {
    match r {
        Report::NoData => "GRPC  : no data\n"@ + "SHRED : no data\n"@,
        Report::Data { total, a, b } => "races decided: "@ + decimal(total as nat) + "\n"@ + feed_line(
            "GRPC  "@,
            a,
        ) + feed_line("SHRED "@, b),
    }
}

fn digit_str(d: u128) -> (r: &'static str)
    requires
        d < 10,
    ensures
        r@ == seq![digit_char(d as nat)],
{
    proof {
        reveal_strlit("0");
        reveal_strlit("1");
        reveal_strlit("2");
        reveal_strlit("3");
        reveal_strlit("4");
        reveal_strlit("5");
        reveal_strlit("6");
        reveal_strlit("7");
        reveal_strlit("8");
        reveal_strlit("9");
    }
    let r = match d {
        0 => "0",
        1 => "1",
        2 => "2",
        3 => "3",
        4 => "4",
        5 => "5",
        6 => "6",
        7 => "7",
        8 => "8",
        _ => "9",
    };
    assert(r@ =~= seq![digit_char(d as nat)]);
    r
}

fn push_decimal(s: &mut String, n: u128)
    ensures
        final(s)@ == old(s)@ + decimal(n as nat),
    decreases n,
{
    if n >= 10 {
        push_decimal(s, n / 10);
    }
    s.append(digit_str(n % 10));
    proof {
        if n >= 10 {
            assert(final(s)@ =~= old(s)@ + decimal(n as nat));
        } else {
            assert(final(s)@ =~= old(s)@ + decimal(n as nat));
        }
    }
}

fn push_fixed2(s: &mut String, x: u128)
    ensures
        final(s)@ == old(s)@ + fixed2(x as nat),
{
    push_decimal(s, x / 100);
    proof {
        reveal_strlit(".");
    }
    s.append(".");
    s.append(digit_str((x % 100) / 10));
    s.append(digit_str(x % 10));
    assert(final(s)@ =~= old(s)@ + fixed2(x as nat));
}

fn push_feed_line(s: &mut String, name: &str, f: &FeedSummary)
    ensures
        final(s)@ == old(s)@ + feed_line(name@, *f),
{
    s.append(name);
    s.append(": first ");
    push_fixed2(s, f.win_pct_x100);
    s.append("%, mean delay when behind ");
    push_fixed2(s, f.avg_loss_delay_x100);
    s.append(" ms, mean delay overall ");
    push_fixed2(s, f.avg_overall_delay_x100);
    s.append(" ms\n");
    assert(final(s)@ =~= old(s)@ + feed_line(name@, *f));
}

/// Writes the report: the number of races and, per feed, its share of wins and
/// its mean delays; or "no data" for both feeds when no race was decided.
pub fn render_report(r: &Report) -> (s: String)
    ensures
        s@ == report_text(*r),
{
    let mut s = String::new();
    match r {
        Report::NoData => {
            s.append("GRPC  : no data\n");
            s.append("SHRED : no data\n");
        },
        Report::Data { total, a, b } => {
            s.append("races decided: ");
            push_decimal(&mut s, *total);
            s.append("\n");
            push_feed_line(&mut s, "GRPC  ", a);
            push_feed_line(&mut s, "SHRED ", b);
        },
    }
    assert(s@ =~= report_text(*r));
    s
}

} // verus!
