use vstd::prelude::*;

verus! {

pub open spec fn digit_char(d: int) -> char {
    seq!['0', '1', '2', '3', '4', '5', '6', '7', '8', '9'][d]
}

/// Decimal digits of `n`, most significant first, with no leading zero.
pub open spec fn decimal(n: nat) -> Seq<char>
    decreases n,
{
    if n < 10 {
        seq![digit_char(n as int)]
    } else {
        decimal(n / 10).push(digit_char((n % 10) as int))
    }
}

/// Decimal digits of `n`, zero-padded on the left to at least `width`
/// characters: the last `width - 1` digits preceded by the rest of the number.
pub open spec fn padded(n: nat, width: nat) -> Seq<char>
    decreases width,
{
    if width <= 1 {
        decimal(n)
    } else {
        padded(n / 10, (width - 1) as nat).push(digit_char((n % 10) as int))
    }
}

/// `YYYY-MM-DD HH:MM:SS.UUUUUU`, each field zero-padded.
pub open spec fn date_text(year: u16, month: u8, day: u8, hour: u8, minute: u8, second: u8, micros: u32) -> Seq<char> {
    padded(year as nat, 4) + seq!['-'] + padded(month as nat, 2) + seq!['-'] + padded(day as nat, 2)
        + seq![' '] + padded(hour as nat, 2) + seq![':'] + padded(minute as nat, 2) + seq![':']
        + padded(second as nat, 2) + seq!['.'] + padded(micros as nat, 6)
}

/// `[-]HH:MM:SS.UUUUUU`, where the hours count the days too.
pub open spec fn time_text(negative: bool, days: u32, hours: u8, minutes: u8, seconds: u8, micros: u32) -> Seq<char> {
    (if negative {
        seq!['-']
    } else {
        Seq::<char>::empty()
    }) + padded((days * 24 + hours) as nat, 2) + seq![':'] + padded(minutes as nat, 2) + seq![':']
        + padded(seconds as nat, 2) + seq!['.'] + padded(micros as nat, 6)
}

fn digit_str(d: u64) -> (r: &'static str)
    requires
        d < 10,
    ensures
        r@ == seq![digit_char(d as int)],
{
    if d == 0 {
        proof { reveal_strlit("0"); }
        "0"
    } else if d == 1 {
        proof { reveal_strlit("1"); }
        "1"
    } else if d == 2 {
        proof { reveal_strlit("2"); }
        "2"
    } else if d == 3 {
        proof { reveal_strlit("3"); }
        "3"
    } else if d == 4 {
        proof { reveal_strlit("4"); }
        "4"
    } else if d == 5 {
        proof { reveal_strlit("5"); }
        "5"
    } else if d == 6 {
        proof { reveal_strlit("6"); }
        "6"
    } else if d == 7 {
        proof { reveal_strlit("7"); }
        "7"
    } else if d == 8 {
        proof { reveal_strlit("8"); }
        "8"
    } else {
        proof { reveal_strlit("9"); }
        "9"
    }
}

fn push_decimal(out: &mut String, n: u64)
    ensures
        final(out)@ == old(out)@ + decimal(n as nat),
    decreases n,
{
    if n >= 10 {
        push_decimal(out, n / 10);
    }
    out.append(digit_str(n % 10));
    proof {
        if n >= 10 {
            assert(old(out)@ + decimal(n as nat) =~= old(out)@ + decimal((n / 10) as nat) + seq![
                digit_char((n % 10) as int),
            ]);
        } else {
            assert(decimal(n as nat) == seq![digit_char((n % 10) as int)]);
        }
    }
}

fn push_padded(out: &mut String, n: u64, width: u64)
    ensures
        final(out)@ == old(out)@ + padded(n as nat, width as nat),
    decreases width,
{
    if width <= 1 {
        push_decimal(out, n);
    } else {
        push_padded(out, n / 10, width - 1);
        out.append(digit_str(n % 10));
        proof {
            assert(old(out)@ + padded(n as nat, width as nat) =~= old(out)@ + padded(
                (n / 10) as nat,
                (width - 1) as nat,
            ) + seq![digit_char((n % 10) as int)]);
        }
    }
}

fn push_literal(out: &mut String, s: &str)
    ensures
        final(out)@ == old(out)@ + s@,
{
    out.append(s);
}

/// Writes a date cell as `YYYY-MM-DD HH:MM:SS.UUUUUU`.
pub fn format_date(year: u16, month: u8, day: u8, hour: u8, minute: u8, second: u8, micros: u32) -> (r: String)
    ensures
        r@ == date_text(year, month, day, hour, minute, second, micros),
{
    proof {
        reveal_strlit("-");
        reveal_strlit(" ");
        reveal_strlit(":");
        reveal_strlit(".");
    }
    let mut out = String::new();
    push_padded(&mut out, year as u64, 4);
    push_literal(&mut out, "-");
    push_padded(&mut out, month as u64, 2);
    push_literal(&mut out, "-");
    push_padded(&mut out, day as u64, 2);
    push_literal(&mut out, " ");
    push_padded(&mut out, hour as u64, 2);
    push_literal(&mut out, ":");
    push_padded(&mut out, minute as u64, 2);
    push_literal(&mut out, ":");
    push_padded(&mut out, second as u64, 2);
    push_literal(&mut out, ".");
    push_padded(&mut out, micros as u64, 6);
    assert(out@ =~= date_text(year, month, day, hour, minute, second, micros));
    out
}

/// Writes a time cell as `[-]HH:MM:SS.UUUUUU`, with the days counted into the
/// hours.
pub fn format_time(negative: bool, days: u32, hours: u8, minutes: u8, seconds: u8, micros: u32) -> (r: String)
    ensures
        r@ == time_text(negative, days, hours, minutes, seconds, micros),
{
    proof {
        reveal_strlit("-");
        reveal_strlit(":");
        reveal_strlit(".");
    }
    let mut out = String::new();
    if negative {
        push_literal(&mut out, "-");
    }
    let total_hours: u64 = days as u64 * 24 + hours as u64;
    push_padded(&mut out, total_hours, 2);
    push_literal(&mut out, ":");
    push_padded(&mut out, minutes as u64, 2);
    push_literal(&mut out, ":");
    push_padded(&mut out, seconds as u64, 2);
    push_literal(&mut out, ".");
    push_padded(&mut out, micros as u64, 6);
    assert(out@ =~= time_text(negative, days, hours, minutes, seconds, micros));
    out
}

} // verus!
