//! Writing numbers of seconds for people to read.

use vstd::prelude::*;

verus! {

/// The character that writes the digit `d`.
pub open spec fn digit_char(d: int) -> char
    recommends
        0 <= d < 10,
{
    if d == 0 {
        '0'
    } else if d == 1 {
        '1'
    } else if d == 2 {
        '2'
    } else if d == 3 {
        '3'
    } else if d == 4 {
        '4'
    } else if d == 5 {
        '5'
    } else if d == 6 {
        '6'
    } else if d == 7 {
        '7'
    } else if d == 8 {
        '8'
    } else {
        '9'
    }
}

/// `n` written in decimal, without leading zeros.
pub open spec fn decimal(n: nat) -> Seq<char>
    decreases n,
{
    if n < 10 {
        seq![digit_char(n as int)]
    } else {
        decimal(n / 10).push(digit_char((n % 10) as int))
    }
}

/// `n` written in decimal, followed by `unit`.
pub open spec fn with_unit(n: nat, unit: char) -> Seq<char> {
    decimal(n).push(unit)
}

/// The parts, in order, with one space between neighbours.
pub open spec fn spaced(parts: Seq<Seq<char>>) -> Seq<char>
    decreases parts.len(),
{
    if parts.len() == 0 {
        Seq::empty()
    } else if parts.len() == 1 {
        parts[0]
    } else {
        spaced(parts.drop_last()) + seq![' '] + parts.last()
    }
}

/// `part` alone where `wanted`, nothing otherwise.
pub open spec fn part_if(wanted: bool, part: Seq<char>) -> Seq<Seq<char>> {
    if wanted {
        seq![part]
    } else {
        Seq::empty()
    }
}

/// The parts that write a non-negative number of seconds: days, hours,
/// minutes and seconds, each only where it is not zero, but for the seconds
/// of a span shorter than a minute.
pub open spec fn duration_parts(seconds: nat) -> Seq<Seq<char>> {
    let days = seconds / 86400;
    let hours = (seconds % 86400) / 3600;
    let mins = (seconds % 3600) / 60;
    let secs = seconds % 60;
    part_if(days > 0, with_unit(days, 'd')) + part_if(hours > 0, with_unit(hours, 'h')) + part_if(
        mins > 0,
        with_unit(mins, 'm'),
    ) + part_if(secs > 0 || seconds < 60, with_unit(secs, 's'))
}

/// How a number of seconds is written: `1d 1h 1m 1s`, `1m 1s`, `0s`.
///
/// Of a negative number no part is positive: above minus one minute the
/// seconds are written with their sign, below that nothing is.
pub open spec fn formatted(seconds: int) -> Seq<char> {
    if seconds >= 0 {
        spaced(duration_parts(seconds as nat))
    } else if seconds > -60 {
        seq!['-'] + with_unit((-seconds) as nat, 's')
    } else {
        Seq::empty()
    }
}

/// The text of one digit.
fn digit_text(d: u64) -> (text: &'static str)
    requires
        d < 10,
    ensures
        text@ == seq![digit_char(d as int)],
{
    proof {
        reveal_strlit("0");
        reveal_strlit("1");
        reveal_strlit("2");
        reveal_strlit("3");
        reveal_strlit("4");
        reveal_strlit("5");
        reveal_strlit("6");
        reveal_strlit("7");
        reveal_strlit("8");
        reveal_strlit("9");
    }
    let text = if d == 0 {
        "0"
    } else if d == 1 {
        "1"
    } else if d == 2 {
        "2"
    } else if d == 3 {
        "3"
    } else if d == 4 {
        "4"
    } else if d == 5 {
        "5"
    } else if d == 6 {
        "6"
    } else if d == 7 {
        "7"
    } else if d == 8 {
        "8"
    } else {
        "9"
    };
    text
}

/// Appends `n` in decimal to `out`.
pub fn push_decimal(out: &mut String, n: u64)
    ensures
        final(out)@ == old(out)@ + decimal(n as nat),
    decreases n,
{
    if n >= 10 {
        push_decimal(out, n / 10);
    }
    out.append(digit_text(n % 10));
}

/// Appends `n` in decimal and `unit` to `out`, after a space where `parts`
/// are already written there.
fn push_part(out: &mut String, Ghost(parts): Ghost<Seq<Seq<char>>>, n: u64, unit: &str, Ghost(c): Ghost<char>)
    requires
        old(out)@ == spaced(parts),
        unit@.len() == 1,
        unit@[0] == c,
        parts.len() > 0 ==> old(out)@.len() > 0,
    ensures
        final(out)@ == spaced(parts.push(with_unit(n as nat, c))),
        final(out)@.len() > 0,
{
    proof {
        reveal_strlit(" ");
    }
    if out.as_str().unicode_len() > 0 {
        out.append(" ");
    }
    push_decimal(out, n);
    out.append(unit);
    assert(parts.push(with_unit(n as nat, c)).drop_last() =~= parts);
}

/// Writes a number of seconds as days, hours, minutes and seconds.
pub fn format_duration(seconds: i64) -> (text: String)
    ensures
        text@ == formatted(seconds as int),
{
    let mut out = String::new();
    if seconds < 0 {
        if seconds > -60 {
            proof {
                reveal_strlit("-");
                reveal_strlit("s");
            }
            out.append("-");
            push_decimal(&mut out, (-seconds) as u64);
            out.append("s");
        }
        return out;
    }
    let total: u64 = seconds as u64;
    let days = total / 86400;
    let hours = (total % 86400) / 3600;
    let mins = (total % 3600) / 60;
    let secs = total % 60;
    let ghost mut parts: Seq<Seq<char>> = Seq::empty();
    proof {
        reveal_strlit("d");
        reveal_strlit("h");
        reveal_strlit("m");
        reveal_strlit("s");
    }
    if days > 0 {
        push_part(&mut out, Ghost(parts), days, "d", Ghost('d'));
        proof {
            parts = parts.push(with_unit(days as nat, 'd'));
        }
    }
    if hours > 0 {
        push_part(&mut out, Ghost(parts), hours, "h", Ghost('h'));
        proof {
            parts = parts.push(with_unit(hours as nat, 'h'));
        }
    }
    if mins > 0 {
        push_part(&mut out, Ghost(parts), mins, "m", Ghost('m'));
        proof {
            parts = parts.push(with_unit(mins as nat, 'm'));
        }
    }
    if secs > 0 || (days == 0 && hours == 0 && mins == 0) {
        push_part(&mut out, Ghost(parts), secs, "s", Ghost('s'));
        proof {
            parts = parts.push(with_unit(secs as nat, 's'));
        }
    }
    assert(parts =~= duration_parts(seconds as nat));
    out
}

} // verus!
