//! Notification texts.  Each phase boundary of a session posts one fixed
//! message; the work-period announcement carries the 1-based period number
//! rendered in decimal.

use vstd::prelude::*;

verus! {

/// One notification kind, one per phase boundary of a session.
/// `WorkStart` carries the 1-based number of the work period it announces.
#[derive(Clone, Copy, Debug, PartialEq, Eq, Structural)]
pub enum Notice {
    SessionStart,
    WorkStart(u64),
    ShortBreakStart,
    LongBreakStart,
    SessionComplete,
}

/// The character for a single decimal digit.
pub open spec fn digit_char(d: nat) -> char
    recommends
        d < 10,
{
    if d == 0 {
        '0'
    } else if d == 1 {
        '1'
    } else if d == 2 {
        '2'
    } else if d == 3 {
        '3'
    } else if d == 4 {
        '4'
    } else if d == 5 {
        '5'
    } else if d == 6 {
        '6'
    } else if d == 7 {
        '7'
    } else if d == 8 {
        '8'
    } else {
        '9'
    }
}

/// The decimal rendering of a natural number, most significant digit first,
/// with no leading zeros (zero itself renders as "0").
pub open spec fn decimal_spec(n: nat) -> Seq<char>
    decreases n,
{
    if n < 10 {
        seq![digit_char(n)]
    } else {
        decimal_spec(n / 10).push(digit_char(n % 10))
    }
}

/// The text posted for a notification, as a character sequence.
pub open spec fn notice_text_spec(n: Notice) -> Seq<char> {
    match n {
        Notice::SessionStart => "Starting pomodoro..."@,
        Notice::WorkStart(p) => "Starting work period "@ + decimal_spec(p as nat) + "..."@,
        Notice::ShortBreakStart => "Taking a short break..."@,
        Notice::LongBreakStart => "Taking a long break..."@,
        Notice::SessionComplete => "Pomodoro session complete!"@,
    }
}

/// A one-character string for a single decimal digit.
fn digit_str(d: u64) -> (r: &'static str)
    requires
        d < 10,
    ensures
        r@ == seq![digit_char(d as nat)],
{
    proof {
        reveal_strlit("0");
        reveal_strlit("1");
        reveal_strlit("2");
        reveal_strlit("3");
        reveal_strlit("4");
        reveal_strlit("5");
        reveal_strlit("6");
        reveal_strlit("7");
        reveal_strlit("8");
        reveal_strlit("9");
    }
    let r: &'static str = match d {
        0 => "0",
        1 => "1",
        2 => "2",
        3 => "3",
        4 => "4",
        5 => "5",
        6 => "6",
        7 => "7",
        8 => "8",
        _ => "9",
    };
    proof {
        assert(r@ =~= seq![digit_char(d as nat)]);
    }
    r
}

/// Appends the decimal rendering of `n` to `s`.
fn push_decimal(s: &mut String, n: u64)
    ensures
        final(s)@ == old(s)@ + decimal_spec(n as nat),
    decreases n,
{
    if n >= 10 {
        push_decimal(s, n / 10);
    }
    let d = n % 10;
    s.append(digit_str(d));
    proof {
        if n < 10 {
            assert(final(s)@ =~= old(s)@ + decimal_spec(n as nat));
        } else {
            assert(decimal_spec(n as nat) =~= decimal_spec(n as nat / 10).push(
                digit_char(n as nat % 10),
            ));
            assert(final(s)@ =~= old(s)@ + decimal_spec(n as nat));
        }
    }
}

/// The decimal rendering of `n` as a string.
pub fn decimal_string(n: u64) -> (r: String)
    ensures
        r@ == decimal_spec(n as nat),
{
    let mut s = String::new();
    push_decimal(&mut s, n);
    proof {
        assert(s@ =~= decimal_spec(n as nat));
    }
    s
}

impl Notice {
    /// The text posted for this notification.
    pub fn text(&self) -> (r: String)
        ensures
            r@ == notice_text_spec(*self),
    {
        match self {
            Notice::SessionStart => String::from_str("Starting pomodoro..."),
            Notice::WorkStart(p) => {
                let mut s = String::from_str("Starting work period ");
                push_decimal(&mut s, *p);
                s.append("...");
                proof {
                    assert(s@ =~= notice_text_spec(*self));
                }
                s
            },
            Notice::ShortBreakStart => String::from_str("Taking a short break..."),
            Notice::LongBreakStart => String::from_str("Taking a long break..."),
            Notice::SessionComplete => String::from_str("Pomodoro session complete!"),
        }
    }
}

} // verus!
