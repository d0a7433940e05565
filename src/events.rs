//! Output events of a supervised child and their textual payloads.
use vstd::prelude::*;

verus! {

/// One event toward the front end.
#[derive(Debug, Clone, PartialEq, Eq)]
pub enum OutputEvent {
    /// A line the child wrote to standard output, without its terminator.
    Stdout(String),
    /// A line the child wrote to standard error, without its terminator.
    Stderr(String),
    /// The child ended, with its exit code where the system gave one.
    Terminated(Option<i32>),
}

/// The name of the channel an event is delivered on.
pub open spec fn channel_of(e: OutputEvent) -> Seq<char> {
    match e {
        OutputEvent::Stdout(_) => "process.stdout"@,
        OutputEvent::Stderr(_) => "process.stderr"@,
        OutputEvent::Terminated(_) => "process.terminated"@,
    }
}

/// The text an event carries.
pub open spec fn payload_of(e: OutputEvent) -> Seq<char> {
    match e {
        OutputEvent::Stdout(line) => line@,
        OutputEvent::Stderr(line) => line@,
        OutputEvent::Terminated(code) => exit_text(code),
    }
}

impl OutputEvent {
    /// The name of the channel this event is delivered on.
    pub fn channel(&self) -> (r: &'static str)
        ensures
            r@ == channel_of(*self),
    {
        match self {
            OutputEvent::Stdout(_) => "process.stdout",
            OutputEvent::Stderr(_) => "process.stderr",
            OutputEvent::Terminated(_) => "process.terminated",
        }
    }

    /// The text this event carries: the line, or the exit code text.
    pub fn payload(&self) -> (r: String)
        ensures
            r@ == payload_of(*self),
    {
        match self {
            OutputEvent::Stdout(line) => line.clone(),
            OutputEvent::Stderr(line) => line.clone(),
            OutputEvent::Terminated(code) => exit_code_text(*code),
        }
    }
}

/// The character of a decimal digit.
pub open spec fn digit_char(d: nat) -> char
    recommends
        d < 10,
{
    if d == 0 { '0' }
    else if d == 1 { '1' }
    else if d == 2 { '2' }
    else if d == 3 { '3' }
    else if d == 4 { '4' }
    else if d == 5 { '5' }
    else if d == 6 { '6' }
    else if d == 7 { '7' }
    else if d == 8 { '8' }
    else { '9' }
}

/// Decimal digits of a natural number, most significant first, without
/// leading zeros (zero itself is written `0`).
pub open spec fn decimal(n: nat) -> Seq<char>
    decreases n,
{
    if n < 10 {
        seq![digit_char(n)]
    } else {
        decimal(n / 10) + seq![digit_char(n % 10)]
    }
}

/// Decimal text of an integer, with a leading `-` when it is negative.
pub open spec fn signed_decimal(c: int) -> Seq<char> {
    if c < 0 {
        seq!['-'] + decimal((-c) as nat)
    } else {
        decimal(c as nat)
    }
}

/// Payload of the termination event: the exit code in decimal, or
/// `unknown` when the operating system gave none.
pub open spec fn exit_text(code: Option<i32>) -> Seq<char> {
    match code {
        Some(c) => signed_decimal(c as int),
        None => seq!['u', 'n', 'k', 'n', 'o', 'w', 'n'],
    }
}

fn digit_str(d: u32) -> (r: &'static str)
    requires
        d < 10,
    ensures
        r@ == seq![digit_char(d as nat)],
{
    proof {
        reveal_strlit("0");
        reveal_strlit("1");
        reveal_strlit("2");
        reveal_strlit("3");
        reveal_strlit("4");
        reveal_strlit("5");
        reveal_strlit("6");
        reveal_strlit("7");
        reveal_strlit("8");
        reveal_strlit("9");
    }
    match d {
        0 => "0",
        1 => "1",
        2 => "2",
        3 => "3",
        4 => "4",
        5 => "5",
        6 => "6",
        7 => "7",
        8 => "8",
        _ => "9",
    }
}

/// Appends the decimal digits of `n` to `out`.
fn push_decimal(out: &mut String, n: u32)
    ensures
        final(out)@ == old(out)@ + decimal(n as nat),
    decreases n,
{
    if n >= 10 {
        push_decimal(out, n / 10);
    }
    out.append(digit_str(n % 10));
    proof {
        assert(decimal(n as nat) == if n < 10 {
            seq![digit_char(n as nat)]
        } else {
            decimal((n / 10) as nat) + seq![digit_char((n % 10) as nat)]
        });
        if n < 10 {
            assert(n % 10 == n);
        }
    }
}

/// Text carried by the termination event: the exit code as decimal text,
/// or `unknown` where the child left no numeric code (killed by a signal).
pub fn exit_code_text(code: Option<i32>) -> (r: String)
    ensures
        r@ == exit_text(code),
{
    match code {
        None => {
            proof {
                reveal_strlit("unknown");
            }
            String::from_str("unknown")
        },
        Some(c) => {
            let mut out = String::new();
            if c < 0 {
                proof {
                    reveal_strlit("-");
                }
                out.append("-");
                let magnitude: u32 = if c == i32::MIN {
                    2147483648u32
                } else {
                    (-c) as u32
                };
                push_decimal(&mut out, magnitude);
            } else {
                push_decimal(&mut out, c as u32);
            }
            out
        },
    }
}

} // verus!
