//! The lines that a verbose run reports: one for each pass, one for each
//! rename and one for the unlink.

use crate::overwrite::pass_total;
use crate::remove::{RemoveStep, StepText};
use vstd::prelude::*;
use vstd::string::*;

verus! {

/// The character that stands for `d` in base 16, in lower case; the decimal
/// digits are the first ten.
pub open spec fn digit_char(d: nat) -> char
    recommends
        d < 16,
{
    if d < 10 {
        ('0' as nat + d) as char
    } else {
        ('a' as nat + d - 10) as char
    }
}

/// `n` in decimal, without leading zeros.
pub open spec fn decimal_text(n: nat) -> Seq<char>
    decreases n,
{
    if n < 10 {
        seq![digit_char(n)]
    } else {
        decimal_text(n / 10).push(digit_char(n % 10))
    }
}

/// `value` in base 16, in lower case, without leading zeros.
pub open spec fn hex_text(value: u8) -> Seq<char> {
    if value < 16 {
        seq![digit_char(value as nat)]
    } else {
        seq![digit_char(value as nat / 16), digit_char(value as nat % 16)]
    }
}

/// What `{:?}` makes of a text: the text between double quotes, with the
/// characters that `str`'s `Debug` escapes written as escapes.
pub uninterp spec fn debug_text(text: Seq<char>) -> Seq<char>;

/// Formats `text` with `{:?}`, that is with `<str as core::fmt::Debug>::fmt`.
///
/// The result depends on the text alone; the contract gives it a name and
/// says no more of it.
#[verifier::external_body]
fn quoted(text: &str) -> (r: String)
    ensures
        r@ == debug_text(text@),
{
    format!("{:?}", text)
}

fn digit_str(d: u64) -> (s: &'static str)
    requires
        d < 16,
    ensures
        s@ == seq![digit_char(d as nat)],
{
    proof {
        reveal_strlit("0");
        reveal_strlit("1");
        reveal_strlit("2");
        reveal_strlit("3");
        reveal_strlit("4");
        reveal_strlit("5");
        reveal_strlit("6");
        reveal_strlit("7");
        reveal_strlit("8");
        reveal_strlit("9");
        reveal_strlit("a");
        reveal_strlit("b");
        reveal_strlit("c");
        reveal_strlit("d");
        reveal_strlit("e");
        reveal_strlit("f");
    }
    let s = if d == 0 {
        "0"
    } else if d == 1 {
        "1"
    } else if d == 2 {
        "2"
    } else if d == 3 {
        "3"
    } else if d == 4 {
        "4"
    } else if d == 5 {
        "5"
    } else if d == 6 {
        "6"
    } else if d == 7 {
        "7"
    } else if d == 8 {
        "8"
    } else if d == 9 {
        "9"
    } else if d == 10 {
        "a"
    } else if d == 11 {
        "b"
    } else if d == 12 {
        "c"
    } else if d == 13 {
        "d"
    } else if d == 14 {
        "e"
    } else {
        "f"
    };
    assert(s@ =~= seq![digit_char(d as nat)]);
    s
}

/// Writes `n` in decimal.
pub fn decimal_string(n: u64) -> (r: String)
    ensures
        r@ == decimal_text(n as nat),
    decreases n,
{
    if n < 10 {
        String::from_str(digit_str(n))
    } else {
        let mut r = decimal_string(n / 10);
        r.append(digit_str(n % 10));
        assert(r@ =~= decimal_text(n as nat / 10).push(digit_char(n as nat % 10)));
        r
    }
}

/// Writes `value` in base 16.
pub fn hex_string(value: u8) -> (r: String)
    ensures
        r@ == hex_text(value),
{
    if value < 16 {
        String::from_str(digit_str(value as u64))
    } else {
        let mut r = String::from_str(digit_str((value / 16) as u64));
        r.append(digit_str((value % 16) as u64));
        assert(r@ =~= hex_text(value));
        r
    }
}

/// The line for one pass: the path as it was quoted, the number of the pass
/// and the number of passes, and what the pass writes: `random`, or its byte
/// in base 16.
pub open spec fn step_text(
    quoted_path: Seq<char>,
    step: nat,
    total: nat,
    randomize: bool,
    value: u8,
) -> Seq<char> {
    quoted_path + ": step"@ + decimal_text(step) + "/"@ + decimal_text(total) + " ("@ + (if randomize {
        "random"@
    } else {
        hex_text(value)
    }) + ")."@
}

/// Makes the line for pass number `step` of `total`, counted from 1, on the
/// file whose quoted path is `quoted_path`.
pub fn step_line(quoted_path: &str, step: u64, total: u64, randomize: bool, value: u8) -> (r:
    String)
    ensures
        r@ == step_text(quoted_path@, step as nat, total as nat, randomize, value),
{
    let mut r = String::from_str(quoted_path);
    r.append(": step");
    r.append(decimal_string(step).as_str());
    r.append("/");
    r.append(decimal_string(total).as_str());
    r.append(" (");
    if randomize {
        r.append("random");
    } else {
        r.append(hex_string(value).as_str());
    }
    r.append(").");
    r
}

/// Makes the line that reports the pass with the 0-based index
/// `actual_step` on `file_path`, in a run of `total_steps` passes that a
/// pass of zeros follows where `write_zeroes` is set. The line counts the
/// passes from 1 and quotes the path as `{:?}` does.
pub fn write_value_line(
    total_steps: u32,
    actual_step: u32,
    write_zeroes: bool,
    file_path: &str,
    randomize: bool,
    value: u8,
) -> (r: String)
    ensures
        r@ == step_text(
            debug_text(file_path@),
            actual_step as nat + 1,
            pass_total(total_steps as nat, write_zeroes),
            randomize,
            value,
        ),
{
    let total: u64 = if write_zeroes {
        total_steps as u64 + 1
    } else {
        total_steps as u64
    };
    let path = quoted(file_path);
    step_line(path.as_str(), actual_step as u64 + 1, total, randomize, value)
}

/// The line for one step of a removal, given its paths as they were quoted.
pub open spec fn removal_text(shown: StepText) -> Seq<char> {
    match shown {
        StepText::Rename { from, to } => from + " renamed to "@ + to,
        StepText::Unlink { path } => path + " removed"@,
    }
}

/// A step with each of its paths quoted as `{:?}` does.
pub open spec fn quoted_step(step: StepText) -> StepText {
    match step {
        StepText::Rename { from, to } => StepText::Rename {
            from: debug_text(from),
            to: debug_text(to),
        },
        StepText::Unlink { path } => StepText::Unlink { path: debug_text(path) },
    }
}

/// Makes the line for one step of a removal whose paths are quoted already.
pub fn removal_line(shown: &RemoveStep) -> (r: String)
    ensures
        r@ == removal_text(shown@),
{
    match shown {
        RemoveStep::Rename { from, to } => {
            let mut r = String::from_str(from.as_str());
            r.append(" renamed to ");
            r.append(to.as_str());
            r
        },
        RemoveStep::Unlink { path } => {
            let mut r = String::from_str(path.as_str());
            r.append(" removed");
            r
        },
    }
}

/// Makes the line that reports one step of a removal, its paths quoted as
/// `{:?}` does.
pub fn removal_step_line(step: &RemoveStep) -> (r: String)
    ensures
        r@ == removal_text(quoted_step(step@)),
{
    let shown = match step {
        RemoveStep::Rename { from, to } => RemoveStep::Rename {
            from: quoted(from.as_str()),
            to: quoted(to.as_str()),
        },
        RemoveStep::Unlink { path } => RemoveStep::Unlink { path: quoted(path.as_str()) },
    };
    removal_line(&shown)
}

} // verus!
