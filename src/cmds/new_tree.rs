//! The decisions of the interactive tree builder: what each answer means.
use core::num::ParseIntError;
use vstd::prelude::*;

use crate::config::SpaceTree;
use crate::DsError;

verus! {

#[verifier::external_type_specification]
#[verifier::external_body]
pub struct ExParseIntError(ParseIntError);

/// A wrong answer to the tree builder.
#[derive(Debug)]
pub enum InteractiveError {
    /// The answer is not a number.
    InvalidInt(ParseIntError),
    /// The number is not one of the menu's.
    UnknownTreeNumber(usize),
}

/// The kinds of tree on the builder's menu, numbered from 1 in this order.
#[derive(Debug, Clone, Copy, PartialEq, Eq, Structural)]
pub enum TreeKind {
    Cmd,
    VSplit,
    HSplit,
}

/// `s` without its leading and trailing white space.
pub uninterp spec fn trim_of(s: Seq<char>) -> Seq<char>;

/// Relies on `str::trim`: the text without its leading and trailing white
/// space.
#[verifier::external_body]
fn trim(s: &str) -> (r: String)
    ensures
        r@ == trim_of(s@),
{
    s.trim().to_string()
}

/// The value of a sequence of decimal digits.
pub open spec fn digits_value(s: Seq<char>) -> int
    decreases s.len(),
{
    if s.len() == 0 {
        0
    } else {
        digits_value(s.drop_last()) * 10 + (s.last() as int - '0' as int)
    }
}

/// The number that `s` writes in decimal, with an optional leading `+`,
/// where it fits in a `usize`.
pub open spec fn parse_decimal(s: Seq<char>) -> Option<int> {
    let d = if s.len() > 0 && s[0] == '+' {
        s.drop_first()
    } else {
        s
    };
    if d.len() > 0 && (forall|i: int| 0 <= i < d.len() ==> '0' <= #[trigger] d[i] <= '9')
        && digits_value(d) <= usize::MAX {
        Some(digits_value(d))
    } else {
        None
    }
}

/// Relies on `usize::from_str_radix` in base 10: an optional `+` then
/// decimal digits, whose value must fit; an error otherwise.
#[verifier::external_body]
fn parse_usize(s: &str) -> (r: Result<usize, ParseIntError>)
    ensures
        match r {
            Ok(n) => parse_decimal(s@) == Some(n as int),
            Err(_) => parse_decimal(s@) is None,
        },
{
    usize::from_str_radix(s, 10)
}

/// The kind of tree that the menu number `n` stands for.
pub fn kind_of_choice(n: usize) -> (r: Result<TreeKind, InteractiveError>)
    ensures
        n == 1 ==> r == Ok::<TreeKind, InteractiveError>(TreeKind::Cmd),
        n == 2 ==> r == Ok::<TreeKind, InteractiveError>(TreeKind::VSplit),
        n == 3 ==> r == Ok::<TreeKind, InteractiveError>(TreeKind::HSplit),
        !(1 <= n <= 3) ==> r == Err::<TreeKind, InteractiveError>(
            InteractiveError::UnknownTreeNumber(n),
        ),
{
    match n {
        1 => Ok(TreeKind::Cmd),
        2 => Ok(TreeKind::VSplit),
        3 => Ok(TreeKind::HSplit),
        _ => Err(InteractiveError::UnknownTreeNumber(n)),
    }
}

/// The kind of tree chosen by the answer `answer` to the menu.
pub fn new_base_tree(answer: &str) -> (r: Result<TreeKind, DsError>)
    ensures
        match parse_decimal(trim_of(answer@)) {
            None => r matches Err(DsError::InteractiveError(InteractiveError::InvalidInt(_))),
            Some(n) => if n == 1 {
                r == Ok::<TreeKind, DsError>(TreeKind::Cmd)
            } else if n == 2 {
                r == Ok::<TreeKind, DsError>(TreeKind::VSplit)
            } else if n == 3 {
                r == Ok::<TreeKind, DsError>(TreeKind::HSplit)
            } else {
                r == Err::<TreeKind, DsError>(
                    DsError::InteractiveError(InteractiveError::UnknownTreeNumber(n as usize)),
                )
            },
        },
{
    let trimmed = trim(answer);
    match parse_usize(trimmed.as_str()) {
        Ok(n) => match kind_of_choice(n) {
            Ok(k) => Ok(k),
            Err(e) => Err(DsError::InteractiveError(e)),
        },
        Err(e) => Err(DsError::InteractiveError(InteractiveError::InvalidInt(e))),
    }
}

/// A leaf running the command typed as `answer`, white space trimmed.
pub fn new_cmd_tree(answer: &str) -> (r: SpaceTree)
    ensures
        r matches SpaceTree::Cmd(c) && c@ == trim_of(answer@),
{
    SpaceTree::Cmd(trim(answer))
}

/// A split into a left and a right pane.
pub fn new_tmux_vsplit_tree(lhs: Option<SpaceTree>, rhs: Option<SpaceTree>) -> (r: SpaceTree)
    ensures
        r matches SpaceTree::TmuxVSplit { lhs: l, rhs: rr } && l == match lhs {
            Some(t) => Some(Box::new(t)),
            None => None,
        } && rr == match rhs {
            Some(t) => Some(Box::new(t)),
            None => None,
        },
{
    SpaceTree::TmuxVSplit {
        lhs: match lhs {
            Some(t) => Some(Box::new(t)),
            None => None,
        },
        rhs: match rhs {
            Some(t) => Some(Box::new(t)),
            None => None,
        },
    }
}

/// A split into a top and a bottom pane.
pub fn new_tmux_hsplit_tree(top: Option<SpaceTree>, bottom: Option<SpaceTree>) -> (r: SpaceTree)
    ensures
        r matches SpaceTree::TmuxHSplit { top: t, bottom: b } && t == match top {
            Some(x) => Some(Box::new(x)),
            None => None,
        } && b == match bottom {
            Some(x) => Some(Box::new(x)),
            None => None,
        },
{
    SpaceTree::TmuxHSplit {
        top: match top {
            Some(x) => Some(Box::new(x)),
            None => None,
        },
        bottom: match bottom {
            Some(x) => Some(Box::new(x)),
            None => None,
        },
    }
}

/// Whether a trimmed answer to a yes-or-no question means yes: with yes as
/// the default anything but `n` or `N` does, else only `y` or `Y`.
pub fn answer_is_yes(trimmed: &str, default_yes: bool) -> (r: bool)
    ensures
        r == if default_yes {
            trimmed@ != "n"@ && trimmed@ != "N"@
        } else {
            trimmed@ == "y"@ || trimmed@ == "Y"@
        },
{
    let t = String::from_str(trimmed);
    if default_yes {
        !(t == String::from_str("n") || t == String::from_str("N"))
    } else {
        t == String::from_str("y") || t == String::from_str("Y")
    }
}

/// Whether the answer `answer` to a yes-or-no question means yes.
pub fn yes_or_no(answer: &str, default_yes: bool) -> (r: bool)
    ensures
        r == if default_yes {
            trim_of(answer@) != "n"@ && trim_of(answer@) != "N"@
        } else {
            trim_of(answer@) == "y"@ || trim_of(answer@) == "Y"@
        },
{
    let trimmed = trim(answer);
    answer_is_yes(trimmed.as_str(), default_yes)
}

} // verus!
