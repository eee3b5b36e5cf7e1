//! The dice-rolling command: rolls a die with the given number of sides
//! and phrases the result, with special flourishes for critical rolls.

use vstd::prelude::*;

use crate::rng::{pick_index, roll_die};

verus! {

/// Provides the roll command.
pub struct DiceHandler;

/// A phrased roll: either a single stand-alone message, or a prefix, the
/// rolled number, and a suffix.
pub enum RollResult {
    SingleMessage(String),
    Full(String, u8, String),
}

/// The openers a roll message may start with.
pub open spec fn spec_result_prefix(i: int) -> Seq<char> {
    if i == 0 {
        "you roll and... it lands on "@
    } else if i == 1 {
        "...it's a "@
    } else if i == 2 {
        "you rolled a "@
    } else if i == 3 {
        "it's a "@
    } else {
        ""@
    }
}

/// The jabs appended to a critical failure.
pub open spec fn spec_critical_failure_suffix(i: int) -> Seq<char> {
    if i == 0 {
        ". ouch."@
    } else if i == 1 {
        ". better luck next time >.>"@
    } else if i == 2 {
        ". this oughta be good."@
    } else if i == 3 {
        "... 🍿"@
    } else if i == 4 {
        ". haha. yikes."@
    } else {
        " lol"@
    }
}

/// The cheers appended to a critical success.
pub open spec fn spec_critical_success_suffix(i: int) -> Seq<char> {
    if i == 0 {
        "!! impressive ;3"@
    } else if i == 1 {
        "!! 🎉🎉"@
    } else if i == 2 {
        "!! >u<"@
    } else if i == 3 {
        "!! :D "@
    } else {
        "!! >:D "@
    }
}

/// One of the openers.
fn result_prefix(i: usize) -> (r: &'static str)
    requires
        i < 5,
    ensures
        r@ == spec_result_prefix(i as int),
{
    match i {
        0 => "you roll and... it lands on ",
        1 => "...it's a ",
        2 => "you rolled a ",
        3 => "it's a ",
        _ => "",
    }
}

/// One of the critical-failure jabs.
fn critical_failure_suffix(i: usize) -> (r: &'static str)
    requires
        i < 6,
    ensures
        r@ == spec_critical_failure_suffix(i as int),
{
    match i {
        0 => ". ouch.",
        1 => ". better luck next time >.>",
        2 => ". this oughta be good.",
        3 => "... 🍿",
        4 => ". haha. yikes.",
        _ => " lol",
    }
}

/// One of the critical-success cheers.
fn critical_success_suffix(i: usize) -> (r: &'static str)
    requires
        i < 5,
    ensures
        r@ == spec_critical_success_suffix(i as int),
{
    match i {
        0 => "!! impressive ;3",
        1 => "!! 🎉🎉",
        2 => "!! >u<",
        3 => "!! :D ",
        _ => "!! >:D ",
    }
}

/// The suffix a roll earns: a plain full stop or bang for an ordinary
/// roll (by whether it clears half the die), a jab on a 1, a wink on 69,
/// and a cheer on the maximum — the last three only on dice of at least
/// twenty sides.
pub open spec fn spec_roll_suffix(result: u8, sides: u8, fail_i: int, success_i: int) -> Seq<
    char,
> {
    if sides < 20 || (result != 1 && result != sides) {
        if result <= sides / 2 {
            "."@
        } else {
            "!"@
        }
    } else if result == 1 {
        spec_critical_failure_suffix(fail_i)
    } else if result == 69 {
        ". nice ;3"@
    } else {
        spec_critical_success_suffix(success_i)
    }
}

/// Phrases a rolled number, given the chosen opener and flourishes.
fn number_to_message(result: u8, sides: u8, prefix_i: usize, fail_i: usize, success_i: usize) -> (r:
    RollResult)
    requires
        prefix_i < 5,
        fail_i < 6,
        success_i < 5,
    ensures
        r matches RollResult::Full(p, n, s) && p@ == spec_result_prefix(prefix_i as int) && n
            == result && s@ == spec_roll_suffix(result, sides, fail_i as int, success_i as int),
{
    let prefix = result_prefix(prefix_i);
    if sides < 20 || (result != 1 && result != sides) {
        let suffix: &'static str = if result <= sides / 2 {
            "."
        } else {
            "!"
        };
        RollResult::Full(prefix.to_owned(), result, suffix.to_owned())
    } else if result == 1 {
        RollResult::Full(prefix.to_owned(), result, critical_failure_suffix(fail_i).to_owned())
    } else if result == 69 {
        RollResult::Full(prefix.to_owned(), result, ". nice ;3".to_owned())
    } else {
        RollResult::Full(prefix.to_owned(), result, critical_success_suffix(success_i).to_owned())
    }
}

impl DiceHandler {
    /// Rolls a die and phrases the outcome: fixed quips for zero-, one-
    /// and two-sided dice, and a random opener with a case-dependent
    /// suffix otherwise.
    pub fn roll_for_message(sides: u8) -> (r: RollResult)
        ensures
            sides == 0 ==> (r matches RollResult::SingleMessage(m) && m@ == "what."@),
            sides == 1 ==> (r matches RollResult::SingleMessage(m) && m@
                == "you roll a one-sided die. it's a 1."@),
            sides == 2 ==> (r matches RollResult::SingleMessage(m) && (m@
                == "coin flip. it's heads!"@ || m@ == "coin flip. it's tails!"@)),
            sides >= 3 ==> (r matches RollResult::Full(p, n, s) && 1 <= n <= sides && (exists|
                i: int,
            |
                0 <= i < 5 && p@ == spec_result_prefix(i)) && (exists|fi: int, si: int|
                0 <= fi < 6 && 0 <= si < 5 && s@ == spec_roll_suffix(n, sides, fi, si))),
    {
        if sides == 0 {
            RollResult::SingleMessage("what.".to_owned())
        } else if sides == 1 {
            RollResult::SingleMessage("you roll a one-sided die. it's a 1.".to_owned())
        } else {
            let result = roll_die(sides);
            if sides == 2 {
                let text: &'static str = if result == 1 {
                    "coin flip. it's heads!"
                } else {
                    "coin flip. it's tails!"
                };
                RollResult::SingleMessage(text.to_owned())
            } else {
                let prefix_i = pick_index(5);
                let fail_i = pick_index(6);
                let success_i = pick_index(5);
                let r = number_to_message(result, sides, prefix_i, fail_i, success_i);
                proof {
                    assert(0 <= prefix_i < 5 && spec_result_prefix(prefix_i as int)
                        == spec_result_prefix(prefix_i as int));
                }
                r
            }
        }
    }
}

} // verus!
