//! The nuzzle command: composes a giggly response from a random action,
//! an optional opener, and optional flourishes.

use vstd::prelude::*;

use crate::rng::{pick_index, random_ratio};
use crate::text::append_str;

verus! {

/// Provides the nuzzle command.
pub struct NuzzleProvider;

/// The openers a response may giggle with.
pub open spec fn spec_nuzzle_prefix(i: int) -> Seq<char> {
    if i == 0 {
        "*giggle!* "@
    } else if i == 1 {
        "eee hehe! "@
    } else if i == 2 {
        "hehehe! "@
    } else if i == 3 {
        "aaa! "@
    } else {
        "eep! "@
    }
}

/// The nuzzle actions.
pub open spec fn spec_nuzzle_action(i: int) -> Seq<char> {
    if i == 0 {
        "nuzzle"@
    } else if i == 1 {
        "nuzzleeeee"@
    } else if i == 2 {
        "nuzzlenuzzle"@
    } else if i == 3 {
        "nuzzles back"@
    } else {
        "nuzznuzz"@
    }
}

/// The composed response: the optional opener, then the action in italics
/// with its optional exclamation mark and heart.
pub open spec fn spec_nuzzle_response(
    prefix_i: int,
    with_prefix: bool,
    action_i: int,
    exclamation: bool,
    heart: bool,
) -> Seq<char> {
    (if with_prefix {
        spec_nuzzle_prefix(prefix_i)
    } else {
        Seq::<char>::empty()
    }) + "_"@ + spec_nuzzle_action(action_i) + (if exclamation {
        "!"@
    } else {
        Seq::<char>::empty()
    }) + (if heart {
        "<3"@
    } else {
        Seq::<char>::empty()
    }) + "_"@
}

/// The opener at index `i`.
fn nuzzle_prefix(i: usize) -> (r: &'static str)
    requires
        i < 5,
    ensures
        r@ == spec_nuzzle_prefix(i as int),
{
    match i {
        0 => "*giggle!* ",
        1 => "eee hehe! ",
        2 => "hehehe! ",
        3 => "aaa! ",
        _ => "eep! ",
    }
}

/// The action at index `i`.
fn nuzzle_action(i: usize) -> (r: &'static str)
    requires
        i < 5,
    ensures
        r@ == spec_nuzzle_action(i as int),
{
    match i {
        0 => "nuzzle",
        1 => "nuzzleeeee",
        2 => "nuzzlenuzzle",
        3 => "nuzzles back",
        _ => "nuzznuzz",
    }
}

/// Composes the response from the chosen pieces.
pub fn build_response(
    prefix_i: usize,
    with_prefix: bool,
    action_i: usize,
    exclamation: bool,
    heart: bool,
) -> (r: String)
    requires
        prefix_i < 5,
        action_i < 5,
    ensures
        r@ == spec_nuzzle_response(prefix_i as int, with_prefix, action_i as int, exclamation, heart),
{
    let mut msg = String::new();
    if with_prefix {
        append_str(&mut msg, nuzzle_prefix(prefix_i));
    }
    append_str(&mut msg, "_");
    append_str(&mut msg, nuzzle_action(action_i));
    if exclamation {
        append_str(&mut msg, "!");
    }
    if heart {
        append_str(&mut msg, "<3");
    }
    append_str(&mut msg, "_");
    assert(msg@ =~= spec_nuzzle_response(
        prefix_i as int,
        with_prefix,
        action_i as int,
        exclamation,
        heart,
    ));
    msg
}

impl NuzzleProvider {
    /// A random nuzzle: the opener appears half the time, the exclamation
    /// mark half the time, and the heart a quarter of the time.
    pub fn get_response() -> (r: String)
        ensures
            exists|pi: int, ai: int, wp: bool, ex: bool, he: bool|
                #![trigger spec_nuzzle_response(pi, wp, ai, ex, he)]
                0 <= pi < 5 && 0 <= ai < 5 && r@ == spec_nuzzle_response(pi, wp, ai, ex, he),
    {
        let action_i = pick_index(5);
        let with_prefix = random_ratio(1, 2);
        let prefix_i = pick_index(5);
        let exclamation = random_ratio(1, 2);
        let heart = random_ratio(1, 4);
        let r = build_response(prefix_i, with_prefix, action_i, exclamation, heart);
        proof {
            assert(spec_nuzzle_response(
                prefix_i as int,
                with_prefix,
                action_i as int,
                exclamation,
                heart,
            ) == spec_nuzzle_response(
                prefix_i as int,
                with_prefix,
                action_i as int,
                exclamation,
                heart,
            ));
        }
        r
    }
}

} // verus!
