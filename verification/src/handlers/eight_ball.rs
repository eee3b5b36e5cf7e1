//! The magic eight ball: a random shake and a random prediction.

use vstd::prelude::*;

use crate::rng::pick_index;
use crate::text::append_str;

verus! {

/// Provides the eight-ball command.
pub struct EightBallProvider;

/// The adverbs the ball may be shaken with.
pub open spec fn spec_shake_adverb(i: int) -> Seq<char> {
    if i == 0 {
        "anxiously"@
    } else if i == 1 {
        "boldly"@
    } else if i == 2 {
        "briskly"@
    } else if i == 3 {
        "carefully"@
    } else if i == 4 {
        "carelessly"@
    } else if i == 5 {
        "cautiously"@
    } else if i == 6 {
        "curiously"@
    } else if i == 7 {
        "daintily"@
    } else if i == 8 {
        "delicately"@
    } else if i == 9 {
        "doubtfully"@
    } else if i == 10 {
        "eagerly"@
    } else if i == 11 {
        "excitedly"@
    } else if i == 12 {
        "fiercely"@
    } else if i == 13 {
        "firmly"@
    } else if i == 14 {
        "gently"@
    } else if i == 15 {
        "gracefully"@
    } else if i == 16 {
        "impatiently"@
    } else if i == 17 {
        "nervously"@
    } else if i == 18 {
        "recklessly"@
    } else if i == 19 {
        "skeptically"@
    } else if i == 20 {
        "suspiciously"@
    } else if i == 21 {
        "tenderly"@
    } else if i == 22 {
        "vigorously"@
    } else {
        "violently"@
    }
}

/// The predictions the ball may answer with.
pub open spec fn spec_eight_ball_response(i: int) -> Seq<char> {
    if i == 0 {
        "it is certain!"@
    } else if i == 1 {
        "it is decidedly so!"@
    } else if i == 2 {
        "without a doubt!"@
    } else if i == 3 {
        "yes - definitely!"@
    } else if i == 4 {
        "you may rely on it!"@
    } else if i == 5 {
        "as I see it, yes!"@
    } else if i == 6 {
        "most likely!"@
    } else if i == 7 {
        "outlook good!"@
    } else if i == 8 {
        "yes!"@
    } else if i == 9 {
        "signs point to yes!"@
    } else if i == 10 {
        "reply hazy, try again."@
    } else if i == 11 {
        "ask again later."@
    } else if i == 12 {
        "better not tell you now..."@
    } else if i == 13 {
        "cannot predict now."@
    } else if i == 14 {
        "concentrate and ask again."@
    } else if i == 15 {
        "don't count on it."@
    } else if i == 16 {
        "my reply is no."@
    } else if i == 17 {
        "my sources say no..."@
    } else if i == 18 {
        "outlook not so good..."@
    } else {
        "very doubtful."@
    }
}

/// The shake phrase for adverb `i`: "shakes eight ball <adverb>...".
pub open spec fn spec_shake_message(i: int) -> Seq<char> {
    "shakes eight ball "@ + spec_shake_adverb(i) + "..."@
}

/// The adverb at index `i`.
fn shake_adverb(i: usize) -> (r: &'static str)
    requires
        i < 24,
    ensures
        r@ == spec_shake_adverb(i as int),
{
    match i {
        0 => "anxiously",
        1 => "boldly",
        2 => "briskly",
        3 => "carefully",
        4 => "carelessly",
        5 => "cautiously",
        6 => "curiously",
        7 => "daintily",
        8 => "delicately",
        9 => "doubtfully",
        10 => "eagerly",
        11 => "excitedly",
        12 => "fiercely",
        13 => "firmly",
        14 => "gently",
        15 => "gracefully",
        16 => "impatiently",
        17 => "nervously",
        18 => "recklessly",
        19 => "skeptically",
        20 => "suspiciously",
        21 => "tenderly",
        22 => "vigorously",
        _ => "violently",
    }
}

/// The prediction at index `i`.
pub fn eight_ball_response_at(i: usize) -> (r: &'static str)
    requires
        i < 20,
    ensures
        r@ == spec_eight_ball_response(i as int),
{
    match i {
        0 => "it is certain!",
        1 => "it is decidedly so!",
        2 => "without a doubt!",
        3 => "yes - definitely!",
        4 => "you may rely on it!",
        5 => "as I see it, yes!",
        6 => "most likely!",
        7 => "outlook good!",
        8 => "yes!",
        9 => "signs point to yes!",
        10 => "reply hazy, try again.",
        11 => "ask again later.",
        12 => "better not tell you now...",
        13 => "cannot predict now.",
        14 => "concentrate and ask again.",
        15 => "don't count on it.",
        16 => "my reply is no.",
        17 => "my sources say no...",
        18 => "outlook not so good...",
        _ => "very doubtful.",
    }
}

/// The shake phrase for adverb `i`.
pub fn shake_message_at(i: usize) -> (r: String)
    requires
        i < 24,
    ensures
        r@ == spec_shake_message(i as int),
{
    let mut msg = String::new();
    append_str(&mut msg, "shakes eight ball ");
    append_str(&mut msg, shake_adverb(i));
    append_str(&mut msg, "...");
    assert(msg@ =~= spec_shake_message(i as int));
    msg
}

impl EightBallProvider {
    /// A random shake phrase, "shakes eight ball <adverb>...".
    pub fn get_shake_message() -> (r: String)
        ensures
            exists|i: int| #![trigger spec_shake_adverb(i)] 0 <= i < 24 && r@ == spec_shake_message(i),
    {
        let i = pick_index(24);
        let r = shake_message_at(i);
        proof {
            assert(spec_shake_adverb(i as int) == spec_shake_adverb(i as int));
        }
        r
    }

    /// A random eight-ball prediction.
    pub fn get_response() -> (r: &'static str)
        ensures
            exists|i: int|
                #![trigger spec_eight_ball_response(i)]
                0 <= i < 20 && r@ == spec_eight_ball_response(i),
    {
        let i = pick_index(20);
        let r = eight_ball_response_at(i);
        proof {
            assert(spec_eight_ball_response(i as int) == spec_eight_ball_response(i as int));
        }
        r
    }
}

} // verus!
