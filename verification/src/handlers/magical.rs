//! The magicalness check: derives a user's daily magic percentage from a
//! hash of the date and their user id, and phrases it with a mood suffix.

use vstd::prelude::*;

use crate::text::{append_dec_u8, append_str, dec_str_u8};

verus! {

/// Provides the magicalness command and chat trigger.
pub struct MagicalHandler;

/// The magic percentage derived from a day-and-user hash: a cubic
/// interpolation between 0 and 100 favoring higher numbers, without
/// floating-point arithmetic.
pub open spec fn spec_magic_amount(hashed: u64) -> int {
    let x = hashed % 101;
    (1000000 - x * x * x) / 10000
}

/// The mood suffix for a magic percentage.
pub open spec fn spec_magic_suffix(amount: u8) -> Seq<char> {
    if amount <= 1 {
        ". you can have some of my magic~ :3 <3"@
    } else if amount < 25 {
        ". sounds like a good day for some self care <3"@
    } else if amount == 69 {
        ". nice ;3"@
    } else if amount < 75 {
        "."@
    } else if amount == 100 {
        "!! wow :3"@
    } else {
        "!"@
    }
}

/// The message phrased for a user: their name, the percentage, and the
/// mood suffix.
pub open spec fn spec_magic_message(hashed: u64, name: Seq<char>) -> Seq<char> {
    name + " is "@ + dec_str_u8(spec_magic_amount(hashed)) + "% magical today"@
        + spec_magic_suffix(spec_magic_amount(hashed) as u8)
}

impl MagicalHandler {
    /// The magic percentage for a day-and-user hash, between 0 and 100.
    pub fn get_magic_amount(hashed: u64) -> (amount: u8)
        ensures
            amount == spec_magic_amount(hashed),
            amount <= 100,
    {
        let x: u64 = hashed % 101;
        proof {
            assert(x * x <= 10000 && x * x * x <= 1000000) by (nonlinear_arith)
                requires
                    x <= 100,
            ;
        }
        let squared: u64 = x * x;
        let cubed: u64 = squared * x;
        let amount: u64 = (1000000 - cubed) / 10000;
        proof {
            vstd::arithmetic::div_mod::lemma_div_is_ordered(
                1000000 - cubed,
                1000000,
                10000,
            );
        }
        amount as u8
    }

    /// The mood suffix for a magic percentage.
    fn get_suffix(amount: u8) -> (r: &'static str)
        ensures
            r@ == spec_magic_suffix(amount),
    {
        if amount <= 1 {
            ". you can have some of my magic~ :3 <3"
        } else if amount < 25 {
            ". sounds like a good day for some self care <3"
        } else if amount == 69 {
            ". nice ;3"
        } else if amount < 75 {
            "."
        } else if amount == 100 {
            "!! wow :3"
        } else {
            "!"
        }
    }

    /// Phrases a user's magicalness for the day, from the hash of the
    /// date and their user id.
    pub fn get_message(hashed: u64, user_display_name: &str) -> (r: String)
        ensures
            r@ == spec_magic_message(hashed, user_display_name@),
    {
        let amount = Self::get_magic_amount(hashed);
        let suffix = Self::get_suffix(amount);
        let mut msg = String::new();
        append_str(&mut msg, user_display_name);
        append_str(&mut msg, " is ");
        append_dec_u8(&mut msg, amount);
        append_str(&mut msg, "% magical today");
        append_str(&mut msg, suffix);
        proof {
            assert(msg@ =~= spec_magic_message(hashed, user_display_name@));
        }
        msg
    }
}

} // verus!
