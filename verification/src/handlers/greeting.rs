//! Greets users who say hello to the bot, from a pool of templates, with
//! a special greeting for one very special user.

use vstd::prelude::*;

use crate::rng::pick_index;
use crate::text::{append_str, lower_of, occurs_at, skip_leading_spaces, starts_with_str, to_lowercase, trimmed_start};

verus! {

#[verifier::external_type_specification]
#[verifier::external_body]
pub struct ExRegex(regex::Regex);

/// Relies on regex::Regex::new: compiles the pattern, or nothing when the
/// pattern is invalid.
#[verifier::external_body]
fn compile_regex(pattern: &str) -> (r: Option<regex::Regex>) {
    regex::Regex::new(pattern).ok()
}

/// Relies on regex::Regex::is_match. Nothing is assumed of the outcome:
/// every caller states what it returns whatever the match says.
#[verifier::external_body]
fn regex_is_match(re: &regex::Regex, text: &str) -> bool {
    re.is_match(text)
}

/// The opening of each hello template, before the user's name.
pub open spec fn spec_hello_prefix(i: int) -> Seq<char> {
    if i == 0 {
        "hi, "@
    } else if i == 1 {
        "hello, "@
    } else if i == 2 {
        "hey "@
    } else if i == 3 {
        "hi "@
    } else if i == 4 {
        ""@
    } else if i == 5 {
        "heyyy "@
    } else if i == 6 {
        "hi "@
    } else if i == 7 {
        ""@
    } else if i == 8 {
        "hiiiii "@
    } else if i == 9 {
        "hi "@
    } else {
        "hi "@
    }
}

/// The close of each hello template, after the user's name.
pub open spec fn spec_hello_suffix(i: int) -> Seq<char> {
    if i == 0 {
        "!<3"@
    } else if i == 1 {
        "! happy to see you!"@
    } else if i == 2 {
        ":)"@
    } else if i == 3 {
        "!! how are ya?"@
    } else if i == 4 {
        "!! how are you doing?"@
    } else if i == 5 {
        " uwu"@
    } else if i == 6 {
        "! it's good to see you! :3"@
    } else if i == 7 {
        " helloooooo:)"@
    } else if i == 8 {
        ""@
    } else if i == 9 {
        "<3"@
    } else {
        "! you look wonderful today ;3"@
    }
}

/// The greeting built from template `i` for a user, with the very special
/// extra syllable where it is owed.
pub open spec fn spec_greeting(name: Seq<char>, i: int, extra_uwu: bool) -> Seq<char> {
    if extra_uwu {
        spec_hello_prefix(i) + name + spec_hello_suffix(i) + " uwu"@
    } else {
        spec_hello_prefix(i) + name + spec_hello_suffix(i)
    }
}

/// The opening of hello template `i`.
fn hello_prefix(i: usize) -> (r: &'static str)
    requires
        i < 11,
    ensures
        r@ == spec_hello_prefix(i as int),
{
    match i {
        0 => "hi, ",
        1 => "hello, ",
        2 => "hey ",
        3 => "hi ",
        4 => "",
        5 => "heyyy ",
        6 => "hi ",
        7 => "",
        8 => "hiiiii ",
        9 => "hi ",
        _ => "hi ",
    }
}

/// The close of hello template `i`.
fn hello_suffix(i: usize) -> (r: &'static str)
    requires
        i < 11,
    ensures
        r@ == spec_hello_suffix(i as int),
{
    match i {
        0 => "!<3",
        1 => "! happy to see you!",
        2 => ":)",
        3 => "!! how are ya?",
        4 => "!! how are you doing?",
        5 => " uwu",
        6 => "! it's good to see you! :3",
        7 => " helloooooo:)",
        8 => "",
        9 => "<3",
        _ => "! you look wonderful today ;3",
    }
}

/// Builds the greeting from template `i` for a user.
fn build_greeting(user_name: &str, i: usize, extra_uwu: bool) -> (r: String)
    requires
        i < 11,
    ensures
        r@ == spec_greeting(user_name@, i as int, extra_uwu),
{
    let mut msg = String::new();
    append_str(&mut msg, hello_prefix(i));
    append_str(&mut msg, user_name);
    append_str(&mut msg, hello_suffix(i));
    if extra_uwu {
        append_str(&mut msg, " uwu");
    }
    assert(msg@ =~= spec_greeting(user_name@, i as int, extra_uwu));
    msg
}

/// Greets users who say hello.
pub struct GreetingHandler {
    hi_regex: Option<regex::Regex>,
}

impl GreetingHandler {
    /// A handler with the hello pattern compiled.
    pub fn new() -> (r: GreetingHandler) {
        GreetingHandler {
            hi_regex: compile_regex(
                "(?i)\\b(?:hi+|hey+|hello+|howdy+|sup+|heww?o+|henlo+)\\b.*\\bmuni.?bot\\b",
            ),
        }
    }

    /// Returns a greeting message if applicable, or nothing to keep
    /// quiet. A message opening with "uwu" is answered only for the one
    /// user whose lowercased name is "linokii"; otherwise a hello
    /// addressed to the bot earns a random template, with the extra
    /// syllable for that same user.
    pub fn get_greeting_message(&self, user_name: &str, message_text: &str) -> (r: Option<String>)
        ensures
            occurs_at(trimmed_start(message_text@), "uwu"@, 0) ==> match r {
                Some(m) => lower_of(user_name@) == "linokii"@ && m@ == "linokii uwu<3"@,
                None => lower_of(user_name@) != "linokii"@,
            },
            !occurs_at(trimmed_start(message_text@), "uwu"@, 0) ==> match r {
                Some(m) => exists|i: int|
                    #![trigger spec_hello_prefix(i)]
                    0 <= i < 11 && m@ == spec_greeting(
                        user_name@,
                        i,
                        lower_of(user_name@) == "linokii"@,
                    ),
                None => true,
            },
    {
        let start = skip_leading_spaces(message_text);
        let lower_name = to_lowercase(user_name);
        let is_linokii = crate::text::eq_str(lower_name.as_str(), "linokii");
        let trimmed = message_text.substring_char(start, message_text.unicode_len());
        if starts_with_str(trimmed, "uwu") {
            if is_linokii {
                Some("linokii uwu<3".to_owned())
            } else {
                None
            }
        } else {
            let matched = match &self.hi_regex {
                Some(re) => regex_is_match(re, message_text),
                None => false,
            };
            if matched {
                let i = pick_index(11);
                let g = build_greeting(user_name, i, is_linokii);
                proof {
                    assert(spec_hello_prefix(i as int) == spec_hello_prefix(i as int));
                }
                Some(g)
            } else {
                None
            }
        }
    }
}

} // verus!
