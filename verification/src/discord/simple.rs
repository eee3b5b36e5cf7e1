//! Simple request/response commands: a guide on tone indicators.

use vstd::prelude::*;

use crate::text::append_str;

verus! {

/// Provides the simple commands.
pub struct SimpleCommandProvider;

/// The most commonly used tone indicators.
pub open spec fn spec_common_tag(i: int) -> Seq<char> {
    if i == 0 {
        "/gen"@
    } else if i == 1 {
        "/hj"@
    } else if i == 2 {
        "/j"@
    } else if i == 3 {
        "/lh"@
    } else if i == 4 {
        "/lyr"@
    } else if i == 5 {
        "/nm"@
    } else if i == 6 {
        "/p"@
    } else if i == 7 {
        "/sarc"@
    } else if i == 8 {
        "/srs"@
    } else {
        "/t"@
    }
}

/// What each common tone indicator means.
pub open spec fn spec_common_desc(i: int) -> Seq<char> {
    if i == 0 {
        "genuine"@
    } else if i == 1 {
        "half-joking"@
    } else if i == 2 {
        "joking"@
    } else if i == 3 {
        "lighthearted"@
    } else if i == 4 {
        "lyrics"@
    } else if i == 5 {
        "not mad"@
    } else if i == 6 {
        "platonic"@
    } else if i == 7 {
        "sarcastic"@
    } else if i == 8 {
        "serious"@
    } else {
        "teasing"@
    }
}

/// The less common tone indicators.
pub open spec fn spec_uncommon_tag(i: int) -> Seq<char> {
    if i == 0 {
        "/c"@
    } else if i == 1 {
        "/nbh"@
    } else if i == 2 {
        "/neg"@
    } else if i == 3 {
        "/neu"@
    } else if i == 4 {
        "/nsrs"@
    } else if i == 5 {
        "/nsx"@
    } else if i == 6 {
        "/pos"@
    } else if i == 7 {
        "/q"@
    } else if i == 8 {
        "/r"@
    } else if i == 9 {
        "/ref"@
    } else if i == 10 {
        "/rh"@
    } else if i == 11 {
        "/sx"@
    } else {
        "/th"@
    }
}

/// What each less common tone indicator means.
pub open spec fn spec_uncommon_desc(i: int) -> Seq<char> {
    if i == 0 {
        "copypasta"@
    } else if i == 1 {
        "nobody here targeted"@
    } else if i == 2 {
        "negative"@
    } else if i == 3 {
        "neutral"@
    } else if i == 4 {
        "not serious"@
    } else if i == 5 {
        "no sexual intent"@
    } else if i == 6 {
        "positive"@
    } else if i == 7 {
        "quote"@
    } else if i == 8 {
        "romantic"@
    } else if i == 9 {
        "reference"@
    } else if i == 10 {
        "rhetorical"@
    } else if i == 11 {
        "sexual intent"@
    } else {
        "threat"@
    }
}

/// One guide line: the tag in bold, a colon, and its meaning.
pub open spec fn spec_guide_line(tag: Seq<char>, desc: Seq<char>) -> Seq<char> {
    "**"@ + tag + "**: "@ + desc + "\n"@
}

/// The first `i` common-indicator lines of the guide.
pub open spec fn spec_common_lines(i: int) -> Seq<char>
    decreases i,
{
    if i <= 0 {
        Seq::<char>::empty()
    } else {
        spec_common_lines(i - 1) + spec_guide_line(spec_common_tag(i - 1), spec_common_desc(i - 1))
    }
}

/// The first `i` less-common-indicator lines of the guide.
pub open spec fn spec_uncommon_lines(i: int) -> Seq<char>
    decreases i,
{
    if i <= 0 {
        Seq::<char>::empty()
    } else {
        spec_uncommon_lines(i - 1) + spec_guide_line(
            spec_uncommon_tag(i - 1),
            spec_uncommon_desc(i - 1),
        )
    }
}

/// The whole tone-indicator guide.
pub open spec fn spec_tone_guide() -> Seq<char> {
    "## a guide on tone indicators\n"@
        + "text doesn't have a voice. tone, inflection, and other non-verbal bits of communication are lost through text! to remedy this, we use tone indicators to specify what tone we mean to convey in our messages.\n"@
        + "don't worry about memorizing them all. i'm here to help you remember!\n"@
        + "## common indicators\n"@ + "these are the tone indicators used most often.\n"@
        + spec_common_lines(10) + "## other indicators\n"@
        + "you may not see these tone indicators as much, but they're useful once in a while.\n"@
        + spec_uncommon_lines(13)
}

/// The common indicator at index `i`, as a tag and its meaning.
fn common_indicator(i: usize) -> (r: (&'static str, &'static str))
    requires
        i < 10,
    ensures
        r.0@ == spec_common_tag(i as int),
        r.1@ == spec_common_desc(i as int),
{
    match i {
        0 => ("/gen", "genuine"),
        1 => ("/hj", "half-joking"),
        2 => ("/j", "joking"),
        3 => ("/lh", "lighthearted"),
        4 => ("/lyr", "lyrics"),
        5 => ("/nm", "not mad"),
        6 => ("/p", "platonic"),
        7 => ("/sarc", "sarcastic"),
        8 => ("/srs", "serious"),
        _ => ("/t", "teasing"),
    }
}

/// The less common indicator at index `i`, as a tag and its meaning.
fn uncommon_indicator(i: usize) -> (r: (&'static str, &'static str))
    requires
        i < 13,
    ensures
        r.0@ == spec_uncommon_tag(i as int),
        r.1@ == spec_uncommon_desc(i as int),
{
    match i {
        0 => ("/c", "copypasta"),
        1 => ("/nbh", "nobody here targeted"),
        2 => ("/neg", "negative"),
        3 => ("/neu", "neutral"),
        4 => ("/nsrs", "not serious"),
        5 => ("/nsx", "no sexual intent"),
        6 => ("/pos", "positive"),
        7 => ("/q", "quote"),
        8 => ("/r", "romantic"),
        9 => ("/ref", "reference"),
        10 => ("/rh", "rhetorical"),
        11 => ("/sx", "sexual intent"),
        _ => ("/th", "threat"),
    }
}

/// Appends one guide line for an indicator.
fn append_guide_line(msg: &mut String, tag: &str, desc: &str)
    ensures
        final (msg)@ == old(msg)@ + spec_guide_line(tag@, desc@),
{
    append_str(msg, "**");
    append_str(msg, tag);
    append_str(msg, "**: ");
    append_str(msg, desc);
    append_str(msg, "\n");
    assert(msg@ =~= old(msg)@ + spec_guide_line(tag@, desc@));
}

/// Builds the guide on tone indicators: what they are for, the common
/// ones, and the less common ones.
pub fn tone_indicators_guide() -> (r: String)
    ensures
        r@ == spec_tone_guide(),
{
    let mut msg = String::new();
    append_str(&mut msg, "## a guide on tone indicators\n");
    append_str(
        &mut msg,
        "text doesn't have a voice. tone, inflection, and other non-verbal bits of communication are lost through text! to remedy this, we use tone indicators to specify what tone we mean to convey in our messages.\n",
    );
    append_str(&mut msg, "don't worry about memorizing them all. i'm here to help you remember!\n");
    append_str(&mut msg, "## common indicators\n");
    append_str(&mut msg, "these are the tone indicators used most often.\n");
    let ghost head = msg@;
    let mut i: usize = 0;
    while i < 10
        invariant
            0 <= i <= 10,
            msg@ == head + spec_common_lines(i as int),
        decreases 10 - i,
    {
        let (tag, desc) = common_indicator(i);
        append_guide_line(&mut msg, tag, desc);
        i = i + 1;
    }
    append_str(&mut msg, "## other indicators\n");
    append_str(
        &mut msg,
        "you may not see these tone indicators as much, but they're useful once in a while.\n",
    );
    let ghost mid = msg@;
    let mut i: usize = 0;
    while i < 13
        invariant
            0 <= i <= 13,
            msg@ == mid + spec_uncommon_lines(i as int),
        decreases 13 - i,
    {
        let (tag, desc) = uncommon_indicator(i);
        append_guide_line(&mut msg, tag, desc);
        i = i + 1;
    }
    assert(msg@ =~= spec_tone_guide());
    msg
}

} // verus!
