//! The quote book: `!addquote` records a line together with what was
//! streaming at the time, and `!quote` recalls one by number or at random.

use vstd::prelude::*;

use crate::agent::ChannelInfo;
use crate::rng::pick_index;
use crate::text::{
    occurs_at, parse_decimal_u32, skip_leading_spaces, starts_with_str, trimmed_start,
};

verus! {

/// A quote: the line itself, who invoked the command, and the stream's
/// category and title at the time. The timestamp is Unix milliseconds.
pub struct Quote {
    pub created_at_ms: i64,
    pub quote: String,
    pub invoker: String,
    pub stream_category: String,
    pub stream_title: String,
}

/// A handler for the quote commands: keeps the quotes in creation order,
/// mirrored to storage by the shell.
pub struct QuotesHandler {
    quotes: Vec<Quote>,
}

/// What recalling a quote found.
pub enum QuoteRecall {
    /// The requested quote, by its one-based number.
    Specific { n: u32, quote: String },
    /// No quote has the requested number.
    NotFound { n: u32 },
    /// A randomly chosen quote.
    Random { quote: String },
    /// The book is empty.
    NoQuotes,
}

/// What a chat message made the quote book do.
pub enum QuoteMessageOutcome {
    /// An add command with nothing to add.
    AddEmpty,
    /// The quote is in; the book now holds `count` quotes.
    Added { count: usize },
    /// The stream's info could not be fetched, so nothing was recorded.
    AddSkipped,
    /// A recall command, with what it found.
    Recalled(QuoteRecall),
    /// A recall request that is neither empty nor a number; nothing
    /// happens.
    RecallUnrecognized,
    /// Not a quote command.
    NotHandled,
}

/// Whether a message invokes the add command.
pub open spec fn addquote_command(text: Seq<char>) -> bool {
    occurs_at(text, "!addquote"@, 0)
}

/// Whether a message invokes the recall command.
pub open spec fn quote_command(text: Seq<char>) -> bool {
    occurs_at(text, "!quote"@, 0)
}

/// The argument after a command trigger of `prefix_len` characters, with
/// leading whitespace removed.
pub open spec fn command_argument(text: Seq<char>, prefix_len: int) -> Seq<char> {
    trimmed_start(text.skip(prefix_len))
}

impl QuotesHandler {
    /// The recorded quotes, in creation order.
    pub closed spec fn spec_quotes(self) -> Seq<Quote> {
        self.quotes@
    }

    /// An empty quote book.
    pub fn new() -> (r: QuotesHandler)
        ensures
            r.spec_quotes().len() == 0,
    {
        QuotesHandler { quotes: Vec::new() }
    }

    /// The book loaded from persisted records, oldest first.
    pub fn from_records(records: Vec<Quote>) -> (r: QuotesHandler)
        ensures
            r.spec_quotes() == records@,
    {
        QuotesHandler { quotes: records }
    }

    /// Adds a new quote to the book, returning the new count of quotes.
    pub fn add_new_quote(&mut self, new_quote: Quote) -> (count: usize)
        requires
            old(self).spec_quotes().len() < usize::MAX,
        ensures
            final (self).spec_quotes() == old(self).spec_quotes().push(new_quote),
            count == final (self).spec_quotes().len(),
    {
        self.quotes.push(new_quote);
        self.quotes.len()
    }

    /// Recalls a quote: the `n`-th in creation order when a number is
    /// requested (reporting when there is none), and otherwise a random
    /// one from a non-empty book.
    pub fn recall_quote(&self, n_requested: Option<u32>) -> (r: QuoteRecall)
        ensures
            match n_requested {
                Some(n) => if 1 <= n <= self.spec_quotes().len() {
                    r matches QuoteRecall::Specific { n: m, quote } && m == n && quote@
                        == self.spec_quotes()[n - 1].quote@
                } else {
                    r matches QuoteRecall::NotFound { n: m } && m == n
                },
                None => if self.spec_quotes().len() == 0 {
                    r is NoQuotes
                } else {
                    r matches QuoteRecall::Random { quote } && exists|i: int|
                        0 <= i < self.spec_quotes().len() && quote@ == self.spec_quotes()[i].quote@
                },
            },
    {
        match n_requested {
            Some(n) => {
                if n >= 1 && (n as usize) <= self.quotes.len() {
                    let quote = self.quotes[(n as usize) - 1].quote.clone();
                    QuoteRecall::Specific { n, quote }
                } else {
                    QuoteRecall::NotFound { n }
                }
            },
            None => {
                if self.quotes.len() == 0 {
                    QuoteRecall::NoQuotes
                } else {
                    let i = pick_index(self.quotes.len());
                    let quote = self.quotes[i].quote.clone();
                    proof {
                        assert(quote@ == self.spec_quotes()[i as int].quote@);
                    }
                    QuoteRecall::Random { quote }
                }
            },
        }
    }

    /// Decides what a chat message makes the quote book do, and does it:
    /// an add command records the line with the stream's info (or reports
    /// what kept it from doing so), a recall command looks up a quote by
    /// number or at random.
    pub fn handle_quote_message(
        &mut self,
        message_text: &str,
        invoker: &str,
        now_ms: i64,
        channel_info: Option<ChannelInfo>,
    ) -> (r: QuoteMessageOutcome)
        requires
            old(self).spec_quotes().len() < usize::MAX,
        ensures
            addquote_command(message_text@) && command_argument(message_text@, 9).len() == 0 ==> (
            r is AddEmpty && *final (self) == *old(self)),
            addquote_command(message_text@) && command_argument(message_text@, 9).len() != 0
                && channel_info is None ==> (r is AddSkipped && *final (self) == *old(self)),
            addquote_command(message_text@) && command_argument(message_text@, 9).len() != 0
                && channel_info is Some ==> (r matches QuoteMessageOutcome::Added { count } && count
                == final (self).spec_quotes().len() && final (self).spec_quotes() == old(
            self).spec_quotes().push(final (self).spec_quotes().last()) && final (
            self).spec_quotes().last().quote@ == command_argument(message_text@, 9) && final (
            self).spec_quotes().last().invoker@ == invoker@ && final (
            self).spec_quotes().last().created_at_ms == now_ms),
            !addquote_command(message_text@) && !quote_command(message_text@) ==> (
            r is NotHandled && *final (self) == *old(self)),
    {
        proof {
            reveal_strlit("!addquote");
            reveal_strlit("!quote");
        }
        if starts_with_str(message_text, "!addquote") {
            let len = message_text.unicode_len();
            let rest = message_text.substring_char(9, len);
            let arg_start = skip_leading_spaces(rest);
            let content = rest.substring_char(arg_start, rest.unicode_len());
            proof {
                assert(content@ == command_argument(message_text@, 9));
            }
            if content.unicode_len() == 0 {
                QuoteMessageOutcome::AddEmpty
            } else {
                match channel_info {
                    None => QuoteMessageOutcome::AddSkipped,
                    Some(info) => {
                        let new_quote = Quote {
                            created_at_ms: now_ms,
                            quote: content.to_owned(),
                            invoker: invoker.to_owned(),
                            stream_category: info.game_name,
                            stream_title: info.title,
                        };
                        let count = self.add_new_quote(new_quote);
                        QuoteMessageOutcome::Added { count }
                    },
                }
            }
        } else if starts_with_str(message_text, "!quote") {
            let len = message_text.unicode_len();
            let rest = message_text.substring_char(6, len);
            let arg_start = skip_leading_spaces(rest);
            let content = rest.substring_char(arg_start, rest.unicode_len());
            if content.unicode_len() == 0 {
                QuoteMessageOutcome::Recalled(self.recall_quote(None))
            } else {
                match parse_decimal_u32(content) {
                    Some(n) => QuoteMessageOutcome::Recalled(self.recall_quote(Some(n))),
                    None => QuoteMessageOutcome::RecallUnrecognized,
                }
            }
        } else {
            QuoteMessageOutcome::NotHandled
        }
    }
}

} // verus!
