use muni_bot::agent::ChannelInfo;
use muni_bot::handlers::quotes::{Quote, QuoteMessageOutcome, QuoteRecall, QuotesHandler};

fn sample_quote(text: &str, at: i64) -> Quote {
    Quote {
        created_at_ms: at,
        quote: text.to_string(),
        invoker: "someone".to_string(),
        stream_category: "gaming".to_string(),
        stream_title: "a stream".to_string(),
    }
}

#[test]
fn quotes_are_numbered_in_creation_order() {
    let mut book = QuotesHandler::new();
    assert_eq!(book.add_new_quote(sample_quote("first", 1)), 1);
    assert_eq!(book.add_new_quote(sample_quote("second", 2)), 2);
    match book.recall_quote(Some(1)) {
        QuoteRecall::Specific { n, quote } => {
            assert_eq!(n, 1);
            assert_eq!(quote, "first");
        }
        _ => panic!("expected quote number one"),
    }
    match book.recall_quote(Some(3)) {
        QuoteRecall::NotFound { n } => assert_eq!(n, 3),
        _ => panic!("expected a miss"),
    }
    match book.recall_quote(None) {
        QuoteRecall::Random { quote } => assert!(quote == "first" || quote == "second"),
        _ => panic!("expected a random quote"),
    }
}

#[test]
fn recall_from_an_empty_book() {
    let book = QuotesHandler::new();
    assert!(matches!(book.recall_quote(None), QuoteRecall::NoQuotes));
    assert!(matches!(book.recall_quote(Some(1)), QuoteRecall::NotFound { n: 1 }));
}

#[test]
fn quote_commands_drive_the_book() {
    let mut book = QuotesHandler::new();
    let info = || Some(ChannelInfo {
        game_name: "gaming".to_string(),
        title: "a stream".to_string(),
    });
    let r = book.handle_quote_message("!addquote", "42", 5, info());
    assert!(matches!(r, QuoteMessageOutcome::AddEmpty));
    let r = book.handle_quote_message("!addquote   ", "42", 5, info());
    assert!(matches!(r, QuoteMessageOutcome::AddEmpty));
    let r = book.handle_quote_message("!addquote never gonna give you up", "42", 5, None);
    assert!(matches!(r, QuoteMessageOutcome::AddSkipped));
    let r = book.handle_quote_message("!addquote never gonna give you up", "42", 5, info());
    assert!(matches!(r, QuoteMessageOutcome::Added { count: 1 }));
    match book.handle_quote_message("!quote 1", "42", 6, info()) {
        QuoteMessageOutcome::Recalled(QuoteRecall::Specific { n, quote }) => {
            assert_eq!(n, 1);
            assert_eq!(quote, "never gonna give you up");
        }
        _ => panic!("expected to recall the quote"),
    }
    let r = book.handle_quote_message("!quote nonsense", "42", 6, info());
    assert!(matches!(r, QuoteMessageOutcome::RecallUnrecognized));
    let r = book.handle_quote_message("hello there", "42", 6, info());
    assert!(matches!(r, QuoteMessageOutcome::NotHandled));
}
