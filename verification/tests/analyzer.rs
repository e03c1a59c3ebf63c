use claudy::personality::analyzer::Analyzer;
use claudy::personality::config::PersonalityConfig;
use claudy::personality::types::{Context, Sentiment};

fn test_analyzer() -> Analyzer {
    Analyzer::new(PersonalityConfig::builtin())
}

#[test]
fn test_detect_debugging_context() {
    let analyzer = test_analyzer();

    let result = analyzer.analyze("I have an error in my code");
    assert_eq!(result.context, Some(Context::Debugging));

    let result = analyzer.analyze("Det är ett fel i koden");
    assert_eq!(result.context, Some(Context::Debugging));
}

#[test]
fn test_detect_building_context() {
    let analyzer = test_analyzer();

    let result = analyzer.analyze("Let's create a new feature");
    assert_eq!(result.context, Some(Context::Building));

    let result = analyzer.analyze("Kan du implementera detta?");
    assert_eq!(result.context, Some(Context::Building));
}

#[test]
fn test_detect_frustrated_sentiment() {
    let analyzer = test_analyzer();

    let result = analyzer.analyze("Why doesn't this work???");
    assert_eq!(result.sentiment, Sentiment::Frustrated);

    let result = analyzer.analyze("Fan, det fungerar inte!");
    assert_eq!(result.sentiment, Sentiment::Frustrated);
}

#[test]
fn test_detect_happy_sentiment() {
    let analyzer = test_analyzer();

    let result = analyzer.analyze("Thanks, that works perfectly!");
    assert_eq!(result.sentiment, Sentiment::Happy);

    let result = analyzer.analyze("Tack, det funkar!");
    assert_eq!(result.sentiment, Sentiment::Happy);
}

#[test]
fn test_neutral_sentiment() {
    let analyzer = test_analyzer();

    let result = analyzer.analyze("Please update the variable name");
    assert_eq!(result.sentiment, Sentiment::Neutral);
}

#[test]
fn test_uppercase_text_matches_lowercase_keyword() {
    // The keyword tables are lowercase; an all-caps message only matches
    // through real case folding of the analyzed text.
    let analyzer = test_analyzer();

    let result = analyzer.analyze("THANKS, THAT WORKS");
    assert_eq!(result.sentiment, Sentiment::Happy);

    let result = analyzer.analyze("AN ERROR IN MY CODE");
    assert_eq!(result.context, Some(Context::Debugging));
}

#[test]
fn test_frustrated_beats_happy() {
    // Sentiment priority: a text hitting both the frustrated and the happy
    // tier classifies Frustrated.
    let analyzer = test_analyzer();

    let result = analyzer.analyze("I hate this, but thanks anyway");
    assert_eq!(result.sentiment, Sentiment::Frustrated);
}

#[test]
fn test_analysis_carries_message_text() {
    let analyzer = test_analyzer();

    let result = analyzer.analyze("just some words");
    assert_eq!(result.message_text.as_deref(), Some("just some words"));
}

#[test]
fn test_empty_text_is_neutral() {
    let analyzer = test_analyzer();
    let result = analyzer.analyze("");
    assert_eq!(result.sentiment, Sentiment::Neutral);
    assert_eq!(result.context, None);
}
