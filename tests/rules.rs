use harper::edit_distance::distance;
use harper::lint_group::{LintGroupConfig, Rule};
use harper::spell_check::SpellCheck;
use harper::window_rules::{lint_windows, WindowRule};
use harper::{Document, Lint, LintGroup, MergedDictionary, Suggestion};

fn summary(lints: &[Lint]) -> Vec<(usize, usize, Option<String>)> {
    lints
        .iter()
        .map(|l| {
            let r = l.suggestions.first().map(|s| match s {
                Suggestion::ReplaceWith(v) => v.iter().collect(),
                Suggestion::Remove => String::new(),
            });
            (l.span.start, l.span.end, r)
        })
        .collect()
}

fn window(text: &str, rule: WindowRule) -> Vec<(usize, usize, Option<String>)> {
    let document = Document::new_plain_english_curated(text);
    summary(&lint_windows(rule, &document))
}

#[test]
fn a_before_vowel() {
    assert_eq!(window("This is a apple and an dog.", WindowRule::AnA), vec![
        (8, 9, Some("an".to_string())),
        (20, 22, Some("a".to_string())),
    ]);
    assert_eq!(window("A owl.", WindowRule::AnA), vec![(0, 1, Some("An".to_string()))]);
    assert!(window("an owl and a cat", WindowRule::AnA).is_empty());
}

#[test]
fn sentences_start_with_capitals() {
    assert_eq!(window("the cat sat. it is \"good\" here", WindowRule::SentenceCapitalization), vec![
        (0, 3, Some("The".to_string())),
        (13, 15, Some("It".to_string())),
    ]);
    assert!(window("xqzt sat.", WindowRule::SentenceCapitalization).is_empty());
}

#[test]
fn straight_quotes_get_curly() {
    assert_eq!(window("say \"hi\" now", WindowRule::WrongQuotes), vec![
        (4, 5, Some("\u{201c}".to_string())),
        (7, 8, Some("\u{201d}".to_string())),
    ]);
}

#[test]
fn ellipses_have_three_dots() {
    assert_eq!(window("wait.. what.... ok... yes.", WindowRule::EllipsisLength), vec![
        (4, 6, Some("\u{2026}".to_string())),
        (11, 15, Some("\u{2026}".to_string())),
    ]);
}

#[test]
fn restrictive_which_becomes_that() {
    assert_eq!(window("the car which I drive", WindowRule::ThatWhich), vec![
        (8, 13, Some("that".to_string())),
    ]);
}

#[test]
fn conjunction_at_sentence_end() {
    assert_eq!(window("I left because.", WindowRule::TerminatingConjunctions), vec![(7, 14, None)]);
    assert!(window("Not yet.", WindowRule::TerminatingConjunctions).is_empty());
}

#[test]
fn pronouns_in_a_row() {
    assert_eq!(window("I gave him them today", WindowRule::MultipleSequentialPronouns), vec![
        (7, 15, None),
    ]);
}

#[test]
fn linking_verb_then_that() {
    assert_eq!(window("It is that simple", WindowRule::LinkingVerbs), vec![(3, 5, None)]);
}

#[test]
fn long_sentences_are_flagged() {
    let long = "word ".repeat(41) + "end.";
    let lints = window(&long, WindowRule::LongSentences);
    assert_eq!(lints.len(), 1);
    assert_eq!((lints[0].0, lints[0].1), (0, long.chars().count()));
    let short = "word ".repeat(39) + "end.";
    assert!(window(&short, WindowRule::LongSentences).is_empty());
}

#[test]
fn config_enables_by_rule() {
    let config = LintGroupConfig::default();
    assert!(config.is_enabled(Rule::AnA));
    assert!(!config.is_enabled(Rule::SpelledNumbers));
    let mut config = LintGroupConfig::none();
    config.dot_initialisms = Some(true);
    let document = Document::new_plain_english_curated("Fruit, eg an apple.");
    let lints = LintGroup::new(config, MergedDictionary::curated()).lint(&document);
    assert_eq!(summary(&lints), vec![(7, 9, Some("e.g.".to_string()))]);
}

#[test]
fn curses_and_boring_words() {
    let mut config = LintGroupConfig::none();
    config.avoid_curses = Some(true);
    config.boring_words = Some(true);
    let document = Document::new_plain_english_curated("That is very damn good.");
    let lints = LintGroup::new(config, MergedDictionary::curated()).lint(&document);
    assert_eq!(summary(&lints), vec![(13, 17, None), (8, 12, None)]);
}

#[test]
fn misspellings_get_near_words() {
    let document = Document::new_plain_english_curated("I have an aple today.");
    let lints = SpellCheck::new(MergedDictionary::curated()).lint(&document);
    assert_eq!(lints.len(), 1);
    assert_eq!((lints[0].span.start, lints[0].span.end), (10, 14));
    let words: Vec<String> = lints[0]
        .suggestions
        .iter()
        .map(|s| match s {
            Suggestion::ReplaceWith(v) => v.iter().collect(),
            Suggestion::Remove => String::new(),
        })
        .collect();
    assert!(words.len() <= 3 && !words.is_empty());
    assert!(words.contains(&"apple".to_string()));
}

#[test]
fn edit_distance_counts_swaps() {
    let c = |s: &str| s.chars().collect::<Vec<char>>();
    assert_eq!(distance(&c("teh"), &c("the")), 1);
    assert_eq!(distance(&c("kitten"), &c("sitting")), 3);
    assert_eq!(distance(&c(""), &c("abc")), 3);
    assert_eq!(distance(&c("same"), &c("same")), 0);
}

#[test]
fn matcher_replaces_phrases() {
    assert_eq!(window("I wanna go, you could of", WindowRule::Matcher), vec![
        (2, 7, Some("want to".to_string())),
        (16, 24, Some("could have".to_string())),
    ]);
}
