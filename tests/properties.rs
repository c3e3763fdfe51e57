use harper::lint_group::LintGroupConfig;
use harper::linting::replace_with_str;
use harper::token_rules::{lint_tokens, TokenRule};
use harper::web;
use harper::{IsolateEnglish, MergedDictionary, TokenClass};
use harper::{
    clean_mdx_content, remove_overlaps, Document, Lint, LintGroup, LintKind, Parser,
    RepeatedWords, Span, Suggestion, TokenKind,
};

fn chars(s: &str) -> Vec<char> {
    s.chars().collect()
}

#[test]
fn plain_tokens_tile_the_text() {
    let text = "Hello,  world!\n\nIt's 3rd-rate \"stuff\" — 2.50 \u{1F600}";
    let tokens = Parser::PlainEnglish.parse(&chars(text));
    let mut at = 0;
    for t in &tokens {
        assert_eq!(t.span.start, at);
        assert!(t.span.end > t.span.start);
        at = t.span.end;
    }
    assert_eq!(at, text.chars().count());
}

#[test]
fn tokens_are_classified() {
    let tokens = Parser::PlainEnglish.parse(&chars("It's 2nd,\r\n\n  ok"));
    assert!(matches!(tokens[0].kind, TokenKind::Word(_)));
    assert_eq!((tokens[0].span.start, tokens[0].span.end), (0, 4));
    match tokens[2].kind {
        TokenKind::Number(n) => {
            assert_eq!(n.whole, 2);
            assert!(n.is_integer);
            assert_eq!(n.suffix, Some(harper::OrdinalSuffix::Nd));
        }
        _ => panic!("expected a number"),
    }
    assert!(matches!(tokens[3].kind, TokenKind::Punctuation(harper::Punctuation::Comma)));
    assert!(matches!(tokens[4].kind, TokenKind::Newline(2)));
    assert!(matches!(tokens[5].kind, TokenKind::Space(2)));
}

#[test]
fn document_round_trips() {
    let text = "Some \"quoted\" text, with  spaces\tand\r\nlines 42.";
    let document = Document::new_plain_english_curated(text);
    assert_eq!(document.to_string(), text);
}

#[test]
fn quotes_pair_both_ways() {
    let tokens = Parser::PlainEnglish.parse(&chars("He said \"hi\" and \"bye\" then \"x"));
    let quotes: Vec<usize> = (0..tokens.len())
        .filter(|&i| matches!(tokens[i].kind, TokenKind::Quote(_)))
        .collect();
    assert_eq!(quotes.len(), 5);
    for &i in &quotes {
        if let TokenKind::Quote(Some(j)) = tokens[i].kind {
            assert_eq!(tokens[j].kind, TokenKind::Quote(Some(i)));
        }
    }
    assert_eq!(tokens[quotes[0]].kind, TokenKind::Quote(Some(quotes[1])));
    assert_eq!(tokens[quotes[4]].kind, TokenKind::Quote(None));
}

#[test]
fn quotes_do_not_pair_across_paragraphs() {
    let tokens = Parser::PlainEnglish.parse(&chars("\"one\n\ntwo\""));
    assert_eq!(tokens[0].kind, TokenKind::Quote(None));
    assert_eq!(tokens[tokens.len() - 1].kind, TokenKind::Quote(None));
}

#[test]
fn lint_group_is_deterministic() {
    let document = Document::new_plain_english_curated("The the 9 \"cats\" were there big dogs.");
    let mut config = LintGroupConfig::default();
    config.spelled_numbers = Some(true);
    config.use_genitive = Some(true);
    let group = LintGroup::new(config, MergedDictionary::curated());
    let first = group.lint(&document);
    let second = group.lint(&document);
    assert_eq!(first.len(), second.len());
    for (a, b) in first.iter().zip(second.iter()) {
        assert_eq!(a.span, b.span);
        assert_eq!(a.message, b.message);
        assert_eq!(a.priority, b.priority);
    }
}

#[test]
fn default_config_runs_default_rules() {
    let document = Document::new_plain_english_curated("The the 9 pigs.");
    let lints = LintGroup::new(LintGroupConfig::default(), MergedDictionary::curated()).lint(&document);
    assert_eq!(lints.len(), 1);
    assert_eq!(lints[0].lint_kind, LintKind::Repetition);
    let lints = LintGroup::new(LintGroupConfig::none(), MergedDictionary::curated()).lint(&document);
    assert!(lints.is_empty());
}

#[test]
fn fill_default_values_fills_only_missing() {
    let mut config = LintGroupConfig::default();
    config.use_genitive = Some(true);
    config.fill_default_values();
    assert_eq!(config.spelled_numbers, Some(false));
    assert_eq!(config.repeated_words, Some(true));
    assert_eq!(config.unclosed_quotes, Some(true));
    assert_eq!(config.use_genitive, Some(true));
    assert_eq!(config.spaces, Some(false));
    assert_eq!(config.correct_number_suffix, Some(true));
    assert_eq!(config.number_suffix_capitalization, Some(true));
    assert_eq!(config.capitalize_personal_pronouns, Some(true));
}

fn lint_one(text: &str, rule: TokenRule) -> Vec<(usize, usize, String)> {
    let document = Document::new_plain_english_curated(text);
    lint_tokens(rule, &document)
        .iter()
        .map(|l| {
            let r = match &l.suggestions[0] {
                Suggestion::ReplaceWith(v) => v.iter().collect(),
                Suggestion::Remove => String::new(),
            };
            (l.span.start, l.span.end, r)
        })
        .collect()
}

#[test]
fn number_suffixes_are_checked() {
    assert_eq!(lint_one("the 2st and 11st and 3rd", TokenRule::CorrectNumberSuffix), vec![
        (5, 7, "nd".to_string()),
        (14, 16, "th".to_string()),
    ]);
    assert_eq!(lint_one("the 2ND place", TokenRule::NumberSuffixCapitalization), vec![
        (5, 7, "nd".to_string()),
    ]);
}

#[test]
fn extra_spaces_and_lowercase_i() {
    assert_eq!(lint_one("so  i think", TokenRule::Spaces), vec![(2, 4, " ".to_string())]);
    assert_eq!(lint_one("so  i think", TokenRule::CapitalizePersonalPronouns), vec![
        (4, 5, "I".to_string()),
    ]);
}

fn lint_at(start: usize, end: usize, priority: u8) -> Lint {
    Lint::new(Span::new(start, end), LintKind::Style, Vec::new(), "x", priority)
}

#[test]
fn overlaps_are_removed() {
    let mut lints = vec![lint_at(5, 9, 10), lint_at(0, 6, 50), lint_at(8, 12, 5), lint_at(20, 22, 1)];
    remove_overlaps(&mut lints);
    for i in 0..lints.len() {
        for j in 0..lints.len() {
            if i != j {
                assert!(!lints[i].span.overlaps_with(&lints[j].span));
            }
        }
    }
    let spans: Vec<(usize, usize)> = lints.iter().map(|l| (l.span.start, l.span.end)).collect();
    assert_eq!(spans, vec![(8, 12), (20, 22)]);
}

#[test]
fn overlap_tie_keeps_earlier() {
    let mut lints = vec![lint_at(0, 4, 7), lint_at(2, 6, 7)];
    remove_overlaps(&mut lints);
    assert_eq!(lints.len(), 1);
    assert_eq!((lints[0].span.start, lints[0].span.end), (0, 4));
}

#[test]
fn disjoint_lints_all_stay_sorted() {
    let mut lints = vec![lint_at(10, 12, 1), lint_at(0, 2, 1), lint_at(4, 4, 3)];
    remove_overlaps(&mut lints);
    let spans: Vec<(usize, usize)> = lints.iter().map(|l| (l.span.start, l.span.end)).collect();
    assert_eq!(spans, vec![(0, 2), (4, 4), (10, 12)]);
}

#[test]
fn replacement_changes_length_by_difference() {
    let mut text = chars("I has a apple.");
    let before = text.len();
    let s = replace_with_str("have");
    s.apply(Span::new(2, 5), &mut text);
    assert_eq!(text.len(), before + 4 - 3);
    assert_eq!(text.iter().collect::<String>(), "I have a apple.");
}

#[test]
fn identity_replacement_keeps_text() {
    let mut text = chars("keep this");
    Suggestion::ReplaceWith(chars("this")).apply(Span::new(5, 9), &mut text);
    assert_eq!(text.iter().collect::<String>(), "keep this");
}

#[test]
fn removal_deletes_span() {
    let mut text = chars("The the cat.");
    Suggestion::Remove.apply(Span::new(3, 7), &mut text);
    assert_eq!(text.iter().collect::<String>(), "The cat.");
}

#[test]
fn repeated_words_removes_second() {
    let document = Document::new_plain_english_curated("The the cat.");
    let lints = RepeatedWords.lint(&document);
    assert_eq!(lints.len(), 1);
    assert_eq!((lints[0].span.start, lints[0].span.end), (3, 7));
    let mut text = chars("The the cat.");
    lints[0].suggestions[0].apply(lints[0].span, &mut text);
    assert_eq!(text.iter().collect::<String>(), "The cat.");
}

#[test]
fn clean_mdx_keeps_length() {
    let inputs = [
        "Hello <Tag name=\"value\">world</Tag> and ![alt text](img.png).",
        "See [the docs](https://example.com) or mail me@example.com -- ok",
        "Code `x = 1` here\n```\nfn main() {}\n```\nand caf\u{e9} \u{1F600}!",
        "",
    ];
    for input in inputs {
        assert_eq!(clean_mdx_content(input).chars().count(), input.chars().count());
    }
}

#[test]
fn clean_mdx_blanks_markup() {
    assert_eq!(clean_mdx_content("[link](https://x.io)"), " link               ");
    assert_eq!(clean_mdx_content("a -- b"), "a    b");
    assert_eq!(clean_mdx_content("x `code` y"), "x        y");
    assert_eq!(clean_mdx_content("<b>hi</b>"), "   hi    ");
}

#[test]
fn web_apply_suggestion_checks_span() {
    let s = web::Suggestion::new(replace_with_str("nine"));
    assert_eq!(
        web::apply_suggestion("There are 9 pigs.", web::Span::new(10, 11), &s),
        Ok("There are nine pigs.".to_string())
    );
    assert!(web::apply_suggestion("short", web::Span::new(3, 9), &s).is_err());
    assert_eq!(s.get_replacement_text(), "nine");
    assert_eq!(s.kind(), web::SuggestionKind::Replace);
    let r = web::Suggestion::new(Suggestion::Remove);
    assert_eq!(r.get_replacement_text(), "");
    assert_eq!(r.kind(), web::SuggestionKind::Remove);
}

#[test]
fn web_lint_reports_problem_text() {
    let mut config = LintGroupConfig::none();
    config.spelled_numbers = Some(true);
    let lints = web::lint("There are 9 pigs.", &config);
    assert_eq!(lints.len(), 1);
    assert_eq!(lints[0].get_problem_text(), "9");
    assert_eq!(lints[0].lint_kind(), "Readability");
    assert_eq!(lints[0].suggestion_count(), 1);
    assert_eq!(lints[0].suggestions()[0].get_replacement_text(), "nine");
    assert_eq!(lints[0].message(), "Try to spell out numbers less than ten.");
    let span = lints[0].span();
    assert_eq!((span.start, span.end), (10, 11));
}

#[test]
fn english_detection() {
    assert!(web::is_likely_english("This is a test of the language."));
    assert!(!web::is_likely_english("Xqzt vlorp brandik smoov."));
    assert!(!web::is_likely_english(""));
}

#[test]
fn isolate_english_keeps_text() {
    let text = "This is fine. Xqzt vlorp!";
    assert_eq!(web::isolate_english(text), text);
}

#[test]
fn isolate_english_marks_foreign_chunks() {
    let parser = Parser::IsolateEnglish(Box::new(IsolateEnglish::new(
        Parser::PlainEnglish,
        MergedDictionary::curated(),
    )));
    let tokens = parser.parse(&chars("the xqzt cat"));
    assert!(matches!(tokens[0].kind, TokenKind::Word(_)));
    assert_eq!(tokens[2].kind, TokenKind::Unlintable);
    assert!(matches!(tokens[4].kind, TokenKind::Word(_)));
}

#[test]
fn dictionary_lookup_falls_back_to_small_letters() {
    let dict = harper::MergedDictionary::curated();
    assert!(dict.contains_word(&chars("Problems")));
    assert!(dict.contains_word_str("cat"));
    assert!(!dict.contains_word_str("xqzt"));
}

#[test]
fn mdx_document_keeps_text_and_skips_markup() {
    let text = "See [docs](https://x.io) <b>now</b>";
    let document = Document::new_mdx(text, &MergedDictionary::curated());
    assert_eq!(document.to_string(), text);
    let words: Vec<String> = document
        .get_tokens()
        .iter()
        .filter(|t| matches!(t.kind, TokenKind::Word(_)))
        .map(|t| text.chars().skip(t.span.start).take(t.span.end - t.span.start).collect())
        .collect();
    assert_eq!(words, vec!["See", "docs", "now"]);
}

#[test]
fn empty_text_has_no_tokens_or_lints() {
    let document = Document::new_plain_english_curated("");
    assert!(document.get_tokens().is_empty());
    assert_eq!(document.to_string(), "");
    let lints = LintGroup::new(LintGroupConfig::default(), MergedDictionary::curated()).lint(&document);
    assert!(lints.is_empty());
    let mut none: Vec<Lint> = Vec::new();
    remove_overlaps(&mut none);
    assert!(none.is_empty());
}

#[test]
fn document_indices() {
    let document = Document::new_plain_english_curated("Say \"hi\" 2 times. Ok!");
    assert_eq!(document.indices(TokenClass::Number), vec![6]);
    assert_eq!(document.indices(TokenClass::SentenceTerminator), vec![9, 12]);
    assert_eq!(document.indices(TokenClass::Word), vec![0, 3, 8, 11]);
    assert_eq!(document.quote_pairs(), vec![(2, 4)]);
}

#[test]
fn clean_mdx_keeps_digits_and_blanks_emoji() {
    assert_eq!(clean_mdx_content("Call 555 #1 *now* \u{1F600}"), "Call 555 #1 *now*  ");
}

#[test]
fn web_lint_spans_lie_in_text() {
    let text = "The the cat saw a apple, eg it..";
    let lints = web::lint(text, &LintGroupConfig::default());
    assert!(!lints.is_empty());
    for l in &lints {
        let s = l.span();
        assert!(s.start <= s.end && s.end <= text.chars().count());
    }
    let again = web::lint(text, &LintGroupConfig::default());
    assert_eq!(lints.len(), again.len());
}

#[test]
fn likely_english_uses_built_in_words() {
    assert!(web::is_likely_english("The cat is on the chair."));
    assert!(!web::is_likely_english("Qwv zzpt rrk."));
}
