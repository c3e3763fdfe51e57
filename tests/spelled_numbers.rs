use harper::{spell_out_number, Document, Lint, SpelledNumbers};

fn assert_suggestion_result(text: &str, lint: impl Fn(&Document) -> Vec<Lint>, expected: &str) {
    let document = Document::new_plain_english_curated(text);
    let lints = lint(&document);
    let mut chars: Vec<char> = text.chars().collect();
    for l in lints.iter().rev() {
        if let Some(s) = l.suggestions.first() {
            s.apply(l.span, &mut chars);
        }
    }
    assert_eq!(chars.iter().collect::<String>(), expected);
}

#[test]
fn produces_zero() {
    assert_eq!(spell_out_number(0), Some("zero".to_string()))
}

#[test]
fn produces_eighty_two() {
    assert_eq!(spell_out_number(82), Some("eighty-two".to_string()))
}

#[test]
fn produces_nine_hundred_ninety_nine() {
    assert_eq!(spell_out_number(999), Some("nine hundred ninety-nine".to_string()))
}

#[test]
fn corrects_nine() {
    assert_suggestion_result("There are 9 pigs.", |d| SpelledNumbers.lint(d), "There are nine pigs.");
}

#[test]
fn does_not_correct_ten() {
    assert_suggestion_result("There are 10 pigs.", |d| SpelledNumbers.lint(d), "There are 10 pigs.");
}

/// Every number below a thousand has a spelling.
#[test]
fn services_range() {
    for i in 0..1000 {
        spell_out_number(i).unwrap();
    }
}

#[test]
fn refuses_one_thousand() {
    assert_eq!(spell_out_number(1000), None);
}

#[test]
fn spells_hundreds_and_teens() {
    assert_eq!(spell_out_number(100), Some("one hundred".to_string()));
    assert_eq!(spell_out_number(115), Some("one hundred fifteen".to_string()));
    assert_eq!(spell_out_number(40), Some("forty".to_string()));
    assert_eq!(spell_out_number(305), Some("three hundred five".to_string()));
}

#[test]
fn nine_gets_one_lint_at_its_span() {
    let document = Document::new_plain_english_curated("There are 9 pigs.");
    let lints = SpelledNumbers.lint(&document);
    assert_eq!(lints.len(), 1);
    assert_eq!((lints[0].span.start, lints[0].span.end), (10, 11));
    assert_eq!(lints[0].priority, 63);
}

#[test]
fn fractions_are_left_alone() {
    let document = Document::new_plain_english_curated("It took 2.5 days and 3.0 hours.");
    let lints = SpelledNumbers.lint(&document);
    assert_eq!(lints.len(), 1);
    assert_eq!((lints[0].span.start, lints[0].span.end), (21, 24));
}
