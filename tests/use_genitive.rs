use harper::{Document, Lint, UseGenitive};

fn lint_with(text: &str) -> (Vec<char>, Vec<Lint>) {
    let document = Document::new_plain_english_curated(text);
    let lints = UseGenitive::new().lint(&document);
    (text.chars().collect(), lints)
}

fn assert_suggestion_result(text: &str, expected: &str) {
    let (mut chars, lints) = lint_with(text);
    for l in lints.iter().rev() {
        if let Some(s) = l.suggestions.first() {
            s.apply(l.span, &mut chars);
        }
    }
    assert_eq!(chars.iter().collect::<String>(), expected);
}

fn assert_lint_count(text: &str, count: usize) {
    let (_, lints) = lint_with(text);
    assert_eq!(lints.len(), count);
}

#[test]
fn catches_adjective_noun() {
    assert_suggestion_result("What are there big problems?", "What are their big problems?")
}

#[test]
fn catches_just_noun() {
    assert_suggestion_result("What are there problems?", "What are their problems?")
}

#[test]
fn allows_clause_termination() {
    assert_lint_count("Look there!", 0)
}

#[test]
fn allows_there_are() {
    assert_lint_count("Since there are people here, we should be socially aware.", 0)
}

#[test]
fn allows_there_at_beginning() {
    assert_lint_count("There is a cute cat sitting on the chair at home.", 0)
}

#[test]
fn catches_they_are() {
    assert_suggestion_result(
        "The students received they're test results today.",
        "The students received their test results today.",
    )
}

#[test]
fn allows_grantlemons_issue_267_cat() {
    assert_lint_count("Were there cats at her house?", 0);
}

#[test]
fn allows_grantlemons_issue_267_apple() {
    assert_lint_count("Were there any apples at the store?", 0);
}

#[test]
fn allows_grantlemons_issue_267_fruit() {
    assert_lint_count("Were there many kinds of fruit at the store?", 0);
}

#[test]
fn allows_grantlemons_issue_267_people() {
    assert_lint_count("Were there more than, or less than six people at the party?", 0);
}

#[test]
fn allows_faster_at_running() {
    assert_lint_count("Melissa was faster at running than her friend.", 0);
}

#[test]
fn genitive_lint_points_at_there() {
    let (_, lints) = lint_with("What are there big problems?");
    assert_eq!(lints.len(), 1);
    assert_eq!((lints[0].span.start, lints[0].span.end), (9, 14));
    assert_eq!(lints[0].priority, 31);
}

#[test]
fn genitive_lint_skips_line_breaks() {
    let (_, lints) = lint_with("What are \nthere problems?");
    assert_eq!(lints.len(), 1);
    assert_eq!((lints[0].span.start, lints[0].span.end), (10, 15));
}
