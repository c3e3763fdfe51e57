use harper::{CollapseIdentifiers, FullDictionary, MergedDictionary, Parser, TokenKind, WordMetadata};

fn collapsing(dict: MergedDictionary) -> Parser {
    Parser::CollapseIdentifiers(Box::new(CollapseIdentifiers::new(Parser::PlainEnglish, dict)))
}

fn with_words(words: &[&str]) -> MergedDictionary {
    let mut dict = FullDictionary::new();
    for w in words {
        dict.append_word(w.chars().collect(), WordMetadata::default());
    }
    let mut merged = MergedDictionary::from(FullDictionary::curated());
    merged.add_dictionary(dict);
    merged
}

#[test]
fn no_collapse() {
    let source = "This is a test.";
    let tokens = collapsing(MergedDictionary::curated()).parse_str(source);
    assert_eq!(tokens.len(), 8);
}

#[test]
fn one_collapse() {
    let source = "This is a separated_identifier, wow!";
    let tokens = collapsing(MergedDictionary::curated()).parse_str(source);
    assert_eq!(tokens.len(), 13);

    let tokens = collapsing(with_words(&["separated_identifier"])).parse_str(source);
    assert_eq!(tokens.len(), 11);
    assert_eq!((tokens[6].span.start, tokens[6].span.end), (10, 30));
    assert!(matches!(tokens[6].kind, TokenKind::Word(_)));
}

#[test]
fn kebab_collapse() {
    let source = "This is a separated-identifier, wow!";
    let tokens = collapsing(MergedDictionary::curated()).parse_str(source);
    assert_eq!(tokens.len(), 13);

    let tokens = collapsing(with_words(&["separated-identifier"])).parse_str(source);
    assert_eq!(tokens.len(), 11);
    assert_eq!((tokens[6].span.start, tokens[6].span.end), (10, 30));
}

#[test]
fn double_collapse() {
    let source = "This is a separated_identifier_token, wow!";
    let tokens = collapsing(MergedDictionary::curated()).parse_str(source);
    assert_eq!(tokens.len(), 15);

    let tokens = collapsing(with_words(&["separated_identifier_token"])).parse_str(source);
    assert_eq!(tokens.len(), 11);
    assert_eq!(tokens[6].span.start, 10);
}

#[test]
fn two_collapses() {
    let source = "This is a separated_identifier, wow! separated_identifier";
    let tokens = collapsing(MergedDictionary::curated()).parse_str(source);
    assert_eq!(tokens.len(), 17);

    let tokens = collapsing(with_words(&["separated_identifier"])).parse_str(source);
    assert_eq!(tokens.len(), 13);
    assert_eq!(tokens[12].span.start, 37);
}

#[test]
fn overlapping_identifiers() {
    let source = "This is a separated_identifier_token, wow!";
    let tokens = collapsing(MergedDictionary::curated()).parse_str(source);
    assert_eq!(tokens.len(), 15);

    let tokens = collapsing(with_words(&["separated_identifier", "identifier_token"])).parse_str(source);
    assert_eq!(tokens.len(), 15);
}

#[test]
fn nested_identifiers() {
    let source = "This is a separated_identifier_token, wow!";
    let tokens = collapsing(MergedDictionary::curated()).parse_str(source);
    assert_eq!(tokens.len(), 15);

    let tokens = collapsing(with_words(&["separated_identifier_token", "separated_identifier"]))
        .parse_str(source);
    assert_eq!(tokens.len(), 11);
    assert_eq!(tokens[6].span.start, 10);
}

#[test]
fn quotes_pair_again_after_collapse() {
    let tokens = collapsing(with_words(&["a_b"])).parse_str("a_b \"c\" d e f");
    assert_eq!(tokens[2].kind, TokenKind::Quote(Some(4)));
    assert_eq!(tokens[4].kind, TokenKind::Quote(Some(2)));
    for (i, t) in tokens.iter().enumerate() {
        if let TokenKind::Quote(Some(j)) = t.kind {
            assert_eq!(tokens[j].kind, TokenKind::Quote(Some(i)));
        }
    }
}
