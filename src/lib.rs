use vstd::prelude::*;

pub mod dictionary;
pub mod document;
pub mod edit_distance;
pub mod language;
pub mod lexer;
pub mod lint_group;
pub mod linting;
pub mod mdx;
pub mod overlaps;
pub mod parsers;
pub mod patterns;
pub mod placement;
pub mod quotes;
pub mod repeated_words;
pub mod span;
pub mod spell_check;
pub mod spelled_numbers;
pub mod text;
pub mod token;
pub mod token_rules;
pub mod unclosed_quotes;
pub mod use_genitive;
pub mod web;
pub mod window_rules;

pub use dictionary::{FullDictionary, MergedDictionary, WordMetadata};
pub use document::{Document, TokenClass};
pub use language::is_doc_likely_english;
pub use lint_group::{LintGroup, LintGroupConfig};
pub use linting::{Lint, LintKind, Suggestion};
pub use mdx::clean_mdx_content;
pub use overlaps::remove_overlaps;
pub use parsers::{CollapseIdentifiers, IsolateEnglish, Parser};
pub use patterns::{Invert, Pattern, SequencePattern, WordPatternGroup};
pub use repeated_words::RepeatedWords;
pub use span::Span;
pub use spelled_numbers::{spell_out_number, SpelledNumbers};
pub use token::{Number, OrdinalSuffix, Punctuation, Token, TokenKind};
pub use unclosed_quotes::UnclosedQuotes;
pub use use_genitive::UseGenitive;

verus! {

} // verus!
