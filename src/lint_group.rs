use vstd::prelude::*;

use crate::dictionary::{Entries, MergedDictionary};
use crate::document::Document;
use crate::spell_check::{spell_check_lints, SpellCheck};
use crate::linting::{append_lints, lints_view, Lint, LintView};
use crate::patterns::all_matches;
use crate::repeated_words::{repeated_words_lints, RepeatedWords};
use crate::spelled_numbers::{spelled_numbers_lints, SpelledNumbers};
use crate::token_rules::{lint_tokens, token_rule_lints, TokenRule};
use crate::unclosed_quotes::{unclosed_quotes_lints, UnclosedQuotes};
use crate::use_genitive::{genitive_lints, is_genitive_pattern, UseGenitive};
use crate::window_rules::{lint_windows, window_rule_lints, WindowRule};

verus! {

/// The built-in rules, in the order in which they run.
#[derive(Clone, Copy, Debug, PartialEq, Eq, Structural)]
pub enum Rule {
    SpelledNumbers,
    AnA,
    SentenceCapitalization,
    UnclosedQuotes,
    WrongQuotes,
    LongSentences,
    RepeatedWords,
    Spaces,
    Matcher,
    CorrectNumberSuffix,
    NumberSuffixCapitalization,
    MultipleSequentialPronouns,
    LinkingVerbs,
    AvoidCurses,
    TerminatingConjunctions,
    EllipsisLength,
    DotInitialisms,
    BoringWords,
    UseGenitive,
    ThatWhich,
    CapitalizePersonalPronouns,
    SpellCheck,
}

pub const RULE_COUNT: usize = 22;

/// The rule at position `k` of the running order.
pub open spec fn rule_at(k: int) -> Rule {
    if k == 0 {
        Rule::SpelledNumbers
    } else if k == 1 {
        Rule::AnA
    } else if k == 2 {
        Rule::SentenceCapitalization
    } else if k == 3 {
        Rule::UnclosedQuotes
    } else if k == 4 {
        Rule::WrongQuotes
    } else if k == 5 {
        Rule::LongSentences
    } else if k == 6 {
        Rule::RepeatedWords
    } else if k == 7 {
        Rule::Spaces
    } else if k == 8 {
        Rule::Matcher
    } else if k == 9 {
        Rule::CorrectNumberSuffix
    } else if k == 10 {
        Rule::NumberSuffixCapitalization
    } else if k == 11 {
        Rule::MultipleSequentialPronouns
    } else if k == 12 {
        Rule::LinkingVerbs
    } else if k == 13 {
        Rule::AvoidCurses
    } else if k == 14 {
        Rule::TerminatingConjunctions
    } else if k == 15 {
        Rule::EllipsisLength
    } else if k == 16 {
        Rule::DotInitialisms
    } else if k == 17 {
        Rule::BoringWords
    } else if k == 18 {
        Rule::UseGenitive
    } else if k == 19 {
        Rule::ThatWhich
    } else if k == 20 {
        Rule::CapitalizePersonalPronouns
    } else {
        Rule::SpellCheck
    }
}

pub fn rule_at_exec(k: usize) -> (r: Rule)
    ensures
        r == rule_at(k as int),
{
    match k {
        0 => Rule::SpelledNumbers,
        1 => Rule::AnA,
        2 => Rule::SentenceCapitalization,
        3 => Rule::UnclosedQuotes,
        4 => Rule::WrongQuotes,
        5 => Rule::LongSentences,
        6 => Rule::RepeatedWords,
        7 => Rule::Spaces,
        8 => Rule::Matcher,
        9 => Rule::CorrectNumberSuffix,
        10 => Rule::NumberSuffixCapitalization,
        11 => Rule::MultipleSequentialPronouns,
        12 => Rule::LinkingVerbs,
        13 => Rule::AvoidCurses,
        14 => Rule::TerminatingConjunctions,
        15 => Rule::EllipsisLength,
        16 => Rule::DotInitialisms,
        17 => Rule::BoringWords,
        18 => Rule::UseGenitive,
        19 => Rule::ThatWhich,
        20 => Rule::CapitalizePersonalPronouns,
        _ => Rule::SpellCheck,
    }
}

/// Whether a rule runs when its configuration says nothing.
pub open spec fn rule_default(r: Rule) -> bool {
    match r {
        Rule::SpelledNumbers => false,
        Rule::AnA => true,
        Rule::SentenceCapitalization => false,
        Rule::UnclosedQuotes => true,
        Rule::WrongQuotes => false,
        Rule::LongSentences => true,
        Rule::RepeatedWords => true,
        Rule::Spaces => false,
        Rule::Matcher => true,
        Rule::CorrectNumberSuffix => true,
        Rule::NumberSuffixCapitalization => true,
        Rule::MultipleSequentialPronouns => true,
        Rule::LinkingVerbs => false,
        Rule::AvoidCurses => true,
        Rule::TerminatingConjunctions => true,
        Rule::EllipsisLength => true,
        Rule::DotInitialisms => true,
        Rule::BoringWords => false,
        Rule::UseGenitive => false,
        Rule::ThatWhich => true,
        Rule::CapitalizePersonalPronouns => true,
        Rule::SpellCheck => true,
    }
}

fn default_of(r: Rule) -> (b: bool)
    ensures
        b == rule_default(r),
{
    match r {
        Rule::SpelledNumbers => false,
        Rule::AnA => true,
        Rule::SentenceCapitalization => false,
        Rule::UnclosedQuotes => true,
        Rule::WrongQuotes => false,
        Rule::LongSentences => true,
        Rule::RepeatedWords => true,
        Rule::Spaces => false,
        Rule::Matcher => true,
        Rule::CorrectNumberSuffix => true,
        Rule::NumberSuffixCapitalization => true,
        Rule::MultipleSequentialPronouns => true,
        Rule::LinkingVerbs => false,
        Rule::AvoidCurses => true,
        Rule::TerminatingConjunctions => true,
        Rule::EllipsisLength => true,
        Rule::DotInitialisms => true,
        Rule::BoringWords => false,
        Rule::UseGenitive => false,
        Rule::ThatWhich => true,
        Rule::CapitalizePersonalPronouns => true,
        Rule::SpellCheck => true,
    }
}

/// Which rules run: `Some(true)` on, `Some(false)` off, `None` the rule's
/// default.
#[derive(Clone, Copy, Debug, PartialEq, Eq, Structural)]
pub struct LintGroupConfig {
    pub spelled_numbers: Option<bool>,
    pub an_a: Option<bool>,
    pub sentence_capitalization: Option<bool>,
    pub unclosed_quotes: Option<bool>,
    pub wrong_quotes: Option<bool>,
    pub long_sentences: Option<bool>,
    pub repeated_words: Option<bool>,
    pub spaces: Option<bool>,
    pub matcher: Option<bool>,
    pub correct_number_suffix: Option<bool>,
    pub number_suffix_capitalization: Option<bool>,
    pub multiple_sequential_pronouns: Option<bool>,
    pub linking_verbs: Option<bool>,
    pub avoid_curses: Option<bool>,
    pub terminating_conjunctions: Option<bool>,
    pub ellipsis_length: Option<bool>,
    pub dot_initialisms: Option<bool>,
    pub boring_words: Option<bool>,
    pub use_genitive: Option<bool>,
    pub that_which: Option<bool>,
    pub capitalize_personal_pronouns: Option<bool>,
    pub spell_check: Option<bool>,
}

pub open spec fn setting(o: Option<bool>, default: bool) -> bool {
    match o {
        Some(b) => b,
        None => default,
    }
}

/// What the configuration says of `r`.
pub open spec fn rule_setting(c: LintGroupConfig, r: Rule) -> Option<bool> {
    match r {
        Rule::SpelledNumbers => c.spelled_numbers,
        Rule::AnA => c.an_a,
        Rule::SentenceCapitalization => c.sentence_capitalization,
        Rule::UnclosedQuotes => c.unclosed_quotes,
        Rule::WrongQuotes => c.wrong_quotes,
        Rule::LongSentences => c.long_sentences,
        Rule::RepeatedWords => c.repeated_words,
        Rule::Spaces => c.spaces,
        Rule::Matcher => c.matcher,
        Rule::CorrectNumberSuffix => c.correct_number_suffix,
        Rule::NumberSuffixCapitalization => c.number_suffix_capitalization,
        Rule::MultipleSequentialPronouns => c.multiple_sequential_pronouns,
        Rule::LinkingVerbs => c.linking_verbs,
        Rule::AvoidCurses => c.avoid_curses,
        Rule::TerminatingConjunctions => c.terminating_conjunctions,
        Rule::EllipsisLength => c.ellipsis_length,
        Rule::DotInitialisms => c.dot_initialisms,
        Rule::BoringWords => c.boring_words,
        Rule::UseGenitive => c.use_genitive,
        Rule::ThatWhich => c.that_which,
        Rule::CapitalizePersonalPronouns => c.capitalize_personal_pronouns,
        Rule::SpellCheck => c.spell_check,
    }
}

pub open spec fn rule_enabled(c: LintGroupConfig, r: Rule) -> bool {
    setting(rule_setting(c, r), rule_default(r))
}

pub open spec fn filled(c: LintGroupConfig) -> LintGroupConfig {
    LintGroupConfig {
        spelled_numbers: Some(setting(c.spelled_numbers, rule_default(Rule::SpelledNumbers))),
        an_a: Some(setting(c.an_a, rule_default(Rule::AnA))),
        sentence_capitalization: Some(setting(c.sentence_capitalization, rule_default(Rule::SentenceCapitalization))),
        unclosed_quotes: Some(setting(c.unclosed_quotes, rule_default(Rule::UnclosedQuotes))),
        wrong_quotes: Some(setting(c.wrong_quotes, rule_default(Rule::WrongQuotes))),
        long_sentences: Some(setting(c.long_sentences, rule_default(Rule::LongSentences))),
        repeated_words: Some(setting(c.repeated_words, rule_default(Rule::RepeatedWords))),
        spaces: Some(setting(c.spaces, rule_default(Rule::Spaces))),
        matcher: Some(setting(c.matcher, rule_default(Rule::Matcher))),
        correct_number_suffix: Some(setting(c.correct_number_suffix, rule_default(Rule::CorrectNumberSuffix))),
        number_suffix_capitalization: Some(setting(c.number_suffix_capitalization, rule_default(Rule::NumberSuffixCapitalization))),
        multiple_sequential_pronouns: Some(setting(c.multiple_sequential_pronouns, rule_default(Rule::MultipleSequentialPronouns))),
        linking_verbs: Some(setting(c.linking_verbs, rule_default(Rule::LinkingVerbs))),
        avoid_curses: Some(setting(c.avoid_curses, rule_default(Rule::AvoidCurses))),
        terminating_conjunctions: Some(setting(c.terminating_conjunctions, rule_default(Rule::TerminatingConjunctions))),
        ellipsis_length: Some(setting(c.ellipsis_length, rule_default(Rule::EllipsisLength))),
        dot_initialisms: Some(setting(c.dot_initialisms, rule_default(Rule::DotInitialisms))),
        boring_words: Some(setting(c.boring_words, rule_default(Rule::BoringWords))),
        use_genitive: Some(setting(c.use_genitive, rule_default(Rule::UseGenitive))),
        that_which: Some(setting(c.that_which, rule_default(Rule::ThatWhich))),
        capitalize_personal_pronouns: Some(setting(c.capitalize_personal_pronouns, rule_default(Rule::CapitalizePersonalPronouns))),
        spell_check: Some(setting(c.spell_check, rule_default(Rule::SpellCheck))),
    }
}

fn fill(o: Option<bool>, default: bool) -> (r: Option<bool>)
    ensures
        r == Some(setting(o, default)),
{
    match o {
        Some(b) => Some(b),
        None => Some(default),
    }
}

impl Default for LintGroupConfig {
    fn default() -> (r: LintGroupConfig)
        ensures
            r.spelled_numbers is None,
            r.an_a is None,
            r.sentence_capitalization is None,
            r.unclosed_quotes is None,
            r.wrong_quotes is None,
            r.long_sentences is None,
            r.repeated_words is None,
            r.spaces is None,
            r.matcher is None,
            r.correct_number_suffix is None,
            r.number_suffix_capitalization is None,
            r.multiple_sequential_pronouns is None,
            r.linking_verbs is None,
            r.avoid_curses is None,
            r.terminating_conjunctions is None,
            r.ellipsis_length is None,
            r.dot_initialisms is None,
            r.boring_words is None,
            r.use_genitive is None,
            r.that_which is None,
            r.capitalize_personal_pronouns is None,
            r.spell_check is None,
    {
        LintGroupConfig {
            spelled_numbers: None,
            an_a: None,
            sentence_capitalization: None,
            unclosed_quotes: None,
            wrong_quotes: None,
            long_sentences: None,
            repeated_words: None,
            spaces: None,
            matcher: None,
            correct_number_suffix: None,
            number_suffix_capitalization: None,
            multiple_sequential_pronouns: None,
            linking_verbs: None,
            avoid_curses: None,
            terminating_conjunctions: None,
            ellipsis_length: None,
            dot_initialisms: None,
            boring_words: None,
            use_genitive: None,
            that_which: None,
            capitalize_personal_pronouns: None,
            spell_check: None,
        }
    }
}

impl LintGroupConfig {
    /// A configuration with every rule off.
    pub fn none() -> (r: LintGroupConfig)
        ensures
            r.spelled_numbers == Some(false),
            r.an_a == Some(false),
            r.sentence_capitalization == Some(false),
            r.unclosed_quotes == Some(false),
            r.wrong_quotes == Some(false),
            r.long_sentences == Some(false),
            r.repeated_words == Some(false),
            r.spaces == Some(false),
            r.matcher == Some(false),
            r.correct_number_suffix == Some(false),
            r.number_suffix_capitalization == Some(false),
            r.multiple_sequential_pronouns == Some(false),
            r.linking_verbs == Some(false),
            r.avoid_curses == Some(false),
            r.terminating_conjunctions == Some(false),
            r.ellipsis_length == Some(false),
            r.dot_initialisms == Some(false),
            r.boring_words == Some(false),
            r.use_genitive == Some(false),
            r.that_which == Some(false),
            r.capitalize_personal_pronouns == Some(false),
            r.spell_check == Some(false),
    {
        LintGroupConfig {
            spelled_numbers: Some(false),
            an_a: Some(false),
            sentence_capitalization: Some(false),
            unclosed_quotes: Some(false),
            wrong_quotes: Some(false),
            long_sentences: Some(false),
            repeated_words: Some(false),
            spaces: Some(false),
            matcher: Some(false),
            correct_number_suffix: Some(false),
            number_suffix_capitalization: Some(false),
            multiple_sequential_pronouns: Some(false),
            linking_verbs: Some(false),
            avoid_curses: Some(false),
            terminating_conjunctions: Some(false),
            ellipsis_length: Some(false),
            dot_initialisms: Some(false),
            boring_words: Some(false),
            use_genitive: Some(false),
            that_which: Some(false),
            capitalize_personal_pronouns: Some(false),
            spell_check: Some(false),
        }
    }

    /// Puts each rule's default where no setting is given.
    pub fn fill_default_values(&mut self)
        ensures
            *final(self) == filled(*old(self)),
    {
        self.spelled_numbers = fill(self.spelled_numbers, default_of(Rule::SpelledNumbers));
        self.an_a = fill(self.an_a, default_of(Rule::AnA));
        self.sentence_capitalization = fill(self.sentence_capitalization, default_of(Rule::SentenceCapitalization));
        self.unclosed_quotes = fill(self.unclosed_quotes, default_of(Rule::UnclosedQuotes));
        self.wrong_quotes = fill(self.wrong_quotes, default_of(Rule::WrongQuotes));
        self.long_sentences = fill(self.long_sentences, default_of(Rule::LongSentences));
        self.repeated_words = fill(self.repeated_words, default_of(Rule::RepeatedWords));
        self.spaces = fill(self.spaces, default_of(Rule::Spaces));
        self.matcher = fill(self.matcher, default_of(Rule::Matcher));
        self.correct_number_suffix = fill(self.correct_number_suffix, default_of(Rule::CorrectNumberSuffix));
        self.number_suffix_capitalization = fill(self.number_suffix_capitalization, default_of(Rule::NumberSuffixCapitalization));
        self.multiple_sequential_pronouns = fill(self.multiple_sequential_pronouns, default_of(Rule::MultipleSequentialPronouns));
        self.linking_verbs = fill(self.linking_verbs, default_of(Rule::LinkingVerbs));
        self.avoid_curses = fill(self.avoid_curses, default_of(Rule::AvoidCurses));
        self.terminating_conjunctions = fill(self.terminating_conjunctions, default_of(Rule::TerminatingConjunctions));
        self.ellipsis_length = fill(self.ellipsis_length, default_of(Rule::EllipsisLength));
        self.dot_initialisms = fill(self.dot_initialisms, default_of(Rule::DotInitialisms));
        self.boring_words = fill(self.boring_words, default_of(Rule::BoringWords));
        self.use_genitive = fill(self.use_genitive, default_of(Rule::UseGenitive));
        self.that_which = fill(self.that_which, default_of(Rule::ThatWhich));
        self.capitalize_personal_pronouns = fill(self.capitalize_personal_pronouns, default_of(Rule::CapitalizePersonalPronouns));
        self.spell_check = fill(self.spell_check, default_of(Rule::SpellCheck));
    }

    /// Whether `rule` runs under this configuration.
    pub fn is_enabled(&self, rule: Rule) -> (b: bool)
        ensures
            b == rule_enabled(*self, rule),
    {
        let s = match rule {
            Rule::SpelledNumbers => self.spelled_numbers,
            Rule::AnA => self.an_a,
            Rule::SentenceCapitalization => self.sentence_capitalization,
            Rule::UnclosedQuotes => self.unclosed_quotes,
            Rule::WrongQuotes => self.wrong_quotes,
            Rule::LongSentences => self.long_sentences,
            Rule::RepeatedWords => self.repeated_words,
            Rule::Spaces => self.spaces,
            Rule::Matcher => self.matcher,
            Rule::CorrectNumberSuffix => self.correct_number_suffix,
            Rule::NumberSuffixCapitalization => self.number_suffix_capitalization,
            Rule::MultipleSequentialPronouns => self.multiple_sequential_pronouns,
            Rule::LinkingVerbs => self.linking_verbs,
            Rule::AvoidCurses => self.avoid_curses,
            Rule::TerminatingConjunctions => self.terminating_conjunctions,
            Rule::EllipsisLength => self.ellipsis_length,
            Rule::DotInitialisms => self.dot_initialisms,
            Rule::BoringWords => self.boring_words,
            Rule::UseGenitive => self.use_genitive,
            Rule::ThatWhich => self.that_which,
            Rule::CapitalizePersonalPronouns => self.capitalize_personal_pronouns,
            Rule::SpellCheck => self.spell_check,
        };
        match s {
            Some(b) => b,
            None => default_of(rule),
        }
    }
}

/// Every built-in rule, run as its configuration says.
pub struct LintGroup {
    pub spelled_numbers: SpelledNumbers,
    pub repeated_words: RepeatedWords,
    pub unclosed_quotes: UnclosedQuotes,
    pub use_genitive: UseGenitive,
    pub spell_check: SpellCheck,
    pub config: LintGroupConfig,
}

impl LintGroup {
    /// A group as `new` builds it.
    pub open spec fn is_built_with(&self, config: LintGroupConfig, dictionary: Seq<Entries>) -> bool {
        &&& self.config == config
        &&& is_genitive_pattern(self.use_genitive.spec_pattern())
        &&& self.spell_check.dictionary@ == dictionary
    }

    /// A group with `config`, whose spell checking knows the words of
    /// `dictionary`.
    pub fn new(config: LintGroupConfig, dictionary: MergedDictionary) -> (r: LintGroup)
        ensures
            r.is_built_with(config, dictionary@),
    {
        LintGroup {
            spelled_numbers: SpelledNumbers,
            repeated_words: RepeatedWords,
            unclosed_quotes: UnclosedQuotes,
            use_genitive: UseGenitive::new(),
            spell_check: SpellCheck::new(dictionary),
            config,
        }
    }

    /// The lints of one rule on `doc`.
    pub open spec fn rule_lints(&self, rule: Rule, doc: &Document) -> Seq<LintView> {
        let toks = doc.spec_tokens();
        let src = doc.spec_source();
        match rule {
            Rule::SpelledNumbers => spelled_numbers_lints(toks),
            Rule::AnA => window_rule_lints(WindowRule::AnA, toks, src, toks.len() as int),
            Rule::SentenceCapitalization => window_rule_lints(WindowRule::SentenceCapitalization, toks, src, toks.len() as int),
            Rule::UnclosedQuotes => unclosed_quotes_lints(toks),
            Rule::WrongQuotes => window_rule_lints(WindowRule::WrongQuotes, toks, src, toks.len() as int),
            Rule::LongSentences => window_rule_lints(WindowRule::LongSentences, toks, src, toks.len() as int),
            Rule::RepeatedWords => repeated_words_lints(toks, src, toks.len() as int),
            Rule::Spaces => token_rule_lints(TokenRule::Spaces, toks, src),
            Rule::Matcher => window_rule_lints(WindowRule::Matcher, toks, src, toks.len() as int),
            Rule::CorrectNumberSuffix => token_rule_lints(TokenRule::CorrectNumberSuffix, toks, src),
            Rule::NumberSuffixCapitalization => token_rule_lints(TokenRule::NumberSuffixCapitalization, toks, src),
            Rule::MultipleSequentialPronouns => window_rule_lints(WindowRule::MultipleSequentialPronouns, toks, src, toks.len() as int),
            Rule::LinkingVerbs => window_rule_lints(WindowRule::LinkingVerbs, toks, src, toks.len() as int),
            Rule::AvoidCurses => token_rule_lints(TokenRule::AvoidCurses, toks, src),
            Rule::TerminatingConjunctions => window_rule_lints(WindowRule::TerminatingConjunctions, toks, src, toks.len() as int),
            Rule::EllipsisLength => window_rule_lints(WindowRule::EllipsisLength, toks, src, toks.len() as int),
            Rule::DotInitialisms => token_rule_lints(TokenRule::DotInitialisms, toks, src),
            Rule::BoringWords => token_rule_lints(TokenRule::BoringWords, toks, src),
            Rule::UseGenitive => genitive_lints(all_matches(self.use_genitive.spec_pattern(), toks, src), toks),
            Rule::ThatWhich => window_rule_lints(WindowRule::ThatWhich, toks, src, toks.len() as int),
            Rule::CapitalizePersonalPronouns => token_rule_lints(TokenRule::CapitalizePersonalPronouns, toks, src),
            Rule::SpellCheck => spell_check_lints(toks, src, self.spell_check.dictionary@),
        }
    }

    /// The lints of the enabled rules among the first `k`, rule after rule.
    pub open spec fn lints_upto(&self, doc: &Document, k: int) -> Seq<LintView>
        decreases k,
    {
        if k <= 0 {
            Seq::empty()
        } else {
            self.lints_upto(doc, k - 1) + if rule_enabled(self.config, rule_at(k - 1)) {
                self.rule_lints(rule_at(k - 1), doc)
            } else {
                Seq::empty()
            }
        }
    }

    /// The lints of every enabled rule on `doc`, rule after rule.
    pub open spec fn lints_spec(&self, doc: &Document) -> Seq<LintView> {
        self.lints_upto(doc, RULE_COUNT as int)
    }

    /// Runs one rule.
    pub fn run_rule(&self, rule: Rule, document: &Document) -> (r: Vec<Lint>)
        ensures
            lints_view(r@) == self.rule_lints(rule, document),
    {
        match rule {
            Rule::SpelledNumbers => self.spelled_numbers.lint(document),
            Rule::AnA => lint_windows(WindowRule::AnA, document),
            Rule::SentenceCapitalization => lint_windows(WindowRule::SentenceCapitalization, document),
            Rule::UnclosedQuotes => self.unclosed_quotes.lint(document),
            Rule::WrongQuotes => lint_windows(WindowRule::WrongQuotes, document),
            Rule::LongSentences => lint_windows(WindowRule::LongSentences, document),
            Rule::RepeatedWords => self.repeated_words.lint(document),
            Rule::Spaces => lint_tokens(TokenRule::Spaces, document),
            Rule::Matcher => lint_windows(WindowRule::Matcher, document),
            Rule::CorrectNumberSuffix => lint_tokens(TokenRule::CorrectNumberSuffix, document),
            Rule::NumberSuffixCapitalization => lint_tokens(TokenRule::NumberSuffixCapitalization, document),
            Rule::MultipleSequentialPronouns => lint_windows(WindowRule::MultipleSequentialPronouns, document),
            Rule::LinkingVerbs => lint_windows(WindowRule::LinkingVerbs, document),
            Rule::AvoidCurses => lint_tokens(TokenRule::AvoidCurses, document),
            Rule::TerminatingConjunctions => lint_windows(WindowRule::TerminatingConjunctions, document),
            Rule::EllipsisLength => lint_windows(WindowRule::EllipsisLength, document),
            Rule::DotInitialisms => lint_tokens(TokenRule::DotInitialisms, document),
            Rule::BoringWords => lint_tokens(TokenRule::BoringWords, document),
            Rule::UseGenitive => self.use_genitive.lint(document),
            Rule::ThatWhich => lint_windows(WindowRule::ThatWhich, document),
            Rule::CapitalizePersonalPronouns => lint_tokens(TokenRule::CapitalizePersonalPronouns, document),
            Rule::SpellCheck => self.spell_check.lint(document),
        }
    }

    pub fn lint(&self, document: &Document) -> (r: Vec<Lint>)
        ensures
            lints_view(r@) == self.lints_spec(document),
    {
        let mut lints: Vec<Lint> = Vec::new();
        assert(lints_view(lints@) =~= Seq::<LintView>::empty());
        let mut k: usize = 0;
        while k < RULE_COUNT
            invariant
                k <= RULE_COUNT,
                lints_view(lints@) == self.lints_upto(document, k as int),
            decreases RULE_COUNT - k,
        {
            let rule = rule_at_exec(k);
            if self.config.is_enabled(rule) {
                append_lints(&mut lints, self.run_rule(rule, document));
            } else {
                assert(self.lints_upto(document, k + 1) =~= self.lints_upto(document, k as int));
            }
            k += 1;
        }
        lints
    }
}

/// Two groups built alike give the same lints on documents of the same text
/// and tokens.
pub proof fn lemma_built_groups_agree(
    first: &LintGroup,
    second: &LintGroup,
    config: LintGroupConfig,
    dictionary: Seq<Entries>,
    a: &Document,
    b: &Document,
)
    requires
        first.is_built_with(config, dictionary),
        second.is_built_with(config, dictionary),
        a.spec_source() == b.spec_source(),
        a.spec_tokens() == b.spec_tokens(),
    ensures
        first.lints_spec(a) == second.lints_spec(b),
{
    let src = a.spec_source();
    crate::use_genitive::lemma_genitive_patterns_agree(
        first.use_genitive.spec_pattern(),
        second.use_genitive.spec_pattern(),
        src,
    );
    crate::patterns::lemma_matches_from_agree(
        first.use_genitive.spec_pattern(),
        second.use_genitive.spec_pattern(),
        a.spec_tokens(),
        src,
        0,
    );
    lemma_upto_agree(first, second, a, b, RULE_COUNT as int);
}

proof fn lemma_upto_agree(first: &LintGroup, second: &LintGroup, a: &Document, b: &Document, k: int)
    requires
        first.config == second.config,
        first.spell_check.dictionary@ == second.spell_check.dictionary@,
        a.spec_source() == b.spec_source(),
        a.spec_tokens() == b.spec_tokens(),
        all_matches(first.use_genitive.spec_pattern(), a.spec_tokens(), a.spec_source()) == all_matches(
            second.use_genitive.spec_pattern(),
            a.spec_tokens(),
            a.spec_source(),
        ),
    ensures
        first.lints_upto(a, k) == second.lints_upto(b, k),
    decreases k,
{
    if k > 0 {
        lemma_upto_agree(first, second, a, b, k - 1);
        assert(first.rule_lints(rule_at(k - 1), a) == second.rule_lints(rule_at(k - 1), b));
    }
}

/// Linting is deterministic: a group run on two documents of the same text
/// and tokens (as `Document::new` makes from the same input) gives the same
/// lints.
pub proof fn lemma_lint_deterministic(group: &LintGroup, first: &Document, second: &Document)
    requires
        first.spec_source() == second.spec_source(),
        first.spec_tokens() == second.spec_tokens(),
    ensures
        group.lints_spec(first) == group.lints_spec(second),
{
    lemma_lints_upto_same(group, first, second, RULE_COUNT as int);
}

proof fn lemma_lints_upto_same(group: &LintGroup, first: &Document, second: &Document, k: int)
    requires
        first.spec_source() == second.spec_source(),
        first.spec_tokens() == second.spec_tokens(),
    ensures
        group.lints_upto(first, k) == group.lints_upto(second, k),
    decreases k,
{
    if k > 0 {
        lemma_lints_upto_same(group, first, second, k - 1);
    }
}

} // verus!
