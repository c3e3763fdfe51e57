use vstd::prelude::*;

use crate::text::{ascii_lowered, chars_equal, str_to_chars, to_ascii_lower};

verus! {

/// What the dictionary knows of a word; `None` means unknown.
#[derive(Clone, Copy, Debug, PartialEq, Eq, Structural)]
pub struct WordMetadata {
    pub is_noun: Option<bool>,
    pub is_verb: Option<bool>,
    pub is_adjective: Option<bool>,
    pub is_adverb: Option<bool>,
    pub is_pronoun: Option<bool>,
    pub is_conjunction: Option<bool>,
    pub is_determiner: Option<bool>,
    pub is_preposition: Option<bool>,
    pub is_linking_verb: Option<bool>,
    pub is_common: Option<bool>,
}

pub open spec fn unknown_metadata() -> WordMetadata {
    WordMetadata {
        is_noun: None,
        is_verb: None,
        is_adjective: None,
        is_adverb: None,
        is_pronoun: None,
        is_conjunction: None,
        is_determiner: None,
        is_preposition: None,
        is_linking_verb: None,
        is_common: None,
    }
}

impl Default for WordMetadata {
    fn default() -> (r: WordMetadata)
        ensures
            r == unknown_metadata(),
    {
        WordMetadata {
            is_noun: None,
            is_verb: None,
            is_adjective: None,
            is_adverb: None,
            is_pronoun: None,
            is_conjunction: None,
            is_determiner: None,
            is_preposition: None,
            is_linking_verb: None,
            is_common: None,
        }
    }
}

/// The positive flags of either record; a flag known false stays false only
/// where the other does not know it true.
pub open spec fn merge_flag(a: Option<bool>, b: Option<bool>) -> Option<bool> {
    match (a, b) {
        (Some(x), Some(y)) => Some(x || y),
        (Some(x), None) => Some(x),
        (None, y) => y,
    }
}

pub open spec fn merge_metadata(a: WordMetadata, b: WordMetadata) -> WordMetadata {
    WordMetadata {
        is_noun: merge_flag(a.is_noun, b.is_noun),
        is_verb: merge_flag(a.is_verb, b.is_verb),
        is_adjective: merge_flag(a.is_adjective, b.is_adjective),
        is_adverb: merge_flag(a.is_adverb, b.is_adverb),
        is_pronoun: merge_flag(a.is_pronoun, b.is_pronoun),
        is_conjunction: merge_flag(a.is_conjunction, b.is_conjunction),
        is_determiner: merge_flag(a.is_determiner, b.is_determiner),
        is_preposition: merge_flag(a.is_preposition, b.is_preposition),
        is_linking_verb: merge_flag(a.is_linking_verb, b.is_linking_verb),
        is_common: merge_flag(a.is_common, b.is_common),
    }
}

fn merge_flag_exec(a: Option<bool>, b: Option<bool>) -> (r: Option<bool>)
    ensures
        r == merge_flag(a, b),
{
    match (a, b) {
        (Some(x), Some(y)) => Some(x || y),
        (Some(x), None) => Some(x),
        (None, y) => y,
    }
}

impl WordMetadata {
    /// Combines what two records know of a word.
    pub fn or(&self, other: &WordMetadata) -> (r: WordMetadata)
        ensures
            r == merge_metadata(*self, *other),
    {
        WordMetadata {
            is_noun: merge_flag_exec(self.is_noun, other.is_noun),
            is_verb: merge_flag_exec(self.is_verb, other.is_verb),
            is_adjective: merge_flag_exec(self.is_adjective, other.is_adjective),
            is_adverb: merge_flag_exec(self.is_adverb, other.is_adverb),
            is_pronoun: merge_flag_exec(self.is_pronoun, other.is_pronoun),
            is_conjunction: merge_flag_exec(self.is_conjunction, other.is_conjunction),
            is_determiner: merge_flag_exec(self.is_determiner, other.is_determiner),
            is_preposition: merge_flag_exec(self.is_preposition, other.is_preposition),
            is_linking_verb: merge_flag_exec(self.is_linking_verb, other.is_linking_verb),
            is_common: merge_flag_exec(self.is_common, other.is_common),
        }
    }

    pub fn is_noun(&self) -> (r: bool)
        ensures
            r == (self.is_noun == Some(true)),
    {
        self.is_noun == Some(true)
    }

    pub fn is_adjective(&self) -> (r: bool)
        ensures
            r == (self.is_adjective == Some(true)),
    {
        self.is_adjective == Some(true)
    }

    pub fn is_adverb(&self) -> (r: bool)
        ensures
            r == (self.is_adverb == Some(true)),
    {
        self.is_adverb == Some(true)
    }
}

pub type Entries = Seq<(Seq<char>, WordMetadata)>;

/// The metadata of the last entry spelled exactly `w`.
pub open spec fn find_exact(entries: Entries, w: Seq<char>) -> Option<WordMetadata>
    decreases entries.len(),
{
    if entries.len() == 0 {
        None
    } else if entries.last().0 == w {
        Some(entries.last().1)
    } else {
        find_exact(entries.drop_last(), w)
    }
}

/// The metadata of the last entry spelled as `w` with its ASCII capitals made
/// small.
pub open spec fn find_lowered(entries: Entries, w: Seq<char>) -> Option<WordMetadata>
    decreases entries.len(),
{
    if entries.len() == 0 {
        None
    } else if ascii_lowered(w, entries.last().0) {
        Some(entries.last().1)
    } else {
        find_lowered(entries.drop_last(), w)
    }
}

/// A word is found as written, or else in small letters.
pub open spec fn entries_lookup(entries: Entries, w: Seq<char>) -> Option<WordMetadata> {
    match find_exact(entries, w) {
        Some(m) => Some(m),
        None => find_lowered(entries, w),
    }
}

pub struct DictEntry {
    pub word: Vec<char>,
    pub metadata: WordMetadata,
}

/// A list of words with their metadata; a later entry for a word overrides an
/// earlier one.
pub struct FullDictionary {
    entries: Vec<DictEntry>,
}

impl View for FullDictionary {
    type V = Entries;

    closed spec fn view(&self) -> Entries {
        Seq::new(self.entries@.len(), |i: int| (self.entries@[i].word@, self.entries@[i].metadata))
    }
}

pub const NOUN: u16 = 1;
pub const VERB: u16 = 2;
pub const ADJECTIVE: u16 = 4;
pub const ADVERB: u16 = 8;
pub const PRONOUN: u16 = 16;
pub const CONJUNCTION: u16 = 32;
pub const DETERMINER: u16 = 64;
pub const PREPOSITION: u16 = 128;
pub const LINKING_VERB: u16 = 256;
pub const COMMON: u16 = 512;

/// A flag set in `flags` is known true; one not set is unknown.
pub open spec fn flag_spec(flags: u16, bit: u16) -> Option<bool> {
    if flags & bit != 0 {
        Some(true)
    } else {
        None
    }
}

/// The metadata that a set of part-of-speech flags stands for.
pub open spec fn flags_metadata(flags: u16) -> WordMetadata {
    WordMetadata {
        is_noun: flag_spec(flags, NOUN),
        is_verb: flag_spec(flags, VERB),
        is_adjective: flag_spec(flags, ADJECTIVE),
        is_adverb: flag_spec(flags, ADVERB),
        is_pronoun: flag_spec(flags, PRONOUN),
        is_conjunction: flag_spec(flags, CONJUNCTION),
        is_determiner: flag_spec(flags, DETERMINER),
        is_preposition: flag_spec(flags, PREPOSITION),
        is_linking_verb: flag_spec(flags, LINKING_VERB),
        is_common: flag_spec(flags, COMMON),
    }
}

fn flag(flags: u16, bit: u16) -> (r: Option<bool>)
    ensures
        r == flag_spec(flags, bit),
{
    if flags & bit != 0 {
        Some(true)
    } else {
        None
    }
}

fn metadata_of_flags(flags: u16) -> (r: WordMetadata)
    ensures
        r == flags_metadata(flags),
{
    WordMetadata {
        is_noun: flag(flags, NOUN),
        is_verb: flag(flags, VERB),
        is_adjective: flag(flags, ADJECTIVE),
        is_adverb: flag(flags, ADVERB),
        is_pronoun: flag(flags, PRONOUN),
        is_conjunction: flag(flags, CONJUNCTION),
        is_determiner: flag(flags, DETERMINER),
        is_preposition: flag(flags, PREPOSITION),
        is_linking_verb: flag(flags, LINKING_VERB),
        is_common: flag(flags, COMMON),
    }
}

/// The built-in word list: each word with its parts of speech, and whether
/// it is common.
pub open spec fn curated_entries() -> Entries {
    curated_part_0() + curated_part_1() + curated_part_2() + curated_part_3() + curated_part_4() + curated_part_5() + curated_part_6() + curated_part_7() + curated_part_8() + curated_part_9() + curated_part_10() + curated_part_11() + curated_part_12()
}

pub open spec fn curated_part_0() -> Entries {
    seq![
        ("a"@, flags_metadata(DETERMINER | COMMON)),
        ("an"@, flags_metadata(DETERMINER | COMMON)),
        ("the"@, flags_metadata(DETERMINER | COMMON)),
        ("this"@, flags_metadata(DETERMINER | PRONOUN | COMMON)),
        ("that"@, flags_metadata(DETERMINER | PRONOUN | CONJUNCTION | COMMON)),
        ("these"@, flags_metadata(DETERMINER | PRONOUN)),
        ("those"@, flags_metadata(DETERMINER | PRONOUN)),
        ("some"@, flags_metadata(DETERMINER)),
        ("any"@, flags_metadata(DETERMINER)),
        ("many"@, flags_metadata(DETERMINER | ADJECTIVE)),
        ("more"@, flags_metadata(DETERMINER | ADJECTIVE | ADVERB)),
        ("less"@, flags_metadata(DETERMINER | ADJECTIVE | ADVERB)),
        ("most"@, flags_metadata(DETERMINER | ADJECTIVE | ADVERB)),
        ("every"@, flags_metadata(DETERMINER)),
        ("each"@, flags_metadata(DETERMINER)),
        ("no"@, flags_metadata(DETERMINER)),
        ("all"@, flags_metadata(DETERMINER | PRONOUN)),
        ("i"@, flags_metadata(PRONOUN | COMMON)),
        ("you"@, flags_metadata(PRONOUN | COMMON)),
        ("he"@, flags_metadata(PRONOUN | COMMON)),
        ("she"@, flags_metadata(PRONOUN | COMMON)),
        ("it"@, flags_metadata(PRONOUN | COMMON)),
        ("we"@, flags_metadata(PRONOUN | COMMON)),
        ("they"@, flags_metadata(PRONOUN | COMMON)),
        ("me"@, flags_metadata(PRONOUN)),
        ("him"@, flags_metadata(PRONOUN)),
        ("her"@, flags_metadata(PRONOUN | DETERMINER)),
        ("us"@, flags_metadata(PRONOUN)),
        ("them"@, flags_metadata(PRONOUN)),
        ("my"@, flags_metadata(DETERMINER)),
        ("your"@, flags_metadata(DETERMINER)),
        ("his"@, flags_metadata(DETERMINER | PRONOUN)),
        ("its"@, flags_metadata(DETERMINER)),
        ("our"@, flags_metadata(DETERMINER)),
        ("their"@, flags_metadata(DETERMINER | COMMON)),
        ("mine"@, flags_metadata(PRONOUN)),
        ("yours"@, flags_metadata(PRONOUN)),
        ("what"@, flags_metadata(PRONOUN | DETERMINER | COMMON)),
        ("who"@, flags_metadata(PRONOUN)),
        ("which"@, flags_metadata(PRONOUN | DETERMINER)),
    ]
}

fn add_curated_0(d: &mut FullDictionary)
    ensures
        final(d)@ == old(d)@ + curated_part_0(),
{
    d.add("a", DETERMINER | COMMON);
    d.add("an", DETERMINER | COMMON);
    d.add("the", DETERMINER | COMMON);
    d.add("this", DETERMINER | PRONOUN | COMMON);
    d.add("that", DETERMINER | PRONOUN | CONJUNCTION | COMMON);
    d.add("these", DETERMINER | PRONOUN);
    d.add("those", DETERMINER | PRONOUN);
    d.add("some", DETERMINER);
    d.add("any", DETERMINER);
    d.add("many", DETERMINER | ADJECTIVE);
    d.add("more", DETERMINER | ADJECTIVE | ADVERB);
    d.add("less", DETERMINER | ADJECTIVE | ADVERB);
    d.add("most", DETERMINER | ADJECTIVE | ADVERB);
    d.add("every", DETERMINER);
    d.add("each", DETERMINER);
    d.add("no", DETERMINER);
    d.add("all", DETERMINER | PRONOUN);
    d.add("i", PRONOUN | COMMON);
    d.add("you", PRONOUN | COMMON);
    d.add("he", PRONOUN | COMMON);
    d.add("she", PRONOUN | COMMON);
    d.add("it", PRONOUN | COMMON);
    d.add("we", PRONOUN | COMMON);
    d.add("they", PRONOUN | COMMON);
    d.add("me", PRONOUN);
    d.add("him", PRONOUN);
    d.add("her", PRONOUN | DETERMINER);
    d.add("us", PRONOUN);
    d.add("them", PRONOUN);
    d.add("my", DETERMINER);
    d.add("your", DETERMINER);
    d.add("his", DETERMINER | PRONOUN);
    d.add("its", DETERMINER);
    d.add("our", DETERMINER);
    d.add("their", DETERMINER | COMMON);
    d.add("mine", PRONOUN);
    d.add("yours", PRONOUN);
    d.add("what", PRONOUN | DETERMINER | COMMON);
    d.add("who", PRONOUN);
    d.add("which", PRONOUN | DETERMINER);
    assert(d@ =~= old(d)@ + curated_part_0());
}

pub open spec fn curated_part_1() -> Entries {
    seq![
        ("whom"@, flags_metadata(PRONOUN)),
        ("whose"@, flags_metadata(PRONOUN | DETERMINER)),
        ("there"@, flags_metadata(ADVERB | PRONOUN | COMMON)),
        ("they're"@, flags_metadata(PRONOUN | VERB)),
        ("it's"@, flags_metadata(PRONOUN | VERB)),
        ("i'm"@, flags_metadata(PRONOUN | VERB)),
        ("you're"@, flags_metadata(PRONOUN | VERB)),
        ("we're"@, flags_metadata(PRONOUN | VERB)),
        ("he's"@, flags_metadata(PRONOUN | VERB)),
        ("she's"@, flags_metadata(PRONOUN | VERB)),
        ("and"@, flags_metadata(CONJUNCTION | COMMON)),
        ("or"@, flags_metadata(CONJUNCTION | COMMON)),
        ("but"@, flags_metadata(CONJUNCTION | COMMON)),
        ("nor"@, flags_metadata(CONJUNCTION)),
        ("so"@, flags_metadata(CONJUNCTION | ADVERB)),
        ("yet"@, flags_metadata(CONJUNCTION | ADVERB)),
        ("because"@, flags_metadata(CONJUNCTION)),
        ("since"@, flags_metadata(CONJUNCTION | PREPOSITION)),
        ("although"@, flags_metadata(CONJUNCTION)),
        ("though"@, flags_metadata(CONJUNCTION)),
        ("while"@, flags_metadata(CONJUNCTION | NOUN)),
        ("if"@, flags_metadata(CONJUNCTION)),
        ("unless"@, flags_metadata(CONJUNCTION)),
        ("than"@, flags_metadata(CONJUNCTION | PREPOSITION)),
        ("as"@, flags_metadata(CONJUNCTION | PREPOSITION | ADVERB)),
        ("of"@, flags_metadata(PREPOSITION | COMMON)),
        ("in"@, flags_metadata(PREPOSITION | COMMON)),
        ("on"@, flags_metadata(PREPOSITION | COMMON)),
        ("at"@, flags_metadata(PREPOSITION | COMMON)),
        ("by"@, flags_metadata(PREPOSITION | COMMON)),
        ("for"@, flags_metadata(PREPOSITION | CONJUNCTION | COMMON)),
        ("with"@, flags_metadata(PREPOSITION | COMMON)),
        ("about"@, flags_metadata(PREPOSITION | ADVERB)),
        ("against"@, flags_metadata(PREPOSITION)),
        ("between"@, flags_metadata(PREPOSITION)),
        ("into"@, flags_metadata(PREPOSITION)),
        ("through"@, flags_metadata(PREPOSITION)),
        ("during"@, flags_metadata(PREPOSITION)),
        ("before"@, flags_metadata(PREPOSITION | CONJUNCTION | ADVERB)),
        ("after"@, flags_metadata(PREPOSITION | CONJUNCTION | ADVERB)),
    ]
}

fn add_curated_1(d: &mut FullDictionary)
    ensures
        final(d)@ == old(d)@ + curated_part_1(),
{
    d.add("whom", PRONOUN);
    d.add("whose", PRONOUN | DETERMINER);
    d.add("there", ADVERB | PRONOUN | COMMON);
    d.add("they're", PRONOUN | VERB);
    d.add("it's", PRONOUN | VERB);
    d.add("i'm", PRONOUN | VERB);
    d.add("you're", PRONOUN | VERB);
    d.add("we're", PRONOUN | VERB);
    d.add("he's", PRONOUN | VERB);
    d.add("she's", PRONOUN | VERB);
    d.add("and", CONJUNCTION | COMMON);
    d.add("or", CONJUNCTION | COMMON);
    d.add("but", CONJUNCTION | COMMON);
    d.add("nor", CONJUNCTION);
    d.add("so", CONJUNCTION | ADVERB);
    d.add("yet", CONJUNCTION | ADVERB);
    d.add("because", CONJUNCTION);
    d.add("since", CONJUNCTION | PREPOSITION);
    d.add("although", CONJUNCTION);
    d.add("though", CONJUNCTION);
    d.add("while", CONJUNCTION | NOUN);
    d.add("if", CONJUNCTION);
    d.add("unless", CONJUNCTION);
    d.add("than", CONJUNCTION | PREPOSITION);
    d.add("as", CONJUNCTION | PREPOSITION | ADVERB);
    d.add("of", PREPOSITION | COMMON);
    d.add("in", PREPOSITION | COMMON);
    d.add("on", PREPOSITION | COMMON);
    d.add("at", PREPOSITION | COMMON);
    d.add("by", PREPOSITION | COMMON);
    d.add("for", PREPOSITION | CONJUNCTION | COMMON);
    d.add("with", PREPOSITION | COMMON);
    d.add("about", PREPOSITION | ADVERB);
    d.add("against", PREPOSITION);
    d.add("between", PREPOSITION);
    d.add("into", PREPOSITION);
    d.add("through", PREPOSITION);
    d.add("during", PREPOSITION);
    d.add("before", PREPOSITION | CONJUNCTION | ADVERB);
    d.add("after", PREPOSITION | CONJUNCTION | ADVERB);
    assert(d@ =~= old(d)@ + curated_part_1());
}

pub open spec fn curated_part_2() -> Entries {
    seq![
        ("above"@, flags_metadata(PREPOSITION | ADVERB)),
        ("below"@, flags_metadata(PREPOSITION | ADVERB)),
        ("to"@, flags_metadata(PREPOSITION | COMMON)),
        ("from"@, flags_metadata(PREPOSITION | COMMON)),
        ("up"@, flags_metadata(PREPOSITION | ADVERB)),
        ("down"@, flags_metadata(PREPOSITION | ADVERB)),
        ("out"@, flags_metadata(PREPOSITION | ADVERB)),
        ("off"@, flags_metadata(PREPOSITION | ADVERB)),
        ("over"@, flags_metadata(PREPOSITION | ADVERB)),
        ("under"@, flags_metadata(PREPOSITION)),
        ("again"@, flags_metadata(ADVERB)),
        ("further"@, flags_metadata(ADVERB | ADJECTIVE)),
        ("then"@, flags_metadata(ADVERB)),
        ("once"@, flags_metadata(ADVERB | CONJUNCTION)),
        ("near"@, flags_metadata(PREPOSITION | ADJECTIVE | ADVERB)),
        ("without"@, flags_metadata(PREPOSITION)),
        ("within"@, flags_metadata(PREPOSITION)),
        ("around"@, flags_metadata(PREPOSITION | ADVERB)),
        ("behind"@, flags_metadata(PREPOSITION | ADVERB)),
        ("across"@, flags_metadata(PREPOSITION)),
        ("toward"@, flags_metadata(PREPOSITION)),
        ("upon"@, flags_metadata(PREPOSITION)),
        ("is"@, flags_metadata(VERB | LINKING_VERB | COMMON)),
        ("are"@, flags_metadata(VERB | LINKING_VERB | COMMON)),
        ("was"@, flags_metadata(VERB | LINKING_VERB | COMMON)),
        ("were"@, flags_metadata(VERB | LINKING_VERB | COMMON)),
        ("be"@, flags_metadata(VERB | LINKING_VERB | COMMON)),
        ("been"@, flags_metadata(VERB | LINKING_VERB)),
        ("being"@, flags_metadata(VERB | LINKING_VERB | NOUN)),
        ("am"@, flags_metadata(VERB | LINKING_VERB)),
        ("seem"@, flags_metadata(VERB | LINKING_VERB)),
        ("seems"@, flags_metadata(VERB | LINKING_VERB)),
        ("become"@, flags_metadata(VERB | LINKING_VERB)),
        ("became"@, flags_metadata(VERB | LINKING_VERB)),
        ("feel"@, flags_metadata(VERB | LINKING_VERB)),
        ("felt"@, flags_metadata(VERB | LINKING_VERB)),
        ("look"@, flags_metadata(VERB | LINKING_VERB | NOUN)),
        ("looks"@, flags_metadata(VERB | LINKING_VERB)),
        ("looked"@, flags_metadata(VERB | LINKING_VERB)),
        ("sound"@, flags_metadata(VERB | LINKING_VERB | NOUN)),
    ]
}

fn add_curated_2(d: &mut FullDictionary)
    ensures
        final(d)@ == old(d)@ + curated_part_2(),
{
    d.add("above", PREPOSITION | ADVERB);
    d.add("below", PREPOSITION | ADVERB);
    d.add("to", PREPOSITION | COMMON);
    d.add("from", PREPOSITION | COMMON);
    d.add("up", PREPOSITION | ADVERB);
    d.add("down", PREPOSITION | ADVERB);
    d.add("out", PREPOSITION | ADVERB);
    d.add("off", PREPOSITION | ADVERB);
    d.add("over", PREPOSITION | ADVERB);
    d.add("under", PREPOSITION);
    d.add("again", ADVERB);
    d.add("further", ADVERB | ADJECTIVE);
    d.add("then", ADVERB);
    d.add("once", ADVERB | CONJUNCTION);
    d.add("near", PREPOSITION | ADJECTIVE | ADVERB);
    d.add("without", PREPOSITION);
    d.add("within", PREPOSITION);
    d.add("around", PREPOSITION | ADVERB);
    d.add("behind", PREPOSITION | ADVERB);
    d.add("across", PREPOSITION);
    d.add("toward", PREPOSITION);
    d.add("upon", PREPOSITION);
    d.add("is", VERB | LINKING_VERB | COMMON);
    d.add("are", VERB | LINKING_VERB | COMMON);
    d.add("was", VERB | LINKING_VERB | COMMON);
    d.add("were", VERB | LINKING_VERB | COMMON);
    d.add("be", VERB | LINKING_VERB | COMMON);
    d.add("been", VERB | LINKING_VERB);
    d.add("being", VERB | LINKING_VERB | NOUN);
    d.add("am", VERB | LINKING_VERB);
    d.add("seem", VERB | LINKING_VERB);
    d.add("seems", VERB | LINKING_VERB);
    d.add("become", VERB | LINKING_VERB);
    d.add("became", VERB | LINKING_VERB);
    d.add("feel", VERB | LINKING_VERB);
    d.add("felt", VERB | LINKING_VERB);
    d.add("look", VERB | LINKING_VERB | NOUN);
    d.add("looks", VERB | LINKING_VERB);
    d.add("looked", VERB | LINKING_VERB);
    d.add("sound", VERB | LINKING_VERB | NOUN);
    assert(d@ =~= old(d)@ + curated_part_2());
}

pub open spec fn curated_part_3() -> Entries {
    seq![
        ("get"@, flags_metadata(VERB)),
        ("got"@, flags_metadata(VERB)),
        ("have"@, flags_metadata(VERB | COMMON)),
        ("has"@, flags_metadata(VERB | COMMON)),
        ("had"@, flags_metadata(VERB | COMMON)),
        ("do"@, flags_metadata(VERB | COMMON)),
        ("does"@, flags_metadata(VERB | COMMON)),
        ("did"@, flags_metadata(VERB | COMMON)),
        ("will"@, flags_metadata(VERB | NOUN)),
        ("would"@, flags_metadata(VERB)),
        ("shall"@, flags_metadata(VERB)),
        ("should"@, flags_metadata(VERB)),
        ("can"@, flags_metadata(VERB | NOUN)),
        ("could"@, flags_metadata(VERB)),
        ("may"@, flags_metadata(VERB)),
        ("might"@, flags_metadata(VERB | NOUN)),
        ("must"@, flags_metadata(VERB)),
        ("say"@, flags_metadata(VERB)),
        ("said"@, flags_metadata(VERB)),
        ("make"@, flags_metadata(VERB)),
        ("made"@, flags_metadata(VERB)),
        ("go"@, flags_metadata(VERB)),
        ("went"@, flags_metadata(VERB)),
        ("gone"@, flags_metadata(VERB)),
        ("know"@, flags_metadata(VERB)),
        ("knew"@, flags_metadata(VERB)),
        ("known"@, flags_metadata(VERB | ADJECTIVE)),
        ("take"@, flags_metadata(VERB)),
        ("took"@, flags_metadata(VERB)),
        ("see"@, flags_metadata(VERB)),
        ("saw"@, flags_metadata(VERB | NOUN)),
        ("seen"@, flags_metadata(VERB)),
        ("come"@, flags_metadata(VERB)),
        ("came"@, flags_metadata(VERB)),
        ("think"@, flags_metadata(VERB)),
        ("thought"@, flags_metadata(VERB | NOUN)),
        ("want"@, flags_metadata(VERB)),
        ("wanted"@, flags_metadata(VERB)),
        ("give"@, flags_metadata(VERB)),
        ("gave"@, flags_metadata(VERB)),
    ]
}

fn add_curated_3(d: &mut FullDictionary)
    ensures
        final(d)@ == old(d)@ + curated_part_3(),
{
    d.add("get", VERB);
    d.add("got", VERB);
    d.add("have", VERB | COMMON);
    d.add("has", VERB | COMMON);
    d.add("had", VERB | COMMON);
    d.add("do", VERB | COMMON);
    d.add("does", VERB | COMMON);
    d.add("did", VERB | COMMON);
    d.add("will", VERB | NOUN);
    d.add("would", VERB);
    d.add("shall", VERB);
    d.add("should", VERB);
    d.add("can", VERB | NOUN);
    d.add("could", VERB);
    d.add("may", VERB);
    d.add("might", VERB | NOUN);
    d.add("must", VERB);
    d.add("say", VERB);
    d.add("said", VERB);
    d.add("make", VERB);
    d.add("made", VERB);
    d.add("go", VERB);
    d.add("went", VERB);
    d.add("gone", VERB);
    d.add("know", VERB);
    d.add("knew", VERB);
    d.add("known", VERB | ADJECTIVE);
    d.add("take", VERB);
    d.add("took", VERB);
    d.add("see", VERB);
    d.add("saw", VERB | NOUN);
    d.add("seen", VERB);
    d.add("come", VERB);
    d.add("came", VERB);
    d.add("think", VERB);
    d.add("thought", VERB | NOUN);
    d.add("want", VERB);
    d.add("wanted", VERB);
    d.add("give", VERB);
    d.add("gave", VERB);
    assert(d@ =~= old(d)@ + curated_part_3());
}

pub open spec fn curated_part_4() -> Entries {
    seq![
        ("use"@, flags_metadata(VERB | NOUN)),
        ("used"@, flags_metadata(VERB | ADJECTIVE)),
        ("find"@, flags_metadata(VERB)),
        ("found"@, flags_metadata(VERB)),
        ("tell"@, flags_metadata(VERB)),
        ("told"@, flags_metadata(VERB)),
        ("ask"@, flags_metadata(VERB)),
        ("asked"@, flags_metadata(VERB)),
        ("work"@, flags_metadata(VERB | NOUN)),
        ("worked"@, flags_metadata(VERB)),
        ("call"@, flags_metadata(VERB | NOUN)),
        ("called"@, flags_metadata(VERB)),
        ("try"@, flags_metadata(VERB | NOUN)),
        ("tried"@, flags_metadata(VERB)),
        ("need"@, flags_metadata(VERB | NOUN)),
        ("leave"@, flags_metadata(VERB)),
        ("put"@, flags_metadata(VERB)),
        ("mean"@, flags_metadata(VERB | ADJECTIVE)),
        ("keep"@, flags_metadata(VERB)),
        ("let"@, flags_metadata(VERB)),
        ("begin"@, flags_metadata(VERB)),
        ("help"@, flags_metadata(VERB | NOUN)),
        ("show"@, flags_metadata(VERB | NOUN)),
        ("hear"@, flags_metadata(VERB)),
        ("play"@, flags_metadata(VERB | NOUN)),
        ("run"@, flags_metadata(VERB | NOUN)),
        ("running"@, flags_metadata(VERB | NOUN)),
        ("move"@, flags_metadata(VERB | NOUN)),
        ("live"@, flags_metadata(VERB | ADJECTIVE)),
        ("believe"@, flags_metadata(VERB)),
        ("bring"@, flags_metadata(VERB)),
        ("happen"@, flags_metadata(VERB)),
        ("write"@, flags_metadata(VERB)),
        ("wrote"@, flags_metadata(VERB)),
        ("written"@, flags_metadata(VERB | ADJECTIVE)),
        ("sit"@, flags_metadata(VERB)),
        ("sitting"@, flags_metadata(VERB)),
        ("stand"@, flags_metadata(VERB)),
        ("lose"@, flags_metadata(VERB)),
        ("pay"@, flags_metadata(VERB)),
    ]
}

fn add_curated_4(d: &mut FullDictionary)
    ensures
        final(d)@ == old(d)@ + curated_part_4(),
{
    d.add("use", VERB | NOUN);
    d.add("used", VERB | ADJECTIVE);
    d.add("find", VERB);
    d.add("found", VERB);
    d.add("tell", VERB);
    d.add("told", VERB);
    d.add("ask", VERB);
    d.add("asked", VERB);
    d.add("work", VERB | NOUN);
    d.add("worked", VERB);
    d.add("call", VERB | NOUN);
    d.add("called", VERB);
    d.add("try", VERB | NOUN);
    d.add("tried", VERB);
    d.add("need", VERB | NOUN);
    d.add("leave", VERB);
    d.add("put", VERB);
    d.add("mean", VERB | ADJECTIVE);
    d.add("keep", VERB);
    d.add("let", VERB);
    d.add("begin", VERB);
    d.add("help", VERB | NOUN);
    d.add("show", VERB | NOUN);
    d.add("hear", VERB);
    d.add("play", VERB | NOUN);
    d.add("run", VERB | NOUN);
    d.add("running", VERB | NOUN);
    d.add("move", VERB | NOUN);
    d.add("live", VERB | ADJECTIVE);
    d.add("believe", VERB);
    d.add("bring", VERB);
    d.add("happen", VERB);
    d.add("write", VERB);
    d.add("wrote", VERB);
    d.add("written", VERB | ADJECTIVE);
    d.add("sit", VERB);
    d.add("sitting", VERB);
    d.add("stand", VERB);
    d.add("lose", VERB);
    d.add("pay", VERB);
    assert(d@ =~= old(d)@ + curated_part_4());
}

pub open spec fn curated_part_5() -> Entries {
    seq![
        ("meet"@, flags_metadata(VERB)),
        ("include"@, flags_metadata(VERB)),
        ("continue"@, flags_metadata(VERB)),
        ("set"@, flags_metadata(VERB | NOUN)),
        ("learn"@, flags_metadata(VERB)),
        ("change"@, flags_metadata(VERB | NOUN)),
        ("lead"@, flags_metadata(VERB | NOUN)),
        ("understand"@, flags_metadata(VERB)),
        ("watch"@, flags_metadata(VERB | NOUN)),
        ("follow"@, flags_metadata(VERB)),
        ("stop"@, flags_metadata(VERB | NOUN)),
        ("create"@, flags_metadata(VERB)),
        ("speak"@, flags_metadata(VERB)),
        ("read"@, flags_metadata(VERB)),
        ("spend"@, flags_metadata(VERB)),
        ("grow"@, flags_metadata(VERB)),
        ("open"@, flags_metadata(VERB | ADJECTIVE)),
        ("walk"@, flags_metadata(VERB | NOUN)),
        ("win"@, flags_metadata(VERB)),
        ("offer"@, flags_metadata(VERB | NOUN)),
        ("remember"@, flags_metadata(VERB)),
        ("love"@, flags_metadata(VERB | NOUN)),
        ("consider"@, flags_metadata(VERB)),
        ("appear"@, flags_metadata(VERB)),
        ("buy"@, flags_metadata(VERB)),
        ("wait"@, flags_metadata(VERB)),
        ("serve"@, flags_metadata(VERB)),
        ("die"@, flags_metadata(VERB)),
        ("send"@, flags_metadata(VERB)),
        ("expect"@, flags_metadata(VERB)),
        ("build"@, flags_metadata(VERB)),
        ("stay"@, flags_metadata(VERB)),
        ("fall"@, flags_metadata(VERB | NOUN)),
        ("cut"@, flags_metadata(VERB | NOUN)),
        ("reach"@, flags_metadata(VERB)),
        ("kill"@, flags_metadata(VERB)),
        ("remain"@, flags_metadata(VERB)),
        ("suggest"@, flags_metadata(VERB)),
        ("raise"@, flags_metadata(VERB)),
        ("pass"@, flags_metadata(VERB)),
    ]
}

fn add_curated_5(d: &mut FullDictionary)
    ensures
        final(d)@ == old(d)@ + curated_part_5(),
{
    d.add("meet", VERB);
    d.add("include", VERB);
    d.add("continue", VERB);
    d.add("set", VERB | NOUN);
    d.add("learn", VERB);
    d.add("change", VERB | NOUN);
    d.add("lead", VERB | NOUN);
    d.add("understand", VERB);
    d.add("watch", VERB | NOUN);
    d.add("follow", VERB);
    d.add("stop", VERB | NOUN);
    d.add("create", VERB);
    d.add("speak", VERB);
    d.add("read", VERB);
    d.add("spend", VERB);
    d.add("grow", VERB);
    d.add("open", VERB | ADJECTIVE);
    d.add("walk", VERB | NOUN);
    d.add("win", VERB);
    d.add("offer", VERB | NOUN);
    d.add("remember", VERB);
    d.add("love", VERB | NOUN);
    d.add("consider", VERB);
    d.add("appear", VERB);
    d.add("buy", VERB);
    d.add("wait", VERB);
    d.add("serve", VERB);
    d.add("die", VERB);
    d.add("send", VERB);
    d.add("expect", VERB);
    d.add("build", VERB);
    d.add("stay", VERB);
    d.add("fall", VERB | NOUN);
    d.add("cut", VERB | NOUN);
    d.add("reach", VERB);
    d.add("kill", VERB);
    d.add("remain", VERB);
    d.add("suggest", VERB);
    d.add("raise", VERB);
    d.add("pass", VERB);
    assert(d@ =~= old(d)@ + curated_part_5());
}

pub open spec fn curated_part_6() -> Entries {
    seq![
        ("sell"@, flags_metadata(VERB)),
        ("require"@, flags_metadata(VERB)),
        ("report"@, flags_metadata(VERB | NOUN)),
        ("decide"@, flags_metadata(VERB)),
        ("pull"@, flags_metadata(VERB)),
        ("received"@, flags_metadata(VERB)),
        ("receive"@, flags_metadata(VERB)),
        ("check"@, flags_metadata(VERB | NOUN)),
        ("fix"@, flags_metadata(VERB | NOUN)),
        ("spell"@, flags_metadata(VERB)),
        ("lint"@, flags_metadata(VERB | NOUN)),
        ("time"@, flags_metadata(NOUN)),
        ("year"@, flags_metadata(NOUN)),
        ("people"@, flags_metadata(NOUN)),
        ("way"@, flags_metadata(NOUN)),
        ("day"@, flags_metadata(NOUN)),
        ("man"@, flags_metadata(NOUN)),
        ("woman"@, flags_metadata(NOUN)),
        ("child"@, flags_metadata(NOUN)),
        ("children"@, flags_metadata(NOUN)),
        ("world"@, flags_metadata(NOUN)),
        ("life"@, flags_metadata(NOUN)),
        ("hand"@, flags_metadata(NOUN)),
        ("part"@, flags_metadata(NOUN)),
        ("place"@, flags_metadata(NOUN)),
        ("case"@, flags_metadata(NOUN)),
        ("week"@, flags_metadata(NOUN)),
        ("company"@, flags_metadata(NOUN)),
        ("system"@, flags_metadata(NOUN)),
        ("program"@, flags_metadata(NOUN)),
        ("question"@, flags_metadata(NOUN)),
        ("government"@, flags_metadata(NOUN)),
        ("number"@, flags_metadata(NOUN)),
        ("night"@, flags_metadata(NOUN)),
        ("point"@, flags_metadata(NOUN)),
        ("home"@, flags_metadata(NOUN | ADVERB)),
        ("water"@, flags_metadata(NOUN)),
        ("room"@, flags_metadata(NOUN)),
        ("mother"@, flags_metadata(NOUN)),
        ("area"@, flags_metadata(NOUN)),
    ]
}

fn add_curated_6(d: &mut FullDictionary)
    ensures
        final(d)@ == old(d)@ + curated_part_6(),
{
    d.add("sell", VERB);
    d.add("require", VERB);
    d.add("report", VERB | NOUN);
    d.add("decide", VERB);
    d.add("pull", VERB);
    d.add("received", VERB);
    d.add("receive", VERB);
    d.add("check", VERB | NOUN);
    d.add("fix", VERB | NOUN);
    d.add("spell", VERB);
    d.add("lint", VERB | NOUN);
    d.add("time", NOUN);
    d.add("year", NOUN);
    d.add("people", NOUN);
    d.add("way", NOUN);
    d.add("day", NOUN);
    d.add("man", NOUN);
    d.add("woman", NOUN);
    d.add("child", NOUN);
    d.add("children", NOUN);
    d.add("world", NOUN);
    d.add("life", NOUN);
    d.add("hand", NOUN);
    d.add("part", NOUN);
    d.add("place", NOUN);
    d.add("case", NOUN);
    d.add("week", NOUN);
    d.add("company", NOUN);
    d.add("system", NOUN);
    d.add("program", NOUN);
    d.add("question", NOUN);
    d.add("government", NOUN);
    d.add("number", NOUN);
    d.add("night", NOUN);
    d.add("point", NOUN);
    d.add("home", NOUN | ADVERB);
    d.add("water", NOUN);
    d.add("room", NOUN);
    d.add("mother", NOUN);
    d.add("area", NOUN);
    assert(d@ =~= old(d)@ + curated_part_6());
}

pub open spec fn curated_part_7() -> Entries {
    seq![
        ("money"@, flags_metadata(NOUN)),
        ("story"@, flags_metadata(NOUN)),
        ("fact"@, flags_metadata(NOUN)),
        ("month"@, flags_metadata(NOUN)),
        ("lot"@, flags_metadata(NOUN)),
        ("right"@, flags_metadata(NOUN | ADJECTIVE)),
        ("study"@, flags_metadata(NOUN | VERB)),
        ("book"@, flags_metadata(NOUN | VERB)),
        ("eye"@, flags_metadata(NOUN)),
        ("job"@, flags_metadata(NOUN)),
        ("word"@, flags_metadata(NOUN)),
        ("words"@, flags_metadata(NOUN)),
        ("business"@, flags_metadata(NOUN)),
        ("issue"@, flags_metadata(NOUN)),
        ("side"@, flags_metadata(NOUN)),
        ("kind"@, flags_metadata(NOUN)),
        ("kinds"@, flags_metadata(NOUN)),
        ("head"@, flags_metadata(NOUN)),
        ("house"@, flags_metadata(NOUN)),
        ("service"@, flags_metadata(NOUN)),
        ("friend"@, flags_metadata(NOUN)),
        ("friends"@, flags_metadata(NOUN)),
        ("father"@, flags_metadata(NOUN)),
        ("power"@, flags_metadata(NOUN)),
        ("hour"@, flags_metadata(NOUN)),
        ("game"@, flags_metadata(NOUN)),
        ("line"@, flags_metadata(NOUN)),
        ("end"@, flags_metadata(NOUN | VERB)),
        ("member"@, flags_metadata(NOUN)),
        ("law"@, flags_metadata(NOUN)),
        ("car"@, flags_metadata(NOUN)),
        ("city"@, flags_metadata(NOUN)),
        ("name"@, flags_metadata(NOUN | VERB)),
        ("team"@, flags_metadata(NOUN)),
        ("minute"@, flags_metadata(NOUN)),
        ("idea"@, flags_metadata(NOUN)),
        ("kid"@, flags_metadata(NOUN)),
        ("body"@, flags_metadata(NOUN)),
        ("information"@, flags_metadata(NOUN)),
        ("back"@, flags_metadata(NOUN | ADVERB)),
    ]
}

fn add_curated_7(d: &mut FullDictionary)
    ensures
        final(d)@ == old(d)@ + curated_part_7(),
{
    d.add("money", NOUN);
    d.add("story", NOUN);
    d.add("fact", NOUN);
    d.add("month", NOUN);
    d.add("lot", NOUN);
    d.add("right", NOUN | ADJECTIVE);
    d.add("study", NOUN | VERB);
    d.add("book", NOUN | VERB);
    d.add("eye", NOUN);
    d.add("job", NOUN);
    d.add("word", NOUN);
    d.add("words", NOUN);
    d.add("business", NOUN);
    d.add("issue", NOUN);
    d.add("side", NOUN);
    d.add("kind", NOUN);
    d.add("kinds", NOUN);
    d.add("head", NOUN);
    d.add("house", NOUN);
    d.add("service", NOUN);
    d.add("friend", NOUN);
    d.add("friends", NOUN);
    d.add("father", NOUN);
    d.add("power", NOUN);
    d.add("hour", NOUN);
    d.add("game", NOUN);
    d.add("line", NOUN);
    d.add("end", NOUN | VERB);
    d.add("member", NOUN);
    d.add("law", NOUN);
    d.add("car", NOUN);
    d.add("city", NOUN);
    d.add("name", NOUN | VERB);
    d.add("team", NOUN);
    d.add("minute", NOUN);
    d.add("idea", NOUN);
    d.add("kid", NOUN);
    d.add("body", NOUN);
    d.add("information", NOUN);
    d.add("back", NOUN | ADVERB);
    assert(d@ =~= old(d)@ + curated_part_7());
}

pub open spec fn curated_part_8() -> Entries {
    seq![
        ("parent"@, flags_metadata(NOUN)),
        ("face"@, flags_metadata(NOUN)),
        ("others"@, flags_metadata(NOUN)),
        ("level"@, flags_metadata(NOUN)),
        ("office"@, flags_metadata(NOUN)),
        ("door"@, flags_metadata(NOUN)),
        ("health"@, flags_metadata(NOUN)),
        ("person"@, flags_metadata(NOUN)),
        ("art"@, flags_metadata(NOUN)),
        ("war"@, flags_metadata(NOUN)),
        ("history"@, flags_metadata(NOUN)),
        ("party"@, flags_metadata(NOUN)),
        ("result"@, flags_metadata(NOUN | VERB)),
        ("results"@, flags_metadata(NOUN | VERB)),
        ("morning"@, flags_metadata(NOUN)),
        ("reason"@, flags_metadata(NOUN)),
        ("research"@, flags_metadata(NOUN)),
        ("girl"@, flags_metadata(NOUN)),
        ("guy"@, flags_metadata(NOUN)),
        ("moment"@, flags_metadata(NOUN)),
        ("air"@, flags_metadata(NOUN)),
        ("teacher"@, flags_metadata(NOUN)),
        ("force"@, flags_metadata(NOUN)),
        ("education"@, flags_metadata(NOUN)),
        ("cat"@, flags_metadata(NOUN)),
        ("cats"@, flags_metadata(NOUN)),
        ("dog"@, flags_metadata(NOUN)),
        ("dogs"@, flags_metadata(NOUN)),
        ("pig"@, flags_metadata(NOUN)),
        ("pigs"@, flags_metadata(NOUN)),
        ("apple"@, flags_metadata(NOUN)),
        ("apples"@, flags_metadata(NOUN)),
        ("fruit"@, flags_metadata(NOUN)),
        ("store"@, flags_metadata(NOUN | VERB)),
        ("chair"@, flags_metadata(NOUN)),
        ("table"@, flags_metadata(NOUN)),
        ("problem"@, flags_metadata(NOUN)),
        ("problems"@, flags_metadata(NOUN)),
        ("test"@, flags_metadata(NOUN | VERB)),
        ("tests"@, flags_metadata(NOUN | VERB)),
    ]
}

fn add_curated_8(d: &mut FullDictionary)
    ensures
        final(d)@ == old(d)@ + curated_part_8(),
{
    d.add("parent", NOUN);
    d.add("face", NOUN);
    d.add("others", NOUN);
    d.add("level", NOUN);
    d.add("office", NOUN);
    d.add("door", NOUN);
    d.add("health", NOUN);
    d.add("person", NOUN);
    d.add("art", NOUN);
    d.add("war", NOUN);
    d.add("history", NOUN);
    d.add("party", NOUN);
    d.add("result", NOUN | VERB);
    d.add("results", NOUN | VERB);
    d.add("morning", NOUN);
    d.add("reason", NOUN);
    d.add("research", NOUN);
    d.add("girl", NOUN);
    d.add("guy", NOUN);
    d.add("moment", NOUN);
    d.add("air", NOUN);
    d.add("teacher", NOUN);
    d.add("force", NOUN);
    d.add("education", NOUN);
    d.add("cat", NOUN);
    d.add("cats", NOUN);
    d.add("dog", NOUN);
    d.add("dogs", NOUN);
    d.add("pig", NOUN);
    d.add("pigs", NOUN);
    d.add("apple", NOUN);
    d.add("apples", NOUN);
    d.add("fruit", NOUN);
    d.add("store", NOUN | VERB);
    d.add("chair", NOUN);
    d.add("table", NOUN);
    d.add("problem", NOUN);
    d.add("problems", NOUN);
    d.add("test", NOUN | VERB);
    d.add("tests", NOUN | VERB);
    assert(d@ =~= old(d)@ + curated_part_8());
}

pub open spec fn curated_part_9() -> Entries {
    seq![
        ("student"@, flags_metadata(NOUN)),
        ("students"@, flags_metadata(NOUN)),
        ("school"@, flags_metadata(NOUN)),
        ("text"@, flags_metadata(NOUN)),
        ("sentence"@, flags_metadata(NOUN)),
        ("document"@, flags_metadata(NOUN)),
        ("error"@, flags_metadata(NOUN)),
        ("errors"@, flags_metadata(NOUN)),
        ("grammar"@, flags_metadata(NOUN)),
        ("language"@, flags_metadata(NOUN)),
        ("english"@, flags_metadata(NOUN | ADJECTIVE)),
        ("identifier"@, flags_metadata(NOUN)),
        ("token"@, flags_metadata(NOUN)),
        ("code"@, flags_metadata(NOUN)),
        ("file"@, flags_metadata(NOUN)),
        ("today"@, flags_metadata(NOUN | ADVERB)),
        ("tomorrow"@, flags_metadata(NOUN | ADVERB)),
        ("yesterday"@, flags_metadata(NOUN | ADVERB)),
        ("thing"@, flags_metadata(NOUN)),
        ("things"@, flags_metadata(NOUN)),
        ("tree"@, flags_metadata(NOUN)),
        ("trees"@, flags_metadata(NOUN)),
        ("food"@, flags_metadata(NOUN)),
        ("music"@, flags_metadata(NOUN)),
        ("country"@, flags_metadata(NOUN)),
        ("state"@, flags_metadata(NOUN)),
        ("street"@, flags_metadata(NOUN)),
        ("family"@, flags_metadata(NOUN)),
        ("group"@, flags_metadata(NOUN)),
        ("example"@, flags_metadata(NOUN)),
        ("rule"@, flags_metadata(NOUN)),
        ("rules"@, flags_metadata(NOUN)),
        ("sentences"@, flags_metadata(NOUN)),
        ("good"@, flags_metadata(ADJECTIVE)),
        ("new"@, flags_metadata(ADJECTIVE)),
        ("first"@, flags_metadata(ADJECTIVE | ADVERB)),
        ("last"@, flags_metadata(ADJECTIVE | ADVERB)),
        ("long"@, flags_metadata(ADJECTIVE | ADVERB)),
        ("great"@, flags_metadata(ADJECTIVE)),
        ("little"@, flags_metadata(ADJECTIVE)),
    ]
}

fn add_curated_9(d: &mut FullDictionary)
    ensures
        final(d)@ == old(d)@ + curated_part_9(),
{
    d.add("student", NOUN);
    d.add("students", NOUN);
    d.add("school", NOUN);
    d.add("text", NOUN);
    d.add("sentence", NOUN);
    d.add("document", NOUN);
    d.add("error", NOUN);
    d.add("errors", NOUN);
    d.add("grammar", NOUN);
    d.add("language", NOUN);
    d.add("english", NOUN | ADJECTIVE);
    d.add("identifier", NOUN);
    d.add("token", NOUN);
    d.add("code", NOUN);
    d.add("file", NOUN);
    d.add("today", NOUN | ADVERB);
    d.add("tomorrow", NOUN | ADVERB);
    d.add("yesterday", NOUN | ADVERB);
    d.add("thing", NOUN);
    d.add("things", NOUN);
    d.add("tree", NOUN);
    d.add("trees", NOUN);
    d.add("food", NOUN);
    d.add("music", NOUN);
    d.add("country", NOUN);
    d.add("state", NOUN);
    d.add("street", NOUN);
    d.add("family", NOUN);
    d.add("group", NOUN);
    d.add("example", NOUN);
    d.add("rule", NOUN);
    d.add("rules", NOUN);
    d.add("sentences", NOUN);
    d.add("good", ADJECTIVE);
    d.add("new", ADJECTIVE);
    d.add("first", ADJECTIVE | ADVERB);
    d.add("last", ADJECTIVE | ADVERB);
    d.add("long", ADJECTIVE | ADVERB);
    d.add("great", ADJECTIVE);
    d.add("little", ADJECTIVE);
    assert(d@ =~= old(d)@ + curated_part_9());
}

pub open spec fn curated_part_10() -> Entries {
    seq![
        ("own"@, flags_metadata(ADJECTIVE)),
        ("other"@, flags_metadata(ADJECTIVE)),
        ("old"@, flags_metadata(ADJECTIVE)),
        ("big"@, flags_metadata(ADJECTIVE)),
        ("high"@, flags_metadata(ADJECTIVE)),
        ("different"@, flags_metadata(ADJECTIVE)),
        ("small"@, flags_metadata(ADJECTIVE)),
        ("large"@, flags_metadata(ADJECTIVE)),
        ("next"@, flags_metadata(ADJECTIVE)),
        ("early"@, flags_metadata(ADJECTIVE | ADVERB)),
        ("young"@, flags_metadata(ADJECTIVE)),
        ("important"@, flags_metadata(ADJECTIVE)),
        ("few"@, flags_metadata(ADJECTIVE)),
        ("public"@, flags_metadata(ADJECTIVE)),
        ("bad"@, flags_metadata(ADJECTIVE)),
        ("same"@, flags_metadata(ADJECTIVE)),
        ("able"@, flags_metadata(ADJECTIVE)),
        ("cute"@, flags_metadata(ADJECTIVE)),
        ("red"@, flags_metadata(ADJECTIVE)),
        ("blue"@, flags_metadata(ADJECTIVE)),
        ("green"@, flags_metadata(ADJECTIVE)),
        ("happy"@, flags_metadata(ADJECTIVE)),
        ("sad"@, flags_metadata(ADJECTIVE)),
        ("fast"@, flags_metadata(ADJECTIVE | ADVERB)),
        ("faster"@, flags_metadata(ADJECTIVE | ADVERB)),
        ("quick"@, flags_metadata(ADJECTIVE)),
        ("slow"@, flags_metadata(ADJECTIVE)),
        ("hot"@, flags_metadata(ADJECTIVE)),
        ("cold"@, flags_metadata(ADJECTIVE)),
        ("nice"@, flags_metadata(ADJECTIVE)),
        ("real"@, flags_metadata(ADJECTIVE)),
        ("true"@, flags_metadata(ADJECTIVE)),
        ("full"@, flags_metadata(ADJECTIVE)),
        ("free"@, flags_metadata(ADJECTIVE)),
        ("best"@, flags_metadata(ADJECTIVE | ADVERB)),
        ("better"@, flags_metadata(ADJECTIVE | ADVERB)),
        ("sure"@, flags_metadata(ADJECTIVE)),
        ("clear"@, flags_metadata(ADJECTIVE)),
        ("easy"@, flags_metadata(ADJECTIVE)),
        ("hard"@, flags_metadata(ADJECTIVE | ADVERB)),
    ]
}

fn add_curated_10(d: &mut FullDictionary)
    ensures
        final(d)@ == old(d)@ + curated_part_10(),
{
    d.add("own", ADJECTIVE);
    d.add("other", ADJECTIVE);
    d.add("old", ADJECTIVE);
    d.add("big", ADJECTIVE);
    d.add("high", ADJECTIVE);
    d.add("different", ADJECTIVE);
    d.add("small", ADJECTIVE);
    d.add("large", ADJECTIVE);
    d.add("next", ADJECTIVE);
    d.add("early", ADJECTIVE | ADVERB);
    d.add("young", ADJECTIVE);
    d.add("important", ADJECTIVE);
    d.add("few", ADJECTIVE);
    d.add("public", ADJECTIVE);
    d.add("bad", ADJECTIVE);
    d.add("same", ADJECTIVE);
    d.add("able", ADJECTIVE);
    d.add("cute", ADJECTIVE);
    d.add("red", ADJECTIVE);
    d.add("blue", ADJECTIVE);
    d.add("green", ADJECTIVE);
    d.add("happy", ADJECTIVE);
    d.add("sad", ADJECTIVE);
    d.add("fast", ADJECTIVE | ADVERB);
    d.add("faster", ADJECTIVE | ADVERB);
    d.add("quick", ADJECTIVE);
    d.add("slow", ADJECTIVE);
    d.add("hot", ADJECTIVE);
    d.add("cold", ADJECTIVE);
    d.add("nice", ADJECTIVE);
    d.add("real", ADJECTIVE);
    d.add("true", ADJECTIVE);
    d.add("full", ADJECTIVE);
    d.add("free", ADJECTIVE);
    d.add("best", ADJECTIVE | ADVERB);
    d.add("better", ADJECTIVE | ADVERB);
    d.add("sure", ADJECTIVE);
    d.add("clear", ADJECTIVE);
    d.add("easy", ADJECTIVE);
    d.add("hard", ADJECTIVE | ADVERB);
    assert(d@ =~= old(d)@ + curated_part_10());
}

pub open spec fn curated_part_11() -> Entries {
    seq![
        ("simple"@, flags_metadata(ADJECTIVE)),
        ("aware"@, flags_metadata(ADJECTIVE)),
        ("social"@, flags_metadata(ADJECTIVE)),
        ("short"@, flags_metadata(ADJECTIVE)),
        ("strong"@, flags_metadata(ADJECTIVE)),
        ("whole"@, flags_metadata(ADJECTIVE)),
        ("final"@, flags_metadata(ADJECTIVE)),
        ("special"@, flags_metadata(ADJECTIVE)),
        ("possible"@, flags_metadata(ADJECTIVE)),
        ("white"@, flags_metadata(ADJECTIVE)),
        ("black"@, flags_metadata(ADJECTIVE)),
        ("dark"@, flags_metadata(ADJECTIVE)),
        ("light"@, flags_metadata(ADJECTIVE | NOUN)),
        ("not"@, flags_metadata(ADVERB)),
        ("very"@, flags_metadata(ADVERB)),
        ("also"@, flags_metadata(ADVERB)),
        ("just"@, flags_metadata(ADVERB)),
        ("only"@, flags_metadata(ADVERB)),
        ("now"@, flags_metadata(ADVERB)),
        ("how"@, flags_metadata(ADVERB)),
        ("here"@, flags_metadata(ADVERB)),
        ("well"@, flags_metadata(ADVERB | ADJECTIVE)),
        ("even"@, flags_metadata(ADVERB)),
        ("still"@, flags_metadata(ADVERB)),
        ("too"@, flags_metadata(ADVERB)),
        ("never"@, flags_metadata(ADVERB)),
        ("always"@, flags_metadata(ADVERB)),
        ("often"@, flags_metadata(ADVERB)),
        ("really"@, flags_metadata(ADVERB)),
        ("already"@, flags_metadata(ADVERB)),
        ("socially"@, flags_metadata(ADVERB)),
        ("quickly"@, flags_metadata(ADVERB)),
        ("slowly"@, flags_metadata(ADVERB)),
        ("almost"@, flags_metadata(ADVERB)),
        ("together"@, flags_metadata(ADVERB)),
        ("perhaps"@, flags_metadata(ADVERB)),
        ("maybe"@, flags_metadata(ADVERB)),
        ("soon"@, flags_metadata(ADVERB)),
        ("yes"@, flags_metadata(ADVERB)),
        ("why"@, flags_metadata(ADVERB)),
    ]
}

fn add_curated_11(d: &mut FullDictionary)
    ensures
        final(d)@ == old(d)@ + curated_part_11(),
{
    d.add("simple", ADJECTIVE);
    d.add("aware", ADJECTIVE);
    d.add("social", ADJECTIVE);
    d.add("short", ADJECTIVE);
    d.add("strong", ADJECTIVE);
    d.add("whole", ADJECTIVE);
    d.add("final", ADJECTIVE);
    d.add("special", ADJECTIVE);
    d.add("possible", ADJECTIVE);
    d.add("white", ADJECTIVE);
    d.add("black", ADJECTIVE);
    d.add("dark", ADJECTIVE);
    d.add("light", ADJECTIVE | NOUN);
    d.add("not", ADVERB);
    d.add("very", ADVERB);
    d.add("also", ADVERB);
    d.add("just", ADVERB);
    d.add("only", ADVERB);
    d.add("now", ADVERB);
    d.add("how", ADVERB);
    d.add("here", ADVERB);
    d.add("well", ADVERB | ADJECTIVE);
    d.add("even", ADVERB);
    d.add("still", ADVERB);
    d.add("too", ADVERB);
    d.add("never", ADVERB);
    d.add("always", ADVERB);
    d.add("often", ADVERB);
    d.add("really", ADVERB);
    d.add("already", ADVERB);
    d.add("socially", ADVERB);
    d.add("quickly", ADVERB);
    d.add("slowly", ADVERB);
    d.add("almost", ADVERB);
    d.add("together", ADVERB);
    d.add("perhaps", ADVERB);
    d.add("maybe", ADVERB);
    d.add("soon", ADVERB);
    d.add("yes", ADVERB);
    d.add("why", ADVERB);
    assert(d@ =~= old(d)@ + curated_part_11());
}

pub open spec fn curated_part_12() -> Entries {
    seq![
        ("when"@, flags_metadata(ADVERB | CONJUNCTION)),
        ("where"@, flags_metadata(ADVERB | CONJUNCTION)),
    ]
}

fn add_curated_12(d: &mut FullDictionary)
    ensures
        final(d)@ == old(d)@ + curated_part_12(),
{
    d.add("when", ADVERB | CONJUNCTION);
    d.add("where", ADVERB | CONJUNCTION);
    assert(d@ =~= old(d)@ + curated_part_12());
}

impl FullDictionary {
    pub fn new() -> (r: FullDictionary)
        ensures
            r@.len() == 0,
    {
        FullDictionary { entries: Vec::new() }
    }

    pub fn append_word(&mut self, word: Vec<char>, metadata: WordMetadata)
        ensures
            final(self)@ == old(self)@.push((word@, metadata)),
    {
        self.entries.push(DictEntry { word, metadata });
        assert(self@ =~= old(self)@.push((word@, metadata)));
    }

    pub fn append_str(&mut self, word: &str, metadata: WordMetadata)
        ensures
            final(self)@ == old(self)@.push((word@, metadata)),
    {
        self.append_word(str_to_chars(word), metadata);
    }

    fn add(&mut self, word: &str, flags: u16)
        ensures
            final(self)@ == old(self)@.push((word@, flags_metadata(flags))),
    {
        self.append_str(word, metadata_of_flags(flags));
    }

    fn find_exact_exec(&self, word: &[char]) -> (r: Option<WordMetadata>)
        ensures
            r == find_exact(self@, word@),
    {
        let mut i: usize = self.entries.len();
        assert(self@.subrange(0, i as int) =~= self@);
        while i > 0
            invariant
                i <= self@.len(),
                self@.len() == self.entries@.len(),
                find_exact(self@, word@) == find_exact(self@.subrange(0, i as int), word@),
            decreases i,
        {
            let e = &self.entries[i - 1];
            assert(self@.subrange(0, i - 1) =~= self@.subrange(0, i as int).drop_last());
            if chars_equal(e.word.as_slice(), word) {
                return Some(e.metadata);
            }
            i -= 1;
        }
        None
    }

    fn find_lowered_exec(&self, word: &[char], lowered: &[char]) -> (r: Option<WordMetadata>)
        requires
            ascii_lowered(word@, lowered@),
        ensures
            r == find_lowered(self@, word@),
    {
        let mut i: usize = self.entries.len();
        assert(self@.subrange(0, i as int) =~= self@);
        while i > 0
            invariant
                i <= self@.len(),
                self@.len() == self.entries@.len(),
                ascii_lowered(word@, lowered@),
                find_lowered(self@, word@) == find_lowered(self@.subrange(0, i as int), word@),
            decreases i,
        {
            let e = &self.entries[i - 1];
            assert(self@.subrange(0, i - 1) =~= self@.subrange(0, i as int).drop_last());
            let eq = chars_equal(e.word.as_slice(), lowered);
            proof {
                let ew = e.word@;
                if ascii_lowered(word@, ew) {
                    assert forall|k: int| 0 <= k < ew.len() implies ew[k] == lowered@[k] by {
                        if crate::text::is_ascii_upper(word@[k]) {
                            assert(ew[k] as u32 == word@[k] as u32 + 32);
                            assert(lowered@[k] as u32 == word@[k] as u32 + 32);
                            vstd::utf8::char_u32_cast(ew[k], ew[k] as u32);
                            vstd::utf8::char_u32_cast(lowered@[k], lowered@[k] as u32);
                        } else {
                            assert(ew[k] == word@[k]);
                            assert(lowered@[k] == word@[k]);
                        }
                    };
                    assert(ew =~= lowered@);
                }
            }
            if eq {
                return Some(e.metadata);
            }
            i -= 1;
        }
        None
    }

    /// The metadata of `word`, found as written or else in small letters.
    pub fn get_word_metadata(&self, word: &[char]) -> (r: Option<WordMetadata>)
        ensures
            r == entries_lookup(self@, word@),
    {
        match self.find_exact_exec(word) {
            Some(m) => Some(m),
            None => {
                let lowered = to_ascii_lower(word);
                self.find_lowered_exec(word, lowered.as_slice())
            },
        }
    }

    pub fn contains_word(&self, word: &[char]) -> (r: bool)
        ensures
            r == entries_lookup(self@, word@) is Some,
    {
        self.get_word_metadata(word).is_some()
    }

    /// The built-in English word list.
    pub fn curated() -> (r: FullDictionary)
        ensures
            r@ == curated_entries(),
    {
        let mut d = FullDictionary::new();
        add_curated_0(&mut d);
        add_curated_1(&mut d);
        add_curated_2(&mut d);
        add_curated_3(&mut d);
        add_curated_4(&mut d);
        add_curated_5(&mut d);
        add_curated_6(&mut d);
        add_curated_7(&mut d);
        add_curated_8(&mut d);
        add_curated_9(&mut d);
        add_curated_10(&mut d);
        add_curated_11(&mut d);
        add_curated_12(&mut d);
        assert(d@ =~= curated_entries());
        d
    }
}

pub open spec fn merge_found(a: Option<WordMetadata>, b: Option<WordMetadata>) -> Option<
    WordMetadata,
> {
    match (a, b) {
        (Some(x), Some(y)) => Some(merge_metadata(x, y)),
        (Some(x), None) => Some(x),
        (None, y) => y,
    }
}

/// What the layers together know of `w`: the union of the positive flags of
/// every layer that holds it.
pub open spec fn layers_lookup(layers: Seq<Entries>, w: Seq<char>) -> Option<WordMetadata>
    decreases layers.len(),
{
    if layers.len() == 0 {
        None
    } else {
        merge_found(layers_lookup(layers.drop_last(), w), entries_lookup(layers.last(), w))
    }
}

/// Dictionaries queried together: a curated base with overlays on top.
pub struct MergedDictionary {
    layers: Vec<FullDictionary>,
}

impl View for MergedDictionary {
    type V = Seq<Entries>;

    closed spec fn view(&self) -> Seq<Entries> {
        Seq::new(self.layers@.len(), |i: int| self.layers@[i]@)
    }
}

impl From<FullDictionary> for MergedDictionary {
    fn from(dict: FullDictionary) -> (r: MergedDictionary) {
        MergedDictionary::from_dictionary(dict)
    }
}

impl vstd::std_specs::convert::FromSpecImpl<FullDictionary> for MergedDictionary {
    open spec fn obeys_from_spec() -> bool {
        false
    }

    open spec fn from_spec(v: FullDictionary) -> MergedDictionary {
        arbitrary()
    }
}

impl MergedDictionary {
    pub fn new() -> (r: MergedDictionary)
        ensures
            r@.len() == 0,
    {
        MergedDictionary { layers: Vec::new() }
    }

    pub fn from_dictionary(dict: FullDictionary) -> (r: MergedDictionary)
        ensures
            r@ == seq![dict@],
    {
        let mut r = MergedDictionary::new();
        r.add_dictionary(dict);
        r
    }

    /// A dictionary of the built-in word list alone.
    pub fn curated() -> (r: MergedDictionary)
        ensures
            r@ == seq![curated_entries()],
    {
        MergedDictionary::from_dictionary(FullDictionary::curated())
    }

    /// Puts `dict` on top of the layers already there.
    pub fn add_dictionary(&mut self, dict: FullDictionary)
        ensures
            final(self)@ == old(self)@.push(dict@),
    {
        let ghost d = dict@;
        self.layers.push(dict);
        assert(self@ =~= old(self)@.push(d));
    }

    pub fn get_word_metadata(&self, word: &[char]) -> (r: Option<WordMetadata>)
        ensures
            r == layers_lookup(self@, word@),
    {
        let mut found: Option<WordMetadata> = None;
        let mut i: usize = 0;
        while i < self.layers.len()
            invariant
                i <= self@.len() == self.layers@.len(),
                found == layers_lookup(self@.subrange(0, i as int), word@),
            decreases self@.len() - i,
        {
            let here = self.layers[i].get_word_metadata(word);
            assert(self@.subrange(0, i + 1).drop_last() =~= self@.subrange(0, i as int));
            found = match (found, here) {
                (Some(a), Some(b)) => Some(a.or(&b)),
                (Some(a), None) => Some(a),
                (None, b) => b,
            };
            i += 1;
        }
        assert(self@.subrange(0, i as int) =~= self@);
        found
    }

    pub fn contains_word(&self, word: &[char]) -> (r: bool)
        ensures
            r == layers_lookup(self@, word@) is Some,
    {
        self.get_word_metadata(word).is_some()
    }

    /// Whether the dictionary holds the word spelled by `word`.
    pub fn contains_word_str(&self, word: &str) -> (r: bool)
        ensures
            r == layers_lookup(self@, word@) is Some,
    {
        let chars = str_to_chars(word);
        self.contains_word(chars.as_slice())
    }
}

/// Every entry of every layer, bottom layer first.
pub open spec fn all_entries(layers: Seq<Entries>) -> Entries
    decreases layers.len(),
{
    if layers.len() == 0 {
        Seq::empty()
    } else {
        all_entries(layers.drop_last()) + layers.last()
    }
}

impl FullDictionary {
    /// Appends a copy of every entry to `out`.
    fn copy_entries(&self, out: &mut Vec<(Vec<char>, WordMetadata)>)
        ensures
            entries_of(final(out)@) == entries_of(old(out)@) + self@,
    {
        let mut k: usize = 0;
        while k < self.entries.len()
            invariant
                k <= self.entries@.len(),
                self@.len() == self.entries@.len(),
                entries_of(out@) == entries_of(old(out)@) + self@.subrange(0, k as int),
            decreases self.entries@.len() - k,
        {
            let e = &self.entries[k];
            let span = crate::span::Span::new(0, e.word.len());
            assert(e.word@.subrange(0, e.word@.len() as int) =~= e.word@);
            let word = span.get_content(e.word.as_slice());
            let ghost before = out@;
            out.push((word, e.metadata));
            assert(entries_of(out@) =~= entries_of(before) + seq![(e.word@, e.metadata)]);
            assert(self@.subrange(0, k + 1) =~= self@.subrange(0, k as int) + seq![(e.word@, e.metadata)]);
            k += 1;
        }
        assert(self@.subrange(0, k as int) =~= self@);
    }
}

/// The words and metadata of a list of copied entries.
pub open spec fn entries_of(v: Seq<(Vec<char>, WordMetadata)>) -> Entries {
    Seq::new(v.len(), |i: int| (v[i].0@, v[i].1))
}

impl MergedDictionary {
    /// A copy of every entry of every layer, bottom layer first.
    pub fn all_words(&self) -> (r: Vec<(Vec<char>, WordMetadata)>)
        ensures
            entries_of(r@) == all_entries(self@),
    {
        let mut out: Vec<(Vec<char>, WordMetadata)> = Vec::new();
        assert(entries_of(out@) =~= Seq::<(Seq<char>, WordMetadata)>::empty());
        let mut i: usize = 0;
        while i < self.layers.len()
            invariant
                i <= self.layers@.len(),
                self@.len() == self.layers@.len(),
                entries_of(out@) == all_entries(self@.subrange(0, i as int)),
            decreases self.layers@.len() - i,
        {
            self.layers[i].copy_entries(&mut out);
            assert(self@.subrange(0, i + 1).drop_last() =~= self@.subrange(0, i as int));
            i += 1;
        }
        assert(self@.subrange(0, i as int) =~= self@);
        out
    }
}

} // verus!
