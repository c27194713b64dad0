use vstd::prelude::*;

verus! {

/// Universal part-of-speech tags following the Universal Dependencies scheme
/// (<https://universaldependencies.org/u/pos>).
#[derive(Clone, Copy, Debug, PartialEq, Eq, Structural, PartialOrd, Ord, Hash)]
pub enum UniversalDependencies {
    /// Examples: big, old, green, incomprehensible, first
    Adjective,
    /// Examples: in, to, during
    Adposition,
    /// Examples: very, tomorrow, down, where, there
    Adverb,
    /// Examples: is, has (done), will (do), should (do)
    Auxiliary,
    /// Examples: and, or, but
    Conjunction,
    /// Examples: and, or, but
    CoordinatingConjunction,
    /// Examples: a, an, the
    Determiner,
    /// Examples: psst, ouch, bravo, hello
    Interjection,
    /// Examples: girl, cat, tree, air, beauty
    Noun,
    /// Examples: 1, 2020, one, seventy-seven, IV, MMXIV
    Numeral,
    /// Examples: 's, not
    Particle,
    /// Examples: I, you, he, she, myself, themselves, somebody
    Pronoun,
    /// Examples: Mary, John, London, NATO, HBO, Ferris
    ProperNoun,
    /// Examples: ., (, ), ?
    Punctuation,
    /// Examples: if, while, that
    SubordinatingConjunction,
    /// Examples: %, $, £, -, +, =
    Symbol,
    /// Examples: Run, runs, running, eat, ate, eating
    Verb,
    /// Examples: sdijfiodufildug
    Other,
    /// Examples: ' '
    Space,
}

/// Part-of-speech tag set of the OntoNotes 5 corpus
/// (<https://catalog.ldc.upenn.edu/LDC2013T19>).
#[derive(Clone, Copy, Debug, PartialEq, Eq, Structural, PartialOrd, Ord, Hash)]
pub enum OntoNotes5 {
    /// Currency symbol: $
    Currency,
    /// Opening quotation mark: ``
    OpeningQuotation,
    /// Closing quotation mark: ''
    ClosingQuotation,
    /// Comma: ,
    Comma,
    /// Left round bracket: -LRB-
    LeftRoundBracket,
    /// Right round bracket: -RRB-
    RightRoundBracket,
    /// Sentence closer: ., ?, !
    SentenceCloser,
    /// Colon or ellipsis: :, ;, ...
    ColonOrEllipsis,
    /// Email address
    Email,
    /// Affix
    Affix,
    /// Coordinating conjunction: and, or, but
    CoordinatingConjunction,
    /// Cardinal number: 1, two
    CardinalNumber,
    /// Determiner: a, the
    Determiner,
    /// Existential there
    ExistentialThere,
    /// Foreign word
    ForeignWord,
    /// Additional word
    AdditionalWord,
    /// Hyphen
    Hyphen,
    /// Conjunction subordinating or preposition
    Conjunction,
    /// Adjective
    Adjective,
    /// Adjective, comparative
    Comparative,
    /// Adjective, superlative
    Superlative,
    /// List item marker
    ListItemMarker,
    /// Modal auxiliary: can, should
    ModalAuxiliary,
    /// Superfluous punctuation
    SuperfluousPunctuation,
    /// Missing tag
    MissingTag,
    /// Noun, singular or mass
    NounSingularOrPlural,
    /// Noun, proper singular
    NounProperSingular,
    /// Noun, proper plural
    NounProperPlural,
    /// Noun, plural
    NounPlural,
    /// Predeterminer: all, both
    Predeterminer,
    /// Possessive ending: 's
    PossessiveEnding,
    /// Pronoun, personal
    PronounPersonal,
    /// Pronoun, possessive
    PronounPossessive,
    /// Adverb
    Adverb,
    /// Adverb, comparative
    AdverbComparative,
    /// Adverb, superlative
    AdverbSuperlative,
    /// Adverb, particle
    AdverbParticle,
    /// Space
    Space,
    /// Symbol
    Symbol,
    /// Infinitival to
    InfinitivalTo,
    /// Interjection
    Interjection,
    /// Verb, base form
    VerbBaseForm,
    /// Verb, past tense
    VerbPastTense,
    /// Verb, gerund or present participle
    VerbGerundOrPresentParticiple,
    /// Verb, non-3rd person singular present
    VerbNonThirdPersonSingularPresent,
    /// Wh-determiner: which, that
    WhDeterminer,
    /// Wh-pronoun, personal: who, what
    WhPronounPersonal,
    /// Wh-pronoun, possessive: whose
    WhPronounPossessive,
    /// Wh-adverb: where, when
    WhAdverb,
    /// Unknown
    Unknown,
}

/// The number of OntoNotes 5 tags.
pub const ONTONOTES5_COUNT: usize = 50;

/// `tags` holds the OntoNotes 5 tags in declaration order: each stands at its
/// own position, and there are as many entries as tags.
pub open spec fn is_tag_listing(tags: Seq<OntoNotes5>) -> bool {
    &&& tags.len() == ONTONOTES5_COUNT
    &&& forall|i: int| 0 <= i < tags.len() ==> (#[trigger] tags[i]).position() == i
}

impl OntoNotes5 {
    /// Where the tag stands in declaration order, counting from zero.
    pub open spec fn position(self) -> nat {
        match self {
            OntoNotes5::Currency => 0,
            OntoNotes5::OpeningQuotation => 1,
            OntoNotes5::ClosingQuotation => 2,
            OntoNotes5::Comma => 3,
            OntoNotes5::LeftRoundBracket => 4,
            OntoNotes5::RightRoundBracket => 5,
            OntoNotes5::SentenceCloser => 6,
            OntoNotes5::ColonOrEllipsis => 7,
            OntoNotes5::Email => 8,
            OntoNotes5::Affix => 9,
            OntoNotes5::CoordinatingConjunction => 10,
            OntoNotes5::CardinalNumber => 11,
            OntoNotes5::Determiner => 12,
            OntoNotes5::ExistentialThere => 13,
            OntoNotes5::ForeignWord => 14,
            OntoNotes5::AdditionalWord => 15,
            OntoNotes5::Hyphen => 16,
            OntoNotes5::Conjunction => 17,
            OntoNotes5::Adjective => 18,
            OntoNotes5::Comparative => 19,
            OntoNotes5::Superlative => 20,
            OntoNotes5::ListItemMarker => 21,
            OntoNotes5::ModalAuxiliary => 22,
            OntoNotes5::SuperfluousPunctuation => 23,
            OntoNotes5::MissingTag => 24,
            OntoNotes5::NounSingularOrPlural => 25,
            OntoNotes5::NounProperSingular => 26,
            OntoNotes5::NounProperPlural => 27,
            OntoNotes5::NounPlural => 28,
            OntoNotes5::Predeterminer => 29,
            OntoNotes5::PossessiveEnding => 30,
            OntoNotes5::PronounPersonal => 31,
            OntoNotes5::PronounPossessive => 32,
            OntoNotes5::Adverb => 33,
            OntoNotes5::AdverbComparative => 34,
            OntoNotes5::AdverbSuperlative => 35,
            OntoNotes5::AdverbParticle => 36,
            OntoNotes5::Space => 37,
            OntoNotes5::Symbol => 38,
            OntoNotes5::InfinitivalTo => 39,
            OntoNotes5::Interjection => 40,
            OntoNotes5::VerbBaseForm => 41,
            OntoNotes5::VerbPastTense => 42,
            OntoNotes5::VerbGerundOrPresentParticiple => 43,
            OntoNotes5::VerbNonThirdPersonSingularPresent => 44,
            OntoNotes5::WhDeterminer => 45,
            OntoNotes5::WhPronounPersonal => 46,
            OntoNotes5::WhPronounPossessive => 47,
            OntoNotes5::WhAdverb => 48,
            OntoNotes5::Unknown => 49,
        }
    }

    /// Every tag once, in declaration order.
    pub fn variants() -> (r: Vec<OntoNotes5>)
        ensures
            is_tag_listing(r@),
            forall|f: OntoNotes5| r@[f.position() as int] == f,
    {
        let mut r: Vec<OntoNotes5> = Vec::new();
        r.push(OntoNotes5::Currency);
        r.push(OntoNotes5::OpeningQuotation);
        r.push(OntoNotes5::ClosingQuotation);
        r.push(OntoNotes5::Comma);
        r.push(OntoNotes5::LeftRoundBracket);
        r.push(OntoNotes5::RightRoundBracket);
        r.push(OntoNotes5::SentenceCloser);
        r.push(OntoNotes5::ColonOrEllipsis);
        r.push(OntoNotes5::Email);
        r.push(OntoNotes5::Affix);
        r.push(OntoNotes5::CoordinatingConjunction);
        r.push(OntoNotes5::CardinalNumber);
        r.push(OntoNotes5::Determiner);
        r.push(OntoNotes5::ExistentialThere);
        r.push(OntoNotes5::ForeignWord);
        r.push(OntoNotes5::AdditionalWord);
        r.push(OntoNotes5::Hyphen);
        r.push(OntoNotes5::Conjunction);
        r.push(OntoNotes5::Adjective);
        r.push(OntoNotes5::Comparative);
        r.push(OntoNotes5::Superlative);
        r.push(OntoNotes5::ListItemMarker);
        r.push(OntoNotes5::ModalAuxiliary);
        r.push(OntoNotes5::SuperfluousPunctuation);
        r.push(OntoNotes5::MissingTag);
        r.push(OntoNotes5::NounSingularOrPlural);
        r.push(OntoNotes5::NounProperSingular);
        r.push(OntoNotes5::NounProperPlural);
        r.push(OntoNotes5::NounPlural);
        r.push(OntoNotes5::Predeterminer);
        r.push(OntoNotes5::PossessiveEnding);
        r.push(OntoNotes5::PronounPersonal);
        r.push(OntoNotes5::PronounPossessive);
        r.push(OntoNotes5::Adverb);
        r.push(OntoNotes5::AdverbComparative);
        r.push(OntoNotes5::AdverbSuperlative);
        r.push(OntoNotes5::AdverbParticle);
        r.push(OntoNotes5::Space);
        r.push(OntoNotes5::Symbol);
        r.push(OntoNotes5::InfinitivalTo);
        r.push(OntoNotes5::Interjection);
        r.push(OntoNotes5::VerbBaseForm);
        r.push(OntoNotes5::VerbPastTense);
        r.push(OntoNotes5::VerbGerundOrPresentParticiple);
        r.push(OntoNotes5::VerbNonThirdPersonSingularPresent);
        r.push(OntoNotes5::WhDeterminer);
        r.push(OntoNotes5::WhPronounPersonal);
        r.push(OntoNotes5::WhPronounPossessive);
        r.push(OntoNotes5::WhAdverb);
        r.push(OntoNotes5::Unknown);
        r
    }
}

} // verus!
