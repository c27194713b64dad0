use crate::tags::{is_tag_listing, OntoNotes5, UniversalDependencies, ONTONOTES5_COUNT};
use vstd::prelude::*;

verus! {

/// The Universal Dependencies tag that an OntoNotes 5 tag stands for, grouped
/// by the coarse tag.
pub open spec fn coarse_of(fine: OntoNotes5) -> UniversalDependencies {
    match fine {
        OntoNotes5::Currency
        | OntoNotes5::Symbol => UniversalDependencies::Symbol,
        OntoNotes5::OpeningQuotation
        | OntoNotes5::ClosingQuotation
        | OntoNotes5::Comma
        | OntoNotes5::LeftRoundBracket
        | OntoNotes5::RightRoundBracket
        | OntoNotes5::SentenceCloser
        | OntoNotes5::ColonOrEllipsis
        | OntoNotes5::Hyphen
        | OntoNotes5::SuperfluousPunctuation => UniversalDependencies::Punctuation,
        OntoNotes5::Email
        | OntoNotes5::ForeignWord
        | OntoNotes5::AdditionalWord
        | OntoNotes5::ListItemMarker
        | OntoNotes5::MissingTag
        | OntoNotes5::Unknown => UniversalDependencies::Other,
        OntoNotes5::Affix
        | OntoNotes5::Adjective
        | OntoNotes5::Comparative
        | OntoNotes5::Superlative => UniversalDependencies::Adjective,
        OntoNotes5::CoordinatingConjunction => UniversalDependencies::CoordinatingConjunction,
        OntoNotes5::CardinalNumber => UniversalDependencies::Numeral,
        OntoNotes5::Determiner
        | OntoNotes5::Predeterminer
        | OntoNotes5::WhDeterminer
        | OntoNotes5::WhPronounPossessive
        | OntoNotes5::PronounPossessive => UniversalDependencies::Determiner,
        OntoNotes5::ExistentialThere
        | OntoNotes5::PronounPersonal
        | OntoNotes5::WhPronounPersonal => UniversalDependencies::Pronoun,
        OntoNotes5::Conjunction
        | OntoNotes5::AdverbParticle => UniversalDependencies::Adposition,
        OntoNotes5::ModalAuxiliary
        | OntoNotes5::VerbBaseForm
        | OntoNotes5::VerbPastTense
        | OntoNotes5::VerbGerundOrPresentParticiple
        | OntoNotes5::VerbNonThirdPersonSingularPresent => UniversalDependencies::Verb,
        OntoNotes5::NounSingularOrPlural
        | OntoNotes5::NounPlural => UniversalDependencies::Noun,
        OntoNotes5::NounProperSingular
        | OntoNotes5::NounProperPlural => UniversalDependencies::ProperNoun,
        OntoNotes5::PossessiveEnding
        | OntoNotes5::InfinitivalTo => UniversalDependencies::Particle,
        OntoNotes5::Adverb
        | OntoNotes5::AdverbComparative
        | OntoNotes5::AdverbSuperlative
        | OntoNotes5::WhAdverb => UniversalDependencies::Adverb,
        OntoNotes5::Space => UniversalDependencies::Space,
        OntoNotes5::Interjection => UniversalDependencies::Interjection,
    }
}

/// The projection as a table with one entry for each OntoNotes 5 tag.
pub open spec fn projection_table() -> Map<OntoNotes5, UniversalDependencies> {
    Map::total(|fine: OntoNotes5| coarse_of(fine))
}

impl vstd::std_specs::convert::FromSpecImpl<OntoNotes5> for UniversalDependencies {
    open spec fn obeys_from_spec() -> bool {
        true
    }

    open spec fn from_spec(onto: OntoNotes5) -> Self {
        coarse_of(onto)
    }
}

impl From<OntoNotes5> for UniversalDependencies {
    fn from(onto: OntoNotes5) -> Self {
        match onto {
            OntoNotes5::Currency => UniversalDependencies::Symbol,
            OntoNotes5::OpeningQuotation => UniversalDependencies::Punctuation,
            OntoNotes5::ClosingQuotation => UniversalDependencies::Punctuation,
            OntoNotes5::Comma => UniversalDependencies::Punctuation,
            OntoNotes5::LeftRoundBracket => UniversalDependencies::Punctuation,
            OntoNotes5::RightRoundBracket => UniversalDependencies::Punctuation,
            OntoNotes5::SentenceCloser => UniversalDependencies::Punctuation,
            OntoNotes5::ColonOrEllipsis => UniversalDependencies::Punctuation,
            OntoNotes5::Email => UniversalDependencies::Other,
            OntoNotes5::Affix => UniversalDependencies::Adjective,
            OntoNotes5::CoordinatingConjunction => UniversalDependencies::CoordinatingConjunction,
            OntoNotes5::CardinalNumber => UniversalDependencies::Numeral,
            OntoNotes5::Determiner => UniversalDependencies::Determiner,
            OntoNotes5::ExistentialThere => UniversalDependencies::Pronoun,
            OntoNotes5::ForeignWord => UniversalDependencies::Other,
            OntoNotes5::AdditionalWord => UniversalDependencies::Other,
            OntoNotes5::Hyphen => UniversalDependencies::Punctuation,
            OntoNotes5::Conjunction => UniversalDependencies::Adposition,
            OntoNotes5::Adjective => UniversalDependencies::Adjective,
            OntoNotes5::Comparative => UniversalDependencies::Adjective,
            OntoNotes5::Superlative => UniversalDependencies::Adjective,
            OntoNotes5::ListItemMarker => UniversalDependencies::Other,
            OntoNotes5::ModalAuxiliary => UniversalDependencies::Verb,
            OntoNotes5::SuperfluousPunctuation => UniversalDependencies::Punctuation,
            OntoNotes5::MissingTag => UniversalDependencies::Other,
            OntoNotes5::NounSingularOrPlural => UniversalDependencies::Noun,
            OntoNotes5::NounProperSingular => UniversalDependencies::ProperNoun,
            OntoNotes5::NounProperPlural => UniversalDependencies::ProperNoun,
            OntoNotes5::NounPlural => UniversalDependencies::Noun,
            OntoNotes5::Predeterminer => UniversalDependencies::Determiner,
            OntoNotes5::PossessiveEnding => UniversalDependencies::Particle,
            OntoNotes5::PronounPersonal => UniversalDependencies::Pronoun,
            OntoNotes5::PronounPossessive => UniversalDependencies::Determiner,
            OntoNotes5::Adverb => UniversalDependencies::Adverb,
            OntoNotes5::AdverbComparative => UniversalDependencies::Adverb,
            OntoNotes5::AdverbSuperlative => UniversalDependencies::Adverb,
            OntoNotes5::AdverbParticle => UniversalDependencies::Adposition,
            OntoNotes5::Space => UniversalDependencies::Space,
            OntoNotes5::Symbol => UniversalDependencies::Symbol,
            OntoNotes5::InfinitivalTo => UniversalDependencies::Particle,
            OntoNotes5::Interjection => UniversalDependencies::Interjection,
            OntoNotes5::VerbBaseForm => UniversalDependencies::Verb,
            OntoNotes5::VerbPastTense => UniversalDependencies::Verb,
            OntoNotes5::VerbGerundOrPresentParticiple => UniversalDependencies::Verb,
            OntoNotes5::VerbNonThirdPersonSingularPresent => UniversalDependencies::Verb,
            OntoNotes5::WhDeterminer => UniversalDependencies::Determiner,
            OntoNotes5::WhPronounPersonal => UniversalDependencies::Pronoun,
            OntoNotes5::WhPronounPossessive => UniversalDependencies::Determiner,
            OntoNotes5::WhAdverb => UniversalDependencies::Adverb,
            OntoNotes5::Unknown => UniversalDependencies::Other,
        }
    }
}

/// Projects an OntoNotes 5 tag onto the Universal Dependencies tag set.
pub fn project(fine: OntoNotes5) -> (r: UniversalDependencies)
    ensures
        r == coarse_of(fine),
{
    UniversalDependencies::from(fine)
}

/// Projection is deterministic: any two results that `project` may give for
/// one tag are the same tag.
pub proof fn lemma_project_deterministic(
    fine: OntoNotes5,
    first: UniversalDependencies,
    second: UniversalDependencies,
)
    requires
        call_ensures(project, (fine,), first),
        call_ensures(project, (fine,), second),
    ensures
        first == second,
{
}

/// The projection table has exactly one entry for each OntoNotes 5 tag: a
/// listing of the tags repeats none, its tags are the keys of the table, and
/// the table has as many entries as there are tags.
pub proof fn lemma_table_covers_every_tag(tags: Seq<OntoNotes5>)
    requires
        is_tag_listing(tags),
    ensures
        tags.no_duplicates(),
        projection_table().dom() == tags.to_set(),
        projection_table().dom().len() == ONTONOTES5_COUNT,
        forall|fine: OntoNotes5| #[trigger] projection_table()[fine] == coarse_of(fine),
{
    assert forall|fine: OntoNotes5| #[trigger] tags.contains(fine) by {
        let i = fine.position() as int;
        assert(0 <= i < tags.len());
        assert(tags[i].position() == fine.position());
        assert(tags[i] == fine);
    }
    assert(projection_table().dom() =~= tags.to_set());
    tags.unique_seq_to_set();
}

} // verus!
