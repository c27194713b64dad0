use pos_tags::tags::ONTONOTES5_COUNT;
use pos_tags::{project, OntoNotes5, UniversalDependencies};
use pos_tags::{OntoNotes5 as F, UniversalDependencies as U};
use std::collections::HashSet;

#[test]
fn cardinal_number_is_numeral() {
    assert_eq!(project(OntoNotes5::CardinalNumber), UniversalDependencies::Numeral);
}

#[test]
fn space_is_space() {
    assert_eq!(project(OntoNotes5::Space), UniversalDependencies::Space);
}

#[test]
fn unknown_is_other() {
    assert_eq!(project(OntoNotes5::Unknown), UniversalDependencies::Other);
}

#[test]
fn verb_past_tense_is_verb() {
    assert_eq!(project(OntoNotes5::VerbPastTense), UniversalDependencies::Verb);
}

#[test]
fn proper_singular_noun_is_proper_noun() {
    assert_eq!(project(OntoNotes5::NounProperSingular), UniversalDependencies::ProperNoun);
}

#[test]
fn possessive_ending_is_particle() {
    assert_eq!(project(OntoNotes5::PossessiveEnding), UniversalDependencies::Particle);
}

#[test]
fn comma_and_opening_quotation_share_punctuation() {
    assert_ne!(OntoNotes5::Comma, OntoNotes5::OpeningQuotation);
    assert_eq!(project(OntoNotes5::Comma), project(OntoNotes5::OpeningQuotation));
    assert_eq!(project(OntoNotes5::Comma), UniversalDependencies::Punctuation);
}

#[test]
fn from_agrees_with_project() {
    for fine in OntoNotes5::variants() {
        assert_eq!(UniversalDependencies::from(fine), project(fine));
        let coarse: UniversalDependencies = fine.into();
        assert_eq!(coarse, project(fine));
    }
}

#[test]
fn every_tag_projects_the_same_way_twice() {
    for fine in OntoNotes5::variants() {
        assert_eq!(project(fine), project(fine));
    }
}

#[test]
fn variants_lists_each_tag_once() {
    let all = OntoNotes5::variants();
    assert_eq!(all.len(), ONTONOTES5_COUNT);
    assert_eq!(all.len(), 50);
    let distinct: HashSet<OntoNotes5> = all.iter().copied().collect();
    assert_eq!(distinct.len(), all.len());
    assert_eq!(all[0], OntoNotes5::Currency);
    assert_eq!(all[3], OntoNotes5::Comma);
    assert_eq!(all[49], OntoNotes5::Unknown);
}

#[test]
fn variants_follow_declaration_order() {
    let all = OntoNotes5::variants();
    for pair in all.windows(2) {
        assert!(pair[0] < pair[1]);
    }
}

#[test]
fn full_table() {
    let expected = vec![
        (F::Currency, U::Symbol),
        (F::OpeningQuotation, U::Punctuation),
        (F::ClosingQuotation, U::Punctuation),
        (F::Comma, U::Punctuation),
        (F::LeftRoundBracket, U::Punctuation),
        (F::RightRoundBracket, U::Punctuation),
        (F::SentenceCloser, U::Punctuation),
        (F::ColonOrEllipsis, U::Punctuation),
        (F::Email, U::Other),
        (F::Affix, U::Adjective),
        (F::CoordinatingConjunction, U::CoordinatingConjunction),
        (F::CardinalNumber, U::Numeral),
        (F::Determiner, U::Determiner),
        (F::ExistentialThere, U::Pronoun),
        (F::ForeignWord, U::Other),
        (F::AdditionalWord, U::Other),
        (F::Hyphen, U::Punctuation),
        (F::Conjunction, U::Adposition),
        (F::Adjective, U::Adjective),
        (F::Comparative, U::Adjective),
        (F::Superlative, U::Adjective),
        (F::ListItemMarker, U::Other),
        (F::ModalAuxiliary, U::Verb),
        (F::SuperfluousPunctuation, U::Punctuation),
        (F::MissingTag, U::Other),
        (F::NounSingularOrPlural, U::Noun),
        (F::NounProperSingular, U::ProperNoun),
        (F::NounProperPlural, U::ProperNoun),
        (F::NounPlural, U::Noun),
        (F::Predeterminer, U::Determiner),
        (F::PossessiveEnding, U::Particle),
        (F::PronounPersonal, U::Pronoun),
        (F::PronounPossessive, U::Determiner),
        (F::Adverb, U::Adverb),
        (F::AdverbComparative, U::Adverb),
        (F::AdverbSuperlative, U::Adverb),
        (F::AdverbParticle, U::Adposition),
        (F::Space, U::Space),
        (F::Symbol, U::Symbol),
        (F::InfinitivalTo, U::Particle),
        (F::Interjection, U::Interjection),
        (F::VerbBaseForm, U::Verb),
        (F::VerbPastTense, U::Verb),
        (F::VerbGerundOrPresentParticiple, U::Verb),
        (F::VerbNonThirdPersonSingularPresent, U::Verb),
        (F::WhDeterminer, U::Determiner),
        (F::WhPronounPersonal, U::Pronoun),
        (F::WhPronounPossessive, U::Determiner),
        (F::WhAdverb, U::Adverb),
        (F::Unknown, U::Other),
    ];
    let all = OntoNotes5::variants();
    assert_eq!(expected.len(), all.len());
    for (i, (fine, coarse)) in expected.into_iter().enumerate() {
        assert_eq!(all[i], fine);
        assert_eq!(project(fine), coarse);
    }
}

#[test]
fn auxiliary_and_conjunctions_have_no_fine_tag() {
    let image: HashSet<UniversalDependencies> =
        OntoNotes5::variants().into_iter().map(project).collect();
    assert!(!image.contains(&UniversalDependencies::Auxiliary));
    assert!(!image.contains(&UniversalDependencies::Conjunction));
    assert!(!image.contains(&UniversalDependencies::SubordinatingConjunction));
    assert_eq!(image.len(), 16);
}
