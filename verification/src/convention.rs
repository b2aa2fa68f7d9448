use crate::data::{
    block_first, card_models, card_pair, in_stage_block, loaded_stage, CardModel, Corpus,
    DocumentModel, ErrorModel, LearningDirection, StageDocument, StageEntry, StageModel,
    VocabularyCard,
};
use crate::language::Language;
use vstd::prelude::*;

verus! {

/// Whether the ids of a list of cards count up by one from `first`.
pub open spec fn numbered_from(cards: Seq<CardModel>, first: int) -> bool {
    forall|i: int| 0 <= i < cards.len() ==> (#[trigger] cards[i]).id == first + i
}

/// Whether the two documents of the stage with number `stage` are lists
/// of cards of one length, of twenty cards at most, whose ids count up
/// from the first id of the block of the stage.
pub open spec fn stage_follows_convention(entry: StageModel, stage: int) -> bool {
    match entry.spanish {
        DocumentModel::Cards(spanish) => match entry.english {
            DocumentModel::Cards(english) => {
                &&& spanish.len() == english.len()
                &&& spanish.len() <= 20
                &&& numbered_from(spanish, (stage - 1) * 20 + 1)
                &&& numbered_from(english, (stage - 1) * 20 + 1)
            },
            DocumentModel::Malformed(_) => false,
        },
        DocumentModel::Malformed(_) => false,
    }
}

/// Whether every stage of a corpus follows the convention on card ids:
/// stage `s` holds, in both languages, the ids from `(s - 1) * 20 + 1` on
/// in order, twenty at most.
pub open spec fn follows_convention(corpus: Seq<StageModel>) -> bool {
    forall|position: int|
        0 <= position < corpus.len() ==> stage_follows_convention(
            #[trigger] corpus[position],
            position + 1,
        )
}

/// Direction swaps the order of a pair, not the cards: the pair of one
/// direction is the pair of the other with source and target exchanged,
/// and where the one direction has no pair the other fails alike.
pub proof fn lemma_pair_alignment(corpus: Seq<StageModel>, stage: u32, card_index: nat)
    ensures
        (match card_pair(corpus, stage, card_index, LearningDirection::SpanishToEnglish) {
            Ok(pair) => card_pair(corpus, stage, card_index, LearningDirection::EnglishToSpanish)
                == Ok::<(CardModel, CardModel), ErrorModel>((pair.1, pair.0)),
            Err(error) => card_pair(
                corpus,
                stage,
                card_index,
                LearningDirection::EnglishToSpanish,
            ) == Err::<(CardModel, CardModel), ErrorModel>(error),
        }),
{
}

/// What loading gives from a corpus that follows the convention: a list
/// of twenty cards at most whose ids count up from the first id of the
/// block of the stage.
proof fn lemma_loaded_cards(corpus: Seq<StageModel>, stage: u32, language: Seq<char>)
    requires
        follows_convention(corpus),
        loaded_stage(corpus, stage, language) is Ok,
    ensures
        1 <= stage <= corpus.len(),
        loaded_stage(corpus, stage, language)->Ok_0.len() <= 20,
        numbered_from(loaded_stage(corpus, stage, language)->Ok_0, block_first(stage)),
{
    assert(stage_follows_convention(corpus[stage - 1], (stage - 1) + 1));
}

/// In a corpus that follows the convention, the two cards of a pair share
/// their id.
pub proof fn lemma_pair_shares_id(
    corpus: Seq<StageModel>,
    stage: u32,
    card_index: nat,
    direction: LearningDirection,
)
    requires
        follows_convention(corpus),
        card_pair(corpus, stage, card_index, direction) is Ok,
    ensures
        card_pair(corpus, stage, card_index, direction)->Ok_0.0.id == card_pair(
            corpus,
            stage,
            card_index,
            direction,
        )->Ok_0.1.id,
        card_pair(corpus, stage, card_index, direction)->Ok_0.0.id == block_first(stage)
            + card_index,
{
    lemma_loaded_cards(corpus, stage, Language::Spanish.code_text());
    lemma_loaded_cards(corpus, stage, Language::English.code_text());
}

/// In a corpus that follows the convention no id occurs twice in one
/// language: cards at two different places, in one stage or in two, have
/// different ids.
pub proof fn lemma_ids_are_unique(
    corpus: Seq<StageModel>,
    language: Seq<char>,
    first_stage: u32,
    first_index: int,
    second_stage: u32,
    second_index: int,
)
    requires
        follows_convention(corpus),
        loaded_stage(corpus, first_stage, language) is Ok,
        loaded_stage(corpus, second_stage, language) is Ok,
        0 <= first_index < loaded_stage(corpus, first_stage, language)->Ok_0.len(),
        0 <= second_index < loaded_stage(corpus, second_stage, language)->Ok_0.len(),
        first_stage != second_stage || first_index != second_index,
    ensures
        loaded_stage(corpus, first_stage, language)->Ok_0[first_index].id != loaded_stage(
            corpus,
            second_stage,
            language,
        )->Ok_0[second_index].id,
{
    lemma_loaded_cards(corpus, first_stage, language);
    lemma_loaded_cards(corpus, second_stage, language);
}

/// In a corpus that follows the convention every card that loading a
/// stage gives has its id in the block of that stage.
pub proof fn lemma_block_rule(
    corpus: Seq<StageModel>,
    stage: u32,
    language: Seq<char>,
    card_index: int,
)
    requires
        follows_convention(corpus),
        loaded_stage(corpus, stage, language) is Ok,
        0 <= card_index < loaded_stage(corpus, stage, language)->Ok_0.len(),
    ensures
        in_stage_block(stage, loaded_stage(corpus, stage, language)->Ok_0[card_index].id),
{
    lemma_loaded_cards(corpus, stage, language);
}

/// In a corpus that follows the convention the favorites view finds, for
/// a starred id of a stage, the pair of cards that carries that id.
pub proof fn lemma_favorite_finds_its_card(
    corpus: Seq<StageModel>,
    stage: u32,
    card_id: u32,
    direction: LearningDirection,
)
    requires
        follows_convention(corpus),
        in_stage_block(stage, card_id),
        card_pair(corpus, stage, (card_id - block_first(stage)) as nat, direction) is Ok,
    ensures
        card_pair(corpus, stage, (card_id - block_first(stage)) as nat, direction)->Ok_0.0.id
            == card_id,
{
    lemma_pair_shares_id(corpus, stage, (card_id - block_first(stage)) as nat, direction);
}

/// Whether the ids of the cards count up by one from `first`.
fn cards_numbered_from(cards: &Vec<VocabularyCard>, first: u128) -> (numbered: bool)
    requires
        first + cards@.len() <= u128::MAX,
    ensures
        numbered == numbered_from(card_models(cards@), first as int),
{
    let mut i: usize = 0;
    while i < cards.len()
        invariant
            i <= cards@.len(),
            first + cards@.len() <= u128::MAX,
            forall|k: int| 0 <= k < i ==> (#[trigger] card_models(cards@)[k]).id == first + k,
        decreases cards@.len() - i,
    {
        if cards[i].id as u128 != first + i as u128 {
            assert(card_models(cards@)[i as int].id != first + i);
            return false;
        }
        i += 1;
    }
    true
}

/// Whether the entry of the stage at `position` follows the convention.
fn entry_follows_convention(entry: &StageEntry, position: usize) -> (follows: bool)
    ensures
        follows == stage_follows_convention(entry@, position + 1),
{
    match &entry.spanish {
        StageDocument::Cards(spanish) => match &entry.english {
            StageDocument::Cards(english) => {
                let first: u128 = position as u128 * 20 + 1;
                spanish.len() == english.len() && spanish.len() <= 20 && cards_numbered_from(
                    spanish,
                    first,
                ) && cards_numbered_from(english, first)
            },
            StageDocument::Malformed(_) => false,
        },
        StageDocument::Malformed(_) => false,
    }
}

impl Corpus {
    /// Checks the corpus against the convention on card ids, on which the
    /// favorites view relies: every stage holds, in both languages, the
    /// same number of cards, twenty at most, and the card at position `i`
    /// of stage `s` has the id `(s - 1) * 20 + 1 + i`.
    pub fn follows_id_convention(&self) -> (follows: bool)
        ensures
            follows == follows_convention(self@),
    {
        let mut position: usize = 0;
        while position < self.stages.len()
            invariant
                position <= self.stages@.len(),
                forall|k: int|
                    0 <= k < position ==> stage_follows_convention(#[trigger] self@[k], k + 1),
            decreases self.stages@.len() - position,
        {
            if !entry_follows_convention(&self.stages[position], position) {
                assert(!stage_follows_convention(self@[position as int], position + 1));
                return false;
            }
            position += 1;
        }
        true
    }
}

} // verus!
