use crate::language::Language;
use crate::text::{decimal, render_decimal, same_text};
use vstd::prelude::*;
use vstd::string::*;

verus! {

/// A single vocabulary card: a word and an example sentence under an
/// identifier that the card shares with its translation.
#[derive(Debug, Clone, PartialEq, Eq)]
pub struct VocabularyCard {
    pub id: u32,
    pub word: String,
    pub example: String,
}

/// What a card holds, as plain values.
pub ghost struct CardModel {
    pub id: u32,
    pub word: Seq<char>,
    pub example: Seq<char>,
}

impl View for VocabularyCard {
    type V = CardModel;

    open spec fn view(&self) -> CardModel {
        CardModel { id: self.id, word: self.word@, example: self.example@ }
    }
}

/// The models of a list of cards, in order.
pub open spec fn card_models(cards: Seq<VocabularyCard>) -> Seq<CardModel> {
    cards.map_values(|card: VocabularyCard| card@)
}

/// Language direction for learning: which language is shown first.
#[derive(Debug, Clone, Copy, PartialEq, Eq, Structural)]
pub enum LearningDirection {
    SpanishToEnglish,
    EnglishToSpanish,
}

/// Why the model could not hand out what was asked for.
#[derive(Debug, Clone, PartialEq, Eq)]
pub enum ModelError {
    /// The stage does not exist, or the language is not one of the corpus.
    StageNotFound { stage: u32, language: String },
    /// The document of the stage could not be read as a list of cards.
    ParseFailure { stage: u32, detail: String },
    /// The index lies beyond the end of the stage.
    OutOfBounds,
}

/// A model error, as plain values.
pub ghost enum ErrorModel {
    StageNotFound { stage: u32, language: Seq<char> },
    ParseFailure { stage: u32, detail: Seq<char> },
    OutOfBounds,
}

impl View for ModelError {
    type V = ErrorModel;

    open spec fn view(&self) -> ErrorModel {
        match self {
            ModelError::StageNotFound { stage, language } => ErrorModel::StageNotFound {
                stage: *stage,
                language: language@,
            },
            ModelError::ParseFailure { stage, detail } => ErrorModel::ParseFailure {
                stage: *stage,
                detail: detail@,
            },
            ModelError::OutOfBounds => ErrorModel::OutOfBounds,
        }
    }
}

/// The sentence that reports an error to the learner.
pub open spec fn error_message(error: ErrorModel) -> Seq<char> {
    match error {
        ErrorModel::StageNotFound { stage, language } => "Stage "@ + decimal(stage as nat)
            + " for language "@ + language + " not found"@,
        ErrorModel::ParseFailure { stage, detail } => "Failed to parse JSON for stage "@
            + decimal(stage as nat) + ": "@ + detail,
        ErrorModel::OutOfBounds => "Card index out of bounds"@,
    }
}

impl ModelError {
    /// The sentence that reports this error to the learner.
    pub fn message(&self) -> (text: String)
        ensures
            text@ == error_message(self@),
    {
        match self {
            ModelError::StageNotFound { stage, language } => {
                let mut text = String::from_str("Stage ");
                let number = render_decimal(*stage as u128);
                text.append(number.as_str());
                text.append(" for language ");
                text.append(language.as_str());
                text.append(" not found");
                text
            },
            ModelError::ParseFailure { stage, detail } => {
                let mut text = String::from_str("Failed to parse JSON for stage ");
                let number = render_decimal(*stage as u128);
                text.append(number.as_str());
                text.append(": ");
                text.append(detail.as_str());
                text
            },
            ModelError::OutOfBounds => String::from_str("Card index out of bounds"),
        }
    }
}

/// The document that the corpus holds for one stage in one language: the
/// cards that were read from it, or the reason why it could not be read.
#[derive(Debug, Clone, PartialEq, Eq)]
pub enum StageDocument {
    Cards(Vec<VocabularyCard>),
    Malformed(String),
}

/// A stage document, as plain values.
pub ghost enum DocumentModel {
    Cards(Seq<CardModel>),
    Malformed(Seq<char>),
}

impl View for StageDocument {
    type V = DocumentModel;

    open spec fn view(&self) -> DocumentModel {
        match self {
            StageDocument::Cards(cards) => DocumentModel::Cards(card_models(cards@)),
            StageDocument::Malformed(detail) => DocumentModel::Malformed(detail@),
        }
    }
}

/// The two documents of one stage. Position `i` of the one translates
/// position `i` of the other.
#[derive(Debug, Clone, PartialEq, Eq)]
pub struct StageEntry {
    pub spanish: StageDocument,
    pub english: StageDocument,
}

/// The two documents of a stage, as plain values.
pub ghost struct StageModel {
    pub spanish: DocumentModel,
    pub english: DocumentModel,
}

impl View for StageEntry {
    type V = StageModel;

    open spec fn view(&self) -> StageModel {
        StageModel { spanish: self.spanish@, english: self.english@ }
    }
}

/// The content store: the stages in order. Stage `s` is the entry at
/// position `s - 1`.
#[derive(Debug, Clone, PartialEq, Eq)]
pub struct Corpus {
    pub stages: Vec<StageEntry>,
}

impl View for Corpus {
    type V = Seq<StageModel>;

    open spec fn view(&self) -> Seq<StageModel> {
        self.stages@.map_values(|entry: StageEntry| entry@)
    }
}

/// The document that the corpus files under a stage and a language code, if
/// the stage is one of the corpus and the code is `es` or `en`.
pub open spec fn stage_document(
    corpus: Seq<StageModel>,
    stage: u32,
    language: Seq<char>,
) -> Option<DocumentModel> {
    if 1 <= stage && stage <= corpus.len() && language == Language::Spanish.code_text() {
        Some(corpus[stage - 1].spanish)
    } else if 1 <= stage && stage <= corpus.len() && language == Language::English.code_text() {
        Some(corpus[stage - 1].english)
    } else {
        None
    }
}

/// What loading a stage in a language gives: its cards in order, or the
/// error that says why there are none.
pub open spec fn loaded_stage(corpus: Seq<StageModel>, stage: u32, language: Seq<char>) -> Result<
    Seq<CardModel>,
    ErrorModel,
> {
    match stage_document(corpus, stage, language) {
        None => Err(ErrorModel::StageNotFound { stage, language }),
        Some(DocumentModel::Malformed(detail)) => Err(ErrorModel::ParseFailure { stage, detail }),
        Some(DocumentModel::Cards(cards)) => Ok(cards),
    }
}

/// The pair of cards at a position of a stage, the source card first.
pub open spec fn card_pair(
    corpus: Seq<StageModel>,
    stage: u32,
    card_index: nat,
    direction: LearningDirection,
) -> Result<(CardModel, CardModel), ErrorModel> {
    match loaded_stage(corpus, stage, Language::Spanish.code_text()) {
        Err(error) => Err(error),
        Ok(spanish) => match loaded_stage(corpus, stage, Language::English.code_text()) {
            Err(error) => Err(error),
            Ok(english) => if card_index >= spanish.len() || card_index >= english.len() {
                Err(ErrorModel::OutOfBounds)
            } else {
                match direction {
                    LearningDirection::SpanishToEnglish => Ok(
                        (spanish[card_index as int], english[card_index as int]),
                    ),
                    LearningDirection::EnglishToSpanish => Ok(
                        (english[card_index as int], spanish[card_index as int]),
                    ),
                }
            },
        },
    }
}

/// The number of cards of a stage: the length of its Spanish list.
pub open spec fn stage_card_count(corpus: Seq<StageModel>, stage: u32) -> Result<nat, ErrorModel> {
    match loaded_stage(corpus, stage, Language::Spanish.code_text()) {
        Err(error) => Err(error),
        Ok(spanish) => Ok(spanish.len()),
    }
}

/// Whether the cards or the error that a call handed out are the expected
/// ones, view for view.
pub open spec fn cards_match(
    outcome: Result<Vec<VocabularyCard>, ModelError>,
    expected: Result<Seq<CardModel>, ErrorModel>,
) -> bool {
    match outcome {
        Ok(cards) => expected == Ok::<Seq<CardModel>, ErrorModel>(card_models(cards@)),
        Err(error) => expected == Err::<Seq<CardModel>, ErrorModel>(error@),
    }
}

/// Whether the pair or the error that a call handed out are the expected
/// ones, view for view.
pub open spec fn pair_matches(
    outcome: Result<(VocabularyCard, VocabularyCard), ModelError>,
    expected: Result<(CardModel, CardModel), ErrorModel>,
) -> bool {
    match outcome {
        Ok(pair) => expected == Ok::<(CardModel, CardModel), ErrorModel>((pair.0@, pair.1@)),
        Err(error) => expected == Err::<(CardModel, CardModel), ErrorModel>(error@),
    }
}

/// Whether the count or the error that a call handed out are the expected
/// ones.
pub open spec fn count_matches(
    outcome: Result<usize, ModelError>,
    expected: Result<nat, ErrorModel>,
) -> bool {
    match outcome {
        Ok(count) => expected == Ok::<nat, ErrorModel>(count as nat),
        Err(error) => expected == Err::<nat, ErrorModel>(error@),
    }
}

/// The first card id of the block of twenty that belongs to a stage.
pub open spec fn block_first(stage: u32) -> int {
    (stage - 1) * 20 + 1
}

/// The last card id of the block of twenty that belongs to a stage.
pub open spec fn block_last(stage: u32) -> int {
    stage * 20
}

/// Whether a card id lies in the block of twenty that belongs to a stage.
/// Stages count from 1, so stage 0 has no block.
pub open spec fn in_stage_block(stage: u32, card_id: u32) -> bool {
    1 <= stage && block_first(stage) <= card_id && card_id <= block_last(stage)
}

/// A card id lies in the block of one stage at most.
pub proof fn lemma_block_names_stage(first: u32, second: u32, card_id: u32)
    requires
        in_stage_block(first, card_id),
        in_stage_block(second, card_id),
    ensures
        first == second,
{
}

/// Whether a card id lies in the block of twenty that belongs to a stage:
/// for stage `s`, the ids from `(s - 1) * 20 + 1` to `s * 20`.
pub fn is_in_stage_block(stage: u32, card_id: u32) -> (inside: bool)
    ensures
        inside == in_stage_block(stage, card_id),
{
    let last: u64 = stage as u64 * 20;
    let id: u64 = card_id as u64;
    stage >= 1 && last <= id + 19 && id <= last
}

/// The position inside its stage of the card with an id of the stage's
/// block: the distance of the id from the first id of the block.
pub fn stage_relative_index(stage: u32, card_id: u32) -> (index: usize)
    requires
        in_stage_block(stage, card_id),
    ensures
        index == card_id - block_first(stage),
        index < 20,
{
    let last: u64 = stage as u64 * 20;
    let id: u64 = card_id as u64;
    (id + 19 - last) as usize
}

fn copy_card(card: &VocabularyCard) -> (copy: VocabularyCard)
    ensures
        copy == *card,
{
    VocabularyCard { id: card.id, word: card.word.clone(), example: card.example.clone() }
}

fn copy_cards(cards: &Vec<VocabularyCard>) -> (copy: Vec<VocabularyCard>)
    ensures
        copy@ == cards@,
{
    let mut copy: Vec<VocabularyCard> = Vec::new();
    let mut i: usize = 0;
    while i < cards.len()
        invariant
            i <= cards.len(),
            copy@ == cards@.subrange(0, i as int),
        decreases cards.len() - i,
    {
        copy.push(copy_card(&cards[i]));
        assert(copy@ =~= cards@.subrange(0, i + 1));
        i += 1;
    }
    assert(copy@ =~= cards@);
    copy
}

/// Load vocabulary cards for a specific stage and language.
///
/// The stage must be one of the corpus and the language code `es` or `en`,
/// else the stage is reported as not found; a document that could not be
/// read is reported as a parse failure.
pub fn load_vocabulary_stage(corpus: &Corpus, stage: u32, language: &str) -> (outcome: Result<
    Vec<VocabularyCard>,
    ModelError,
>)
    ensures
        cards_match(outcome, loaded_stage(corpus@, stage, language@)),
{
    let spanish = same_text(language, Language::Spanish.code());
    let english = same_text(language, Language::English.code());
    if stage < 1 || stage as usize > corpus.stages.len() || !(spanish || english) {
        return Err(ModelError::StageNotFound { stage, language: String::from_str(language) });
    }
    let entry = &corpus.stages[(stage - 1) as usize];
    assert(corpus@[stage - 1] == entry@);
    let document = if spanish {
        &entry.spanish
    } else {
        &entry.english
    };
    match document {
        StageDocument::Cards(cards) => Ok(copy_cards(cards)),
        StageDocument::Malformed(detail) => Err(
            ModelError::ParseFailure { stage, detail: detail.clone() },
        ),
    }
}

/// Get a pair of cards (source and target language) for a specific stage and
/// card index.
pub fn get_card_pair(
    corpus: &Corpus,
    stage: u32,
    card_index: usize,
    direction: LearningDirection,
) -> (outcome: Result<(VocabularyCard, VocabularyCard), ModelError>)
    ensures
        pair_matches(outcome, card_pair(corpus@, stage, card_index as nat, direction)),
{
    let spanish_cards = match load_vocabulary_stage(corpus, stage, Language::Spanish.code()) {
        Ok(cards) => cards,
        Err(error) => {
            return Err(error);
        },
    };
    let english_cards = match load_vocabulary_stage(corpus, stage, Language::English.code()) {
        Ok(cards) => cards,
        Err(error) => {
            return Err(error);
        },
    };
    if card_index >= spanish_cards.len() || card_index >= english_cards.len() {
        return Err(ModelError::OutOfBounds);
    }
    let spanish = copy_card(&spanish_cards[card_index]);
    let english = copy_card(&english_cards[card_index]);
    match direction {
        LearningDirection::SpanishToEnglish => Ok((spanish, english)),
        LearningDirection::EnglishToSpanish => Ok((english, spanish)),
    }
}

/// Get total number of cards in a stage.
pub fn get_stage_card_count(corpus: &Corpus, stage: u32) -> (outcome: Result<usize, ModelError>)
    ensures
        count_matches(outcome, stage_card_count(corpus@, stage)),
{
    match load_vocabulary_stage(corpus, stage, Language::Spanish.code()) {
        Ok(cards) => Ok(cards.len()),
        Err(error) => Err(error),
    }
}

} // verus!
