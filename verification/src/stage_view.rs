use crate::cursor::CardCursor;
use crate::data::{
    card_pair, error_message, get_card_pair, get_stage_card_count, pair_matches,
    stage_card_count, Corpus, ErrorModel, LearningDirection, ModelError, StageModel,
    VocabularyCard,
};
use crate::favorites::{toggled, FavoritesContext};
use vstd::prelude::*;
use vstd::string::*;

verus! {

/// The state of the view that shows the cards of one stage.
#[derive(Debug, Clone, Copy, PartialEq, Eq, Structural)]
pub struct StageCardsView {
    /// The stage that the URL names.
    pub stage: u32,
    /// The number of cards of the stage, as last loaded.
    pub card_count: usize,
    /// The card that is shown, with its reveal flags.
    pub cursor: CardCursor,
}

/// The number of cards that the view holds once it has asked the corpus
/// for the size of `stage`: that size, or the former number where the
/// corpus has no answer.
pub open spec fn count_after_load(corpus: Seq<StageModel>, stage: u32, former: usize) -> usize {
    match stage_card_count(corpus, stage) {
        Ok(count) => count as usize,
        Err(_) => former,
    }
}

/// The entry that the star of a stage view toggles: the stage with the id
/// of the source card, if there is a card under the cursor.
pub open spec fn starred_entry(
    corpus: Seq<StageModel>,
    view: StageCardsView,
    direction: LearningDirection,
) -> Option<(u32, u32)> {
    match card_pair(corpus, view.stage, view.cursor.index as nat, direction) {
        Ok(pair) => Some((view.stage, pair.0.id)),
        Err(_) => None,
    }
}

/// The line of the error pane of a stage view.
pub open spec fn error_notice_text(error: ErrorModel) -> Seq<char> {
    "Error loading cards: "@ + error_message(error)
}

impl StageCardsView {
    /// Whether the cursor points at a card of the stage, or rests at 0
    /// where the stage has none.
    pub open spec fn in_bounds(self) -> bool {
        self.cursor.within(self.card_count)
    }

    /// The view as it is mounted on a stage: on the first card with
    /// nothing revealed, and with the size of the stage where the corpus
    /// knows it, else with no cards.
    pub fn mount(corpus: &Corpus, stage: u32) -> (view: StageCardsView)
        ensures
            view.stage == stage,
            view.card_count == count_after_load(corpus@, stage, 0),
            view.cursor == CardCursor::at(0),
            view.in_bounds(),
    {
        let mut view = StageCardsView { stage: stage, card_count: 0, cursor: CardCursor::new() };
        view.change_stage(corpus, stage);
        view
    }

    /// Follows the URL to a stage: takes over the size of the stage where
    /// the corpus knows it, goes to the first card and hides example and
    /// translation.
    pub fn change_stage(&mut self, corpus: &Corpus, stage: u32)
        ensures
            final(self).stage == stage,
            final(self).card_count == count_after_load(corpus@, stage, old(self).card_count),
            final(self).cursor == CardCursor::at(0),
            final(self).in_bounds(),
    {
        self.stage = stage;
        match get_stage_card_count(corpus, stage) {
            Ok(count) => {
                self.card_count = count;
            },
            Err(_) => {},
        }
        self.cursor = CardCursor::new();
    }

    /// Steps to the next card of the stage and hides example and
    /// translation. On the last card nothing changes.
    pub fn go_next(&mut self)
        ensures
            final(self).stage == old(self).stage,
            final(self).card_count == old(self).card_count,
            final(self).cursor == old(self).cursor.after_next(old(self).card_count),
            old(self).in_bounds() ==> final(self).in_bounds(),
    {
        let mut cursor = self.cursor;
        cursor.next(self.card_count);
        self.cursor = cursor;
    }

    /// Steps to the previous card of the stage and hides example and
    /// translation. On the first card nothing changes.
    pub fn go_prev(&mut self)
        ensures
            final(self).stage == old(self).stage,
            final(self).card_count == old(self).card_count,
            final(self).cursor == old(self).cursor.after_prev(),
            old(self).in_bounds() ==> final(self).in_bounds(),
    {
        let mut cursor = self.cursor;
        cursor.prev();
        self.cursor = cursor;
    }

    /// The pair of cards under the cursor, the source card first.
    pub fn current_card(&self, corpus: &Corpus, direction: LearningDirection) -> (outcome: Result<
        (VocabularyCard, VocabularyCard),
        ModelError,
    >)
        ensures
            pair_matches(
                outcome,
                card_pair(corpus@, self.stage, self.cursor.index as nat, direction),
            ),
    {
        get_card_pair(corpus, self.stage, self.cursor.index, direction)
    }

    /// Toggles the star of the card under the cursor, under the id of its
    /// source card. Where the view has no card to show nothing changes.
    pub fn toggle_favorite(
        &self,
        favorites: &mut FavoritesContext,
        corpus: &Corpus,
        direction: LearningDirection,
    )
        ensures
            final(favorites)@ == (match starred_entry(corpus@, *self, direction) {
                Some(entry) => toggled(old(favorites)@, entry),
                None => old(favorites)@,
            }),
    {
        match self.current_card(corpus, direction) {
            Ok(pair) => {
                favorites.toggle(self.stage, pair.0.id);
            },
            Err(_) => {},
        }
    }

    /// Whether the card under the cursor is starred. Where the view has no
    /// card to show, nothing is.
    pub fn is_favorite(
        &self,
        favorites: &FavoritesContext,
        corpus: &Corpus,
        direction: LearningDirection,
    ) -> (starred: bool)
        ensures
            starred == (match starred_entry(corpus@, *self, direction) {
                Some(entry) => favorites@.contains(entry),
                None => false,
            }),
    {
        match self.current_card(corpus, direction) {
            Ok(pair) => favorites.is_favorite(self.stage, pair.0.id),
            Err(_) => false,
        }
    }
}

/// The line of the error pane that a stage view shows in place of a card.
pub fn error_notice(error: &ModelError) -> (text: String)
    ensures
        text@ == error_notice_text(error@),
{
    let mut text = String::from_str("Error loading cards: ");
    let message = error.message();
    text.append(message.as_str());
    text
}

} // verus!
