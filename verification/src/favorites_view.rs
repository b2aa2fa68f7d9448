use crate::convention::{follows_convention, lemma_block_rule, lemma_pair_shares_id};
use crate::cursor::CardCursor;
use crate::data::{
    block_first, card_pair, error_message, get_card_pair, in_stage_block, is_in_stage_block,
    lemma_block_names_stage, stage_relative_index, CardModel, Corpus, ErrorModel,
    LearningDirection, ModelError, StageModel, VocabularyCard,
};
use crate::favorites::{lemma_remove_entry, toggled, FavoritesContext};
use crate::language::Language;
use vstd::prelude::*;
use vstd::string::*;

verus! {

/// Whether the favorites view lists an entry: its stage is one of the
/// `stage_count` stages of the corpus and its id lies in the block of that
/// stage.
pub open spec fn listed(entry: (u32, u32), stage_count: nat) -> bool {
    entry.0 <= stage_count && in_stage_block(entry.0, entry.1)
}

/// The favorites that the view lists.
pub open spec fn working_set(favorites: Set<(u32, u32)>, stage_count: nat) -> Set<(u32, u32)> {
    favorites.filter(|entry: (u32, u32)| listed(entry, stage_count))
}

/// Whether the card ids of a list rise strictly from each entry to the next.
pub open spec fn ascending_by_id(list: Seq<(u32, u32)>) -> bool {
    forall|i: int, j: int| 0 <= i < j < list.len() ==> list[i].1 < list[j].1
}

/// Whether `list` holds exactly the favorites that the view lists, by
/// ascending card id.
pub open spec fn is_working_list(
    list: Seq<(u32, u32)>,
    favorites: Set<(u32, u32)>,
    stage_count: nat,
) -> bool {
    ascending_by_id(list) && list.to_set() == working_set(favorites, stage_count)
}

/// The working list of the favorites view: the favorites that the view
/// lists, by ascending card id. There is one such list and no other, by
/// `lemma_working_list_is_unique`.
pub open spec fn working_list(favorites: Set<(u32, u32)>, stage_count: nat) -> Seq<(u32, u32)> {
    choose|list: Seq<(u32, u32)>| is_working_list(list, favorites, stage_count)
}

/// Two lists with strictly rising card ids that hold the same entries are
/// the same list.
pub proof fn lemma_ascending_lists_agree(first: Seq<(u32, u32)>, second: Seq<(u32, u32)>)
    requires
        ascending_by_id(first),
        ascending_by_id(second),
        first.to_set() == second.to_set(),
    ensures
        first == second,
    decreases first.len(),
{
    if first.len() == 0 {
        if second.len() > 0 {
            assert(second.contains(second[0]));
            assert(second.to_set().contains(second[0]));
            assert(first.contains(second[0]));
        }
        assert(first =~= second);
    } else {
        assert(first.contains(first.last()));
        assert(first.to_set().contains(first.last()));
        assert(second.contains(first.last()));
        let j = choose|j: int| 0 <= j < second.len() && second[j] == first.last();
        assert(second.contains(second.last()));
        assert(second.to_set().contains(second.last()));
        assert(first.contains(second.last()));
        let k = choose|k: int| 0 <= k < first.len() && first[k] == second.last();
        assert(first.last() == second.last()) by {
            if k < first.len() - 1 {
                assert(first[k].1 < first[first.len() - 1].1);
                if j < second.len() - 1 {
                    assert(second[j].1 < second[second.len() - 1].1);
                }
            }
        }
        let shorter_first = first.drop_last();
        let shorter_second = second.drop_last();
        assert forall|entry: (u32, u32)|
            shorter_first.to_set().contains(entry) <==> shorter_second.to_set().contains(
                entry,
            ) by {
            if shorter_first.contains(entry) {
                let i = choose|i: int| 0 <= i < shorter_first.len() && shorter_first[i] == entry;
                assert(first[i] == entry);
                assert(first[i].1 < first[first.len() - 1].1);
                assert(first.contains(entry));
                assert(first.to_set().contains(entry));
                assert(second.contains(entry));
                let m = choose|m: int| 0 <= m < second.len() && second[m] == entry;
                assert(shorter_second[m] == entry);
            }
            if shorter_second.contains(entry) {
                let i = choose|i: int| 0 <= i < shorter_second.len() && shorter_second[i] == entry;
                assert(second[i] == entry);
                assert(second[i].1 < second[second.len() - 1].1);
                assert(second.contains(entry));
                assert(second.to_set().contains(entry));
                assert(first.contains(entry));
                let m = choose|m: int| 0 <= m < first.len() && first[m] == entry;
                assert(shorter_first[m] == entry);
            }
        }
        assert(shorter_first.to_set() =~= shorter_second.to_set());
        assert(ascending_by_id(shorter_first)) by {
            assert forall|a: int, b: int| 0 <= a < b < shorter_first.len() implies shorter_first[a].1
                < shorter_first[b].1 by {
                assert(first[a].1 < first[b].1);
            }
        }
        assert(ascending_by_id(shorter_second)) by {
            assert forall|a: int, b: int|
                0 <= a < b < shorter_second.len() implies shorter_second[a].1
                < shorter_second[b].1 by {
                assert(second[a].1 < second[b].1);
            }
        }
        lemma_ascending_lists_agree(shorter_first, shorter_second);
        assert(first =~= shorter_first.push(first.last()));
        assert(second =~= shorter_second.push(second.last()));
    }
}

/// A list that holds the listed favorites by ascending card id is the
/// working list.
pub proof fn lemma_working_list_is_unique(
    list: Seq<(u32, u32)>,
    favorites: Set<(u32, u32)>,
    stage_count: nat,
)
    requires
        is_working_list(list, favorites, stage_count),
    ensures
        list == working_list(favorites, stage_count),
{
    lemma_ascending_lists_agree(list, working_list(favorites, stage_count));
}

/// Puts an entry into a list with rising card ids, at the place that keeps
/// the ids rising.
fn insert_by_id(list: &mut Vec<(u32, u32)>, entry: (u32, u32))
    requires
        ascending_by_id(old(list)@),
        forall|k: int| 0 <= k < old(list)@.len() ==> old(list)@[k].1 != entry.1,
    ensures
        ascending_by_id(final(list)@),
        final(list)@.to_set() == old(list)@.to_set().insert(entry),
{
    let ghost before = list@;
    let mut place: usize = 0;
    while place < list.len() && list[place].1 < entry.1
        invariant
            list@ == before,
            place <= before.len(),
            forall|k: int| 0 <= k < place ==> before[k].1 < entry.1,
        decreases before.len() - place,
    {
        place += 1;
    }
    list.insert(place, entry);
    proof {
        let after = list@;
        before.insert_ensures(place as int, entry);
        assert(ascending_by_id(after)) by {
            assert forall|i: int, j: int| 0 <= i < j < after.len() implies after[i].1
                < after[j].1 by {
                if j < place {
                    assert(after[i] == before[i] && after[j] == before[j]);
                } else if j == place {
                    assert(after[i] == before[i]);
                } else {
                    assert(after[j] == before[j - 1]);
                    if i < place {
                        assert(after[i] == before[i]);
                        if place < j - 1 {
                            assert(before[place as int].1 < before[j - 1].1);
                        }
                    } else if i == place {
                        if place < j - 1 {
                            assert(before[place as int].1 < before[j - 1].1);
                        }
                    } else {
                        assert(after[i] == before[i - 1]);
                    }
                }
            }
        }
        assert forall|other: (u32, u32)| after.to_set().contains(other) <==> before.to_set().insert(
            entry,
        ).contains(other) by {
            if after.contains(other) {
                let i = choose|i: int| 0 <= i < after.len() && after[i] == other;
                if i < place {
                    assert(before[i] == other);
                } else if i > place {
                    assert(before[i - 1] == other);
                }
            }
            if other == entry {
                assert(after[place as int] == other);
            } else if before.contains(other) {
                let i = choose|i: int| 0 <= i < before.len() && before[i] == other;
                if i < place {
                    assert(after[i] == other);
                } else {
                    assert(after[i + 1] == other);
                }
            }
        }
        assert(after.to_set() =~= before.to_set().insert(entry));
    }
}

/// The working list of the favorites view: the starred cards whose stage is
/// one of the corpus and whose id lies in the block of that stage, sorted
/// by card id. Other starred cards are left out of the list; they stay in
/// the registry.
pub fn favorite_cards(favorites: &FavoritesContext, corpus: &Corpus) -> (list: Vec<(u32, u32)>)
    ensures
        list@ == working_list(favorites@, corpus@.len()),
        is_working_list(list@, favorites@, corpus@.len()),
{
    let all = favorites.get_all();
    let stage_count = corpus.stages.len();
    let mut list: Vec<(u32, u32)> = Vec::new();
    let mut i: usize = 0;
    assert(list@.to_set() =~= working_set(all@.subrange(0, 0).to_set(), stage_count as nat));
    while i < all.len()
        invariant
            i <= all@.len(),
            all@.no_duplicates(),
            stage_count == corpus@.len(),
            ascending_by_id(list@),
            list@.to_set() == working_set(all@.subrange(0, i as int).to_set(), stage_count as nat),
        decreases all@.len() - i,
    {
        let entry = all[i];
        let ghost seen = all@.subrange(0, i as int);
        let ghost longer = all@.subrange(0, i + 1);
        proof {
            assert(longer =~= seen.push(entry));
            assert forall|other: (u32, u32)| longer.to_set().contains(other) <==> seen.to_set().insert(
                entry,
            ).contains(other) by {
                if longer.contains(other) {
                    let k = choose|k: int| 0 <= k < longer.len() && longer[k] == other;
                    if k < i {
                        assert(seen[k] == other);
                    }
                }
                if other == entry {
                    assert(longer[i as int] == other);
                } else if seen.contains(other) {
                    let k = choose|k: int| 0 <= k < seen.len() && seen[k] == other;
                    assert(longer[k] == other);
                }
            }
            assert(longer.to_set() =~= seen.to_set().insert(entry));
        }
        if entry.0 as usize <= stage_count && is_in_stage_block(entry.0, entry.1) {
            proof {
                assert forall|k: int| 0 <= k < list@.len() implies list@[k].1 != entry.1 by {
                    if list@[k].1 == entry.1 {
                        assert(list@.contains(list@[k]));
                        assert(list@.to_set().contains(list@[k]));
                        assert(listed(list@[k], stage_count as nat));
                        lemma_block_names_stage(list@[k].0, entry.0, entry.1);
                        assert(list@[k] == entry);
                        assert(seen.contains(entry));
                        let m = choose|m: int| 0 <= m < seen.len() && seen[m] == entry;
                        assert(all@[m] == all@[i as int]);
                    }
                }
            }
            insert_by_id(&mut list, entry);
            assert(list@.to_set() =~= working_set(longer.to_set(), stage_count as nat));
        } else {
            assert(list@.to_set() =~= working_set(longer.to_set(), stage_count as nat));
        }
        i += 1;
    }
    proof {
        assert(all@.subrange(0, i as int) =~= all@);
        lemma_working_list_is_unique(list@, favorites@, corpus@.len());
    }
    list
}

/// Why the favorites view has no card to show.
#[derive(Debug, Clone, PartialEq, Eq)]
pub enum FavoritesError {
    /// The working list is empty, or the cursor is beyond its end.
    NoneAvailable,
    /// The model could not hand out the card.
    Model(ModelError),
}

/// An error of the favorites view, as plain values.
pub ghost enum FavoritesErrorModel {
    NoneAvailable,
    Model(ErrorModel),
}

impl View for FavoritesError {
    type V = FavoritesErrorModel;

    open spec fn view(&self) -> FavoritesErrorModel {
        match self {
            FavoritesError::NoneAvailable => FavoritesErrorModel::NoneAvailable,
            FavoritesError::Model(error) => FavoritesErrorModel::Model(error@),
        }
    }
}

/// The sentence that reports an error of the favorites view.
pub open spec fn favorites_error_message(error: FavoritesErrorModel) -> Seq<char> {
    match error {
        FavoritesErrorModel::NoneAvailable => "No favorites available"@,
        FavoritesErrorModel::Model(inner) => error_message(inner),
    }
}

impl FavoritesError {
    /// The sentence that reports this error to the learner.
    pub fn message(&self) -> (text: String)
        ensures
            text@ == favorites_error_message(self@),
    {
        match self {
            FavoritesError::NoneAvailable => String::from_str("No favorites available"),
            FavoritesError::Model(error) => error.message(),
        }
    }
}

/// The line of the empty state of the favorites view.
pub fn empty_notice() -> (text: &'static str)
    ensures
        text@ == "No favorites yet!"@,
{
    "No favorites yet!"
}

/// The line of the error pane that the favorites view shows in place of a
/// card.
pub fn favorites_error_notice(error: &FavoritesError) -> (text: String)
    ensures
        text@ == "Error loading card: "@ + favorites_error_message(error@),
{
    let mut text = String::from_str("Error loading card: ");
    let message = error.message();
    text.append(message.as_str());
    text
}

/// The card of the favorites view under position `index`: the stage of the
/// entry at that position of the working list, and the pair of cards that
/// the corpus holds at the place which the block rule derives from the id.
pub open spec fn favorite_at(
    favorites: Set<(u32, u32)>,
    corpus: Seq<StageModel>,
    index: usize,
    direction: LearningDirection,
) -> Result<(u32, CardModel, CardModel), FavoritesErrorModel> {
    let list = working_list(favorites, corpus.len());
    if index >= list.len() {
        Err(FavoritesErrorModel::NoneAvailable)
    } else {
        let entry = list[index as int];
        match card_pair(corpus, entry.0, (entry.1 - block_first(entry.0)) as nat, direction) {
            Ok(pair) => Ok((entry.0, pair.0, pair.1)),
            Err(error) => Err(FavoritesErrorModel::Model(error)),
        }
    }
}

/// Whether the card or the error that the favorites view handed out are
/// the expected ones, view for view.
pub open spec fn favorite_matches(
    outcome: Result<(u32, VocabularyCard, VocabularyCard), FavoritesError>,
    expected: Result<(u32, CardModel, CardModel), FavoritesErrorModel>,
) -> bool {
    match outcome {
        Ok(found) => expected == Ok::<(u32, CardModel, CardModel), FavoritesErrorModel>(
            (found.0, found.1@, found.2@),
        ),
        Err(error) => expected == Err::<(u32, CardModel, CardModel), FavoritesErrorModel>(error@),
    }
}

/// Taking one entry out of the favorites takes it out of the working list
/// and leaves the other entries of the list in their order.
pub proof fn lemma_working_list_after_removal(
    favorites: Set<(u32, u32)>,
    stage_count: nat,
    list: Seq<(u32, u32)>,
    index: int,
)
    requires
        is_working_list(list, favorites, stage_count),
        0 <= index < list.len(),
    ensures
        favorites.contains(list[index]),
        toggled(favorites, list[index]) == favorites.remove(list[index]),
        is_working_list(list.remove(index), favorites.remove(list[index]), stage_count),
        working_list(favorites.remove(list[index]), stage_count) == list.remove(index),
        list.remove(index).len() == list.len() - 1,
{
    let entry = list[index];
    let shorter = list.remove(index);
    assert(list.contains(entry));
    assert(list.to_set().contains(entry));
    assert(list.no_duplicates()) by {
        assert forall|a: int, b: int| 0 <= a < list.len() && 0 <= b < list.len() && a != b implies list[a]
            != list[b] by {
            if a < b {
                assert(list[a].1 < list[b].1);
            } else {
                assert(list[b].1 < list[a].1);
            }
        }
    }
    lemma_remove_entry(list, index);
    assert(shorter.to_set() =~= working_set(favorites.remove(entry), stage_count));
    assert(ascending_by_id(shorter)) by {
        assert forall|a: int, b: int| 0 <= a < b < shorter.len() implies shorter[a].1
            < shorter[b].1 by {
            let a0 = if a < index { a } else { a + 1 };
            let b0 = if b < index { b } else { b + 1 };
            assert(shorter[a] == list[a0]);
            assert(shorter[b] == list[b0]);
            assert(list[a0].1 < list[b0].1);
        }
    }
    lemma_working_list_is_unique(shorter, favorites.remove(entry), stage_count);
}

/// In a corpus that follows the convention on card ids, a card that is
/// starred under the id of its source card, as the stage view stars it, is
/// one that the favorites view lists, and the favorites view shows for it
/// the very pair of cards that the stage view showed.
pub proof fn lemma_starred_card_is_listed(
    corpus: Seq<StageModel>,
    favorites: Set<(u32, u32)>,
    stage: u32,
    card_index: nat,
    direction: LearningDirection,
)
    requires
        follows_convention(corpus),
        card_pair(corpus, stage, card_index, direction) is Ok,
        favorites.contains((stage, card_pair(corpus, stage, card_index, direction)->Ok_0.0.id)),
    ensures
        ({
            let card_id = card_pair(corpus, stage, card_index, direction)->Ok_0.0.id;
            &&& working_set(favorites, corpus.len()).contains((stage, card_id))
            &&& card_pair(corpus, stage, (card_id - block_first(stage)) as nat, direction)
                == card_pair(corpus, stage, card_index, direction)
        }),
{
    lemma_pair_shares_id(corpus, stage, card_index, direction);
    lemma_block_rule(corpus, stage, Language::Spanish.code_text(), card_index as int);
}

/// The state of the favorites view: the cursor over its working list.
#[derive(Debug, Clone, Copy, PartialEq, Eq, Structural)]
pub struct FavoritesView {
    pub cursor: CardCursor,
}

impl FavoritesView {
    /// The view as it opens: on the first card, with nothing revealed.
    pub fn new() -> (view: FavoritesView)
        ensures
            view.cursor == CardCursor::at(0),
    {
        FavoritesView { cursor: CardCursor::new() }
    }

    /// Whether the view has no card at all and shows its empty state.
    pub fn is_empty(favorites: &FavoritesContext, corpus: &Corpus) -> (empty: bool)
        ensures
            empty == (working_list(favorites@, corpus@.len()).len() == 0),
    {
        favorite_cards(favorites, corpus).len() == 0
    }

    /// The number of cards of the working list.
    pub fn card_count(favorites: &FavoritesContext, corpus: &Corpus) -> (count: usize)
        ensures
            count == working_list(favorites@, corpus@.len()).len(),
    {
        favorite_cards(favorites, corpus).len()
    }

    /// The stage of the card under the cursor with the pair of cards, the
    /// source card first; or the reason why there is none.
    pub fn current_card(
        &self,
        favorites: &FavoritesContext,
        corpus: &Corpus,
        direction: LearningDirection,
    ) -> (outcome: Result<(u32, VocabularyCard, VocabularyCard), FavoritesError>)
        ensures
            favorite_matches(
                outcome,
                favorite_at(favorites@, corpus@, self.cursor.index, direction),
            ),
    {
        let cards = favorite_cards(favorites, corpus);
        if self.cursor.index >= cards.len() {
            return Err(FavoritesError::NoneAvailable);
        }
        let entry = cards[self.cursor.index];
        proof {
            assert(cards@.contains(entry));
            assert(cards@.to_set().contains(entry));
        }
        let card_index = stage_relative_index(entry.0, entry.1);
        match get_card_pair(corpus, entry.0, card_index, direction) {
            Ok(pair) => Ok((entry.0, pair.0, pair.1)),
            Err(error) => Err(FavoritesError::Model(error)),
        }
    }

    /// Steps to the next card of the working list and hides example and
    /// translation. On the last card, and on an empty list, nothing changes.
    pub fn go_next(&mut self, favorites: &FavoritesContext, corpus: &Corpus)
        ensures
            final(self).cursor == old(self).cursor.after_next(
                working_list(favorites@, corpus@.len()).len() as usize,
            ),
            old(self).cursor.within(working_list(favorites@, corpus@.len()).len() as usize)
                ==> final(self).cursor.within(
                working_list(favorites@, corpus@.len()).len() as usize,
            ),
    {
        let cards = favorite_cards(favorites, corpus);
        let mut cursor = self.cursor;
        cursor.next(cards.len());
        self.cursor = cursor;
    }

    /// Steps to the previous card and hides example and translation. On the
    /// first card nothing changes.
    pub fn go_prev(&mut self)
        ensures
            final(self).cursor == old(self).cursor.after_prev(),
            forall|count: usize|
                old(self).cursor.within(count) ==> final(self).cursor.within(count),
    {
        let mut cursor = self.cursor;
        cursor.prev();
        self.cursor = cursor;
    }

    /// Takes the star away from the card under the cursor, which leaves the
    /// working list. The cursor stays on its position if the list still has
    /// one there, else it goes to the last card, or to 0 when the list is
    /// empty; example and translation are hidden. With no card under the
    /// cursor nothing changes.
    pub fn toggle_favorite(&mut self, favorites: &mut FavoritesContext, corpus: &Corpus)
        ensures
            ({
                let list = working_list(old(favorites)@, corpus@.len());
                let index = old(self).cursor.index as int;
                if index < list.len() {
                    &&& final(favorites)@ == old(favorites)@.remove(list[index])
                    &&& working_list(final(favorites)@, corpus@.len()) == list.remove(index)
                    &&& final(self).cursor == old(self).cursor.after_removal(
                        (list.len() - 1) as usize,
                    )
                    &&& final(self).cursor.within((list.len() - 1) as usize)
                } else {
                    &&& final(favorites)@ == old(favorites)@
                    &&& *final(self) == *old(self)
                }
            }),
    {
        let cards = favorite_cards(favorites, corpus);
        if self.cursor.index < cards.len() {
            let entry = cards[self.cursor.index];
            proof {
                lemma_working_list_after_removal(
                    favorites@,
                    corpus@.len(),
                    cards@,
                    self.cursor.index as int,
                );
            }
            favorites.toggle(entry.0, entry.1);
            let new_count = favorite_cards(favorites, corpus).len();
            let mut cursor = self.cursor;
            cursor.settle(new_count);
            self.cursor = cursor;
        }
    }
}

} // verus!
