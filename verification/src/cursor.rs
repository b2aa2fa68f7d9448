use vstd::prelude::*;

verus! {

/// The position in a list of cards, with the two reveal flags of the card
/// that is shown there.
#[derive(Debug, Clone, Copy, PartialEq, Eq, Structural)]
pub struct CardCursor {
    /// Zero-based position of the card that is shown.
    pub index: usize,
    /// Whether the example sentence of the card is visible.
    pub example_shown: bool,
    /// Whether the translation of the card is visible.
    pub translation_shown: bool,
}

impl CardCursor {
    /// The cursor on position `index`, with nothing revealed.
    pub open spec fn at(index: usize) -> CardCursor {
        CardCursor { index, example_shown: false, translation_shown: false }
    }

    /// Whether the cursor points into a list of `count` cards; on an empty
    /// list it rests at position 0.
    pub open spec fn within(self, count: usize) -> bool {
        if count == 0 {
            self.index == 0
        } else {
            self.index < count
        }
    }

    /// Whether neither the example nor the translation is visible.
    pub open spec fn concealed(self) -> bool {
        !self.example_shown && !self.translation_shown
    }

    /// The cursor after a step forward in a list of `count` cards: one
    /// position on with nothing revealed, or unchanged on the last card.
    pub open spec fn after_next(self, count: usize) -> CardCursor {
        if self.index + 1 < count {
            CardCursor::at((self.index + 1) as usize)
        } else {
            self
        }
    }

    /// The cursor after a step back: one position back with nothing
    /// revealed, or unchanged on the first card.
    pub open spec fn after_prev(self) -> CardCursor {
        if self.index > 0 {
            CardCursor::at((self.index - 1) as usize)
        } else {
            self
        }
    }

    /// The cursor after the card under it was taken out of the list, which
    /// now has `count` cards: it stays where it was if that is still a
    /// position of the list, else it goes to the last card, or to 0 on an
    /// empty list. Nothing is revealed.
    pub open spec fn after_removal(self, count: usize) -> CardCursor {
        if count == 0 {
            CardCursor::at(0)
        } else if self.index >= count {
            CardCursor::at((count - 1) as usize)
        } else {
            CardCursor::at(self.index)
        }
    }

    /// The cursor of a card view that is handed position `index`: if that is
    /// another position than before, nothing is revealed any more; if it is
    /// the same, nothing changes.
    pub open spec fn after_show(self, index: usize) -> CardCursor {
        if index != self.index {
            CardCursor::at(index)
        } else {
            self
        }
    }

    /// The cursor on the first card, with nothing revealed.
    pub fn new() -> (cursor: CardCursor)
        ensures
            cursor == CardCursor::at(0),
    {
        CardCursor { index: 0, example_shown: false, translation_shown: false }
    }

    /// Whether the cursor is on the first card, where a step back changes
    /// nothing.
    pub fn at_first(&self) -> (first: bool)
        ensures
            first == (self.index == 0),
            first ==> self.after_prev() == *self,
    {
        self.index == 0
    }

    /// Whether the cursor is on the last card of a list of `count` cards, or
    /// beyond it, where a step forward changes nothing.
    pub fn at_last(&self, count: usize) -> (last: bool)
        ensures
            last == (self.index + 1 >= count),
            last ==> self.after_next(count) == *self,
    {
        count == 0 || self.index >= count - 1
    }

    /// Steps to the next card of a list of `count` cards and hides example
    /// and translation. On the last card, and on an empty list, nothing
    /// changes.
    pub fn next(&mut self, count: usize)
        ensures
            *final(self) == old(self).after_next(count),
            old(self).within(count) ==> final(self).within(count),
            final(self).index != old(self).index ==> final(self).concealed(),
    {
        if count > 0 && self.index < count - 1 {
            self.index = self.index + 1;
            self.example_shown = false;
            self.translation_shown = false;
        }
    }

    /// Steps to the previous card and hides example and translation. On the
    /// first card nothing changes.
    pub fn prev(&mut self)
        ensures
            *final(self) == old(self).after_prev(),
            forall|count: usize| old(self).within(count) ==> final(self).within(count),
            final(self).index != old(self).index ==> final(self).concealed(),
    {
        if self.index > 0 {
            self.index = self.index - 1;
            self.example_shown = false;
            self.translation_shown = false;
        }
    }

    /// Makes the example sentence visible. The translation stays as it was.
    pub fn reveal_example(&mut self)
        ensures
            *final(self) == (CardCursor { example_shown: true, ..*old(self) }),
    {
        self.example_shown = true;
    }

    /// Makes the translation visible. The example stays as it was.
    pub fn reveal_translation(&mut self)
        ensures
            *final(self) == (CardCursor { translation_shown: true, ..*old(self) }),
    {
        self.translation_shown = true;
    }

    /// Takes over the position that a card view is handed. A change of
    /// position hides example and translation; the same position leaves them
    /// as they are.
    pub fn show(&mut self, index: usize)
        ensures
            *final(self) == old(self).after_show(index),
            final(self).index == index,
            final(self).index != old(self).index ==> final(self).concealed(),
    {
        if index != self.index {
            self.index = index;
            self.example_shown = false;
            self.translation_shown = false;
        }
    }

    /// Settles the cursor after the card under it left the list, which now
    /// has `count` cards, and hides example and translation.
    pub fn settle(&mut self, count: usize)
        ensures
            *final(self) == old(self).after_removal(count),
            final(self).within(count),
            final(self).concealed(),
    {
        if count == 0 {
            self.index = 0;
        } else if self.index >= count {
            self.index = count - 1;
        }
        self.example_shown = false;
        self.translation_shown = false;
    }
}

/// One click on the navigation of a card view.
pub ghost enum Step {
    Next,
    Prev,
}

/// The cursor after a run of clicks on the navigation of a list of `count`
/// cards, the first click first.
pub open spec fn after_steps(cursor: CardCursor, steps: Seq<Step>, count: usize) -> CardCursor
    decreases steps.len(),
{
    if steps.len() == 0 {
        cursor
    } else {
        let before = after_steps(cursor, steps.drop_last(), count);
        match steps.last() {
            Step::Next => before.after_next(count),
            Step::Prev => before.after_prev(),
        }
    }
}

/// A step forward or back keeps a cursor inside its list.
pub proof fn lemma_steps_stay_within(cursor: CardCursor, count: usize)
    requires
        cursor.within(count),
    ensures
        cursor.after_next(count).within(count),
        cursor.after_prev().within(count),
{
}

/// Through any run of steps forward and back a cursor stays inside its
/// list; and if the run ends on another position than it began, the card
/// there shows neither example nor translation.
pub proof fn lemma_walk_stays_within(cursor: CardCursor, steps: Seq<Step>, count: usize)
    requires
        cursor.within(count),
    ensures
        after_steps(cursor, steps, count).within(count),
        after_steps(cursor, steps, count).index != cursor.index ==> after_steps(
            cursor,
            steps,
            count,
        ).concealed(),
    decreases steps.len(),
{
    if steps.len() > 0 {
        lemma_walk_stays_within(cursor, steps.drop_last(), count);
    }
}

/// A step forward on the last card changes nothing, and neither does a step
/// back on the first card.
pub proof fn lemma_steps_at_the_ends(cursor: CardCursor, count: usize)
    ensures
        cursor.index + 1 == count ==> cursor.after_next(count) == cursor,
        cursor.index == 0 ==> cursor.after_prev() == cursor,
{
}

/// Whenever a step moves the cursor, the card it arrives at shows neither
/// example nor translation.
pub proof fn lemma_moves_conceal(cursor: CardCursor, count: usize)
    ensures
        cursor.after_next(count).index != cursor.index ==> cursor.after_next(count).concealed(),
        cursor.after_prev().index != cursor.index ==> cursor.after_prev().concealed(),
        cursor.after_removal(count).concealed(),
{
}

} // verus!
