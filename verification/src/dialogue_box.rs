//! Progress through the dialogue of a page: which line is shown and whether
//! it is shown whole yet.
use vstd::prelude::*;

use crate::dialogue::{Dialogue, DialogueFormatted};
use crate::text::fill_braces;

verus! {

/// The step after a press that moves the dialogue on, from line `step` of `len`
/// lines, shown whole or not yet: the new step, whether the new line is shown
/// whole, and whether the page is over.
///
/// A line that is still being typed out is first shown whole; a press on a
/// whole line moves to the next line, and after the last line the page is
/// over and the step goes back to 0.
pub open spec fn advance(step: nat, whole_text: bool, len: nat) -> (nat, bool, bool) {
    if whole_text {
        if step + 1 < len {
            ((step + 1) as nat, false, false)
        } else {
            (0, false, true)
        }
    } else {
        (step, true, false)
    }
}

/// The dialogue of a page and the progress through it.
pub struct DialogueState<'b> {
    dialogue: DialogueFormatted<'b>,
    whole_text: bool,
    dialogue_step: usize,
}

impl<'b> DialogueState<'b> {
    /// The line shown.
    pub closed spec fn step(&self) -> nat {
        self.dialogue_step as nat
    }

    /// The line shown is shown whole.
    pub closed spec fn whole(&self) -> bool {
        self.whole_text
    }

    /// The names of the speakers of the dialogue, step by step.
    pub closed spec fn names(&self) -> Seq<Seq<char>> {
        self.dialogue.names_view()
    }

    /// The lines of the dialogue, step by step.
    pub closed spec fn lines(&self) -> Seq<Seq<char>> {
        self.dialogue.lines_view()
    }

    /// No dialogue yet, at step `saved_step`.
    pub fn new(saved_step: usize) -> (r: DialogueState<'b>)
        ensures
            r.step() == saved_step,
            !r.whole(),
            r.names().len() == 0,
            r.lines().len() == 0,
    {
        DialogueState { dialogue: DialogueFormatted::empty(), whole_text: false, dialogue_step: saved_step }
    }

    /// Moves to line `step`.
    pub fn set_step(&mut self, step: usize)
        ensures
            final(self).step() == step,
            final(self).whole() == old(self).whole(),
            final(self).names() == old(self).names(),
            final(self).lines() == old(self).lines(),
    {
        self.dialogue_step = step;
    }

    /// The line shown.
    pub fn current_step(&self) -> (r: usize)
        ensures
            r == self.step(),
    {
        self.dialogue_step
    }

    /// Whether the line shown is shown whole.
    pub fn whole_text(&self) -> (r: bool)
        ensures
            r == self.whole(),
    {
        self.whole_text
    }

    /// Records whether the line shown is now shown whole.
    pub fn set_whole_text(&mut self, whole_text: bool)
        ensures
            final(self).whole() == whole_text,
            final(self).step() == old(self).step(),
            final(self).names() == old(self).names(),
            final(self).lines() == old(self).lines(),
    {
        self.whole_text = whole_text;
    }

    /// Shows `dialogue` with `user_name` filled in, from the current step,
    /// not yet whole. The step must lie within the new dialogue: it is set
    /// beforehand, most often back to 0 by the press that ended the last page.
    pub fn set_dialogue(&mut self, dialogue: &'b Dialogue, user_name: &str)
        requires
            old(self).step() < dialogue.view().len(),
        ensures
            final(self).step() == old(self).step(),
            !final(self).whole(),
            final(self).names() == dialogue.view().map_values(|e: (Seq<char>, Seq<char>)| e.0),
            final(self).lines() == dialogue.view().map_values(
                |e: (Seq<char>, Seq<char>)| fill_braces(e.1, user_name@),
            ),
    {
        self.dialogue = dialogue.format(user_name);
        self.whole_text = false;
    }

    /// The name of the speaker of the line shown.
    pub fn current_name(&self) -> (r: &str)
        requires
            self.step() < self.names().len(),
        ensures
            r@ == self.names()[self.step() as int],
    {
        self.dialogue.get_name(self.dialogue_step)
    }

    /// The line shown.
    pub fn current_line(&self) -> (r: &str)
        requires
            self.step() < self.lines().len(),
        ensures
            r@ == self.lines()[self.step() as int],
    {
        self.dialogue.get_line(self.dialogue_step)
    }

    /// A press that moves the dialogue on (see `advance`); says whether the
    /// page is over.
    pub fn next_page(&mut self) -> (r: bool)
        ensures
            (final(self).step(), final(self).whole(), r) == advance(
                old(self).step(),
                old(self).whole(),
                old(self).names().len(),
            ),
            final(self).names() == old(self).names(),
            final(self).lines() == old(self).lines(),
    {
        if self.whole_text {
            self.whole_text = false;
            let len = self.dialogue.len();
            if len > 0 && self.dialogue_step < len - 1 {
                self.dialogue_step = self.dialogue_step + 1;
                false
            } else {
                self.dialogue_step = 0;
                true
            }
        } else {
            self.whole_text = true;
            false
        }
    }
}

/// Two presses on a line that is being typed out show the next line, being
/// typed out, without ending the page.
pub proof fn lemma_two_presses_next_line(step: nat, len: nat)
    requires
        step + 1 < len,
    ensures
        advance(step, false, len) == (step, true, false),
        advance(step, true, len) == ((step + 1) as nat, false, false),
{
}

/// A press on the last line, shown whole, ends the page and goes back to the
/// first line.
pub proof fn lemma_last_line_ends_page(len: nat)
    requires
        len > 0,
    ensures
        advance((len - 1) as nat, true, len) == (0nat, false, true),
{
}

/// Whatever the state, the step after a press is within the dialogue when
/// the dialogue has lines and the step was within it.
pub proof fn lemma_advance_stays_within(step: nat, whole_text: bool, len: nat)
    requires
        step < len,
    ensures
        advance(step, whole_text, len).0 < len,
{
}

} // verus!
