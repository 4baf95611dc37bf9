//! What the story page shares with the rest of the reader: the choices on
//! show, the paragraph to go to, the countdowns, and whether the current
//! chapter is the settings chapter.

use vstd::prelude::*;
use crate::story_content::Choice;

verus! {

/// The story page's shared state.
#[derive(Debug)]
pub struct StoryContext {
    pub current_choices: Vec<Choice>,
    pub target_paragraph_id: Option<String>,
    pub countdowns: Vec<u32>,
    pub is_settings_chapter: bool,
    pub choice_ids: Vec<String>,
}

impl StoryContext {
    /// Nothing on show, no target, not the settings chapter.
    pub fn new() -> (r: Self)
        ensures
            r.current_choices@.len() == 0,
            r.target_paragraph_id is None,
            r.countdowns@.len() == 0,
            !r.is_settings_chapter,
            r.choice_ids@.len() == 0,
    {
        StoryContext {
            current_choices: Vec::new(),
            target_paragraph_id: None,
            countdowns: Vec::new(),
            is_settings_chapter: false,
            choice_ids: Vec::new(),
        }
    }

    /// Marks whether the current chapter is the settings chapter.
    pub fn set_is_settings_chapter(&mut self, value: bool)
        ensures
            final(self).is_settings_chapter == value,
            final(self).current_choices@ == old(self).current_choices@,
            final(self).target_paragraph_id == old(self).target_paragraph_id,
            final(self).countdowns@ == old(self).countdowns@,
            final(self).choice_ids@ == old(self).choice_ids@,
    {
        self.is_settings_chapter = value;
    }

    /// Whether the current chapter is the settings chapter.
    pub fn is_settings_chapter(&self) -> (b: bool)
        ensures
            b == self.is_settings_chapter,
    {
        self.is_settings_chapter
    }
}

} // verus!
