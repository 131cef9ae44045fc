//! State shared by the tags of a movie: the glyph count of each font seen so far.
use vstd::prelude::*;
use std::collections::HashMap;

verus! {

broadcast use vstd::std_specs::hash::group_hash_axioms;

/// Glyph counts by font id.
#[derive(Debug)]
pub struct ParseState {
    glyph_counts: HashMap<usize, usize>,
}

impl View for ParseState {
    type V = Map<usize, usize>;

    closed spec fn view(&self) -> Map<usize, usize> {
        self.glyph_counts@
    }
}

/// The glyph count recorded for a font, if any.
pub open spec fn glyph_count_of(counts: Map<usize, usize>, font_id: usize) -> Option<usize> {
    if counts.contains_key(font_id) { Some(counts[font_id]) } else { None }
}

impl ParseState {
    /// A state with no font.
    pub fn new() -> (s: ParseState)
        ensures
            s@ == Map::<usize, usize>::empty(),
    {
        ParseState { glyph_counts: HashMap::new() }
    }

    pub fn get_glyph_count(&self, font_id: usize) -> (r: Option<usize>)
        ensures
            r == glyph_count_of(self@, font_id),
    {
        match self.glyph_counts.get(&font_id) {
            Some(count) => Some(*count),
            None => None,
        }
    }

    /// Records the glyph count of a font, replacing any earlier count for it.
    pub fn set_glyph_count(&mut self, font_id: usize, glyph_count: usize)
        ensures
            final(self)@ == old(self)@.insert(font_id, glyph_count),
    {
        self.glyph_counts.insert(font_id, glyph_count);
    }
}

/// After the glyph count of a font is set, reading it gives that count, and the counts
/// of the other fonts are unchanged.
pub proof fn lemma_glyph_count_set_get(
    before: Map<usize, usize>,
    font_id: usize,
    glyph_count: usize,
    other_id: usize,
)
    ensures
        glyph_count_of(before.insert(font_id, glyph_count), font_id) == Some(glyph_count),
        other_id != font_id ==> glyph_count_of(before.insert(font_id, glyph_count), other_id)
            == glyph_count_of(before, other_id),
{
}

} // verus!
