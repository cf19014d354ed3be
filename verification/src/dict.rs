//! The emoji dictionary: shortcodes and the glyphs they stand for.

use vstd::prelude::*;

verus! {

/// A mapping from emoji shortcode to glyph, immutable once built.
///
/// Entries keep the order in which they were parsed; a shortcode's glyph is
/// the one of its first entry.
pub struct EmojiDict {
    pub entries: Vec<(String, String)>,
}

impl EmojiDict {
    /// The entries as pairs of character sequences, in order.
    pub open spec fn spec_pairs(&self) -> Seq<(Seq<char>, Seq<char>)> {
        self.entries@.map_values(|e: (String, String)| (e.0@, e.1@))
    }

    /// Whether some entry has the shortcode `code`.
    pub open spec fn spec_has_code(&self, code: Seq<char>) -> bool {
        exists|i: int| 0 <= i < self.entries@.len() && self.entries@[i].0@ == code
    }

    pub fn new() -> (d: EmojiDict)
        ensures
            d.entries@.len() == 0,
    {
        EmojiDict { entries: Vec::new() }
    }

    /// Append an entry mapping `code` to `glyph`.
    pub fn push_entry(&mut self, code: String, glyph: String)
        ensures
            final(self).entries@ == old(self).entries@.push((code, glyph)),
    {
        self.entries.push((code, glyph));
    }

    pub fn len(&self) -> (n: usize)
        ensures
            n == self.entries@.len(),
    {
        self.entries.len()
    }

    /// Whether the dictionary knows the shortcode `code`.
    pub fn contains_code(&self, code: &String) -> (b: bool)
        ensures
            b == self.spec_has_code(code@),
    {
        let mut i: usize = 0;
        while i < self.entries.len()
            invariant
                0 <= i <= self.entries@.len(),
                forall|k: int| 0 <= k < i ==> self.entries@[k].0@ != code@,
            decreases self.entries@.len() - i,
        {
            if self.entries[i].0 == *code {
                return true;
            }
            i += 1;
        }
        false
    }

    /// The glyph of the first entry whose shortcode is `code`, if any.
    pub fn lookup(&self, code: &String) -> (r: Option<&String>)
        ensures
            r is Some <==> self.spec_has_code(code@),
            r matches Some(g) ==> exists|i: int|
                0 <= i < self.entries@.len() && self.entries@[i].0@ == code@ && (
                #[trigger] self.entries@[i]).1@ == g@ && forall|k: int|
                    0 <= k < i ==> self.entries@[k].0@ != code@,
    {
        let mut i: usize = 0;
        while i < self.entries.len()
            invariant
                0 <= i <= self.entries@.len(),
                forall|k: int| 0 <= k < i ==> self.entries@[k].0@ != code@,
            decreases self.entries@.len() - i,
        {
            if self.entries[i].0 == *code {
                return Some(&self.entries[i].1);
            }
            i += 1;
        }
        None
    }
}

} // verus!
