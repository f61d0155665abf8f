//! The set of types a clipboard offers.

use crate::text::{chars_eq, chars_of, lines, split_lines, views_of};
use vstd::prelude::*;

verus! {

/// The types that a clipboard offers for its current contents: tokens in the
/// order in which they were reported, repeats included.
///
/// Its view is the sequence of tokens, each a sequence of characters.
#[derive(Debug, Clone, PartialEq, Eq)]
pub struct TypeSet {
    tokens: Vec<Vec<char>>,
}

impl View for TypeSet {
    type V = Seq<Seq<char>>;

    closed spec fn view(&self) -> Seq<Seq<char>> {
        views_of(self.tokens@)
    }
}

impl TypeSet {
    /// Reads a listing with one token on each line. An empty listing offers
    /// nothing.
    pub fn parse(listing: &str) -> (types: TypeSet)
        ensures
            types@ == lines(listing@),
    {
        let chars = chars_of(listing);
        TypeSet { tokens: split_lines(chars.as_slice()) }
    }

    /// Takes the tokens as they are, one entry for each.
    pub fn from_tokens(tokens: &[&str]) -> (types: TypeSet)
        ensures
            types@ == tokens@.map_values(|token: &str| token@),
    {
        let mut held: Vec<Vec<char>> = Vec::new();
        let mut i: usize = 0;
        while i < tokens.len()
            invariant
                i <= tokens@.len(),
                views_of(held@) == tokens@.take(i as int).map_values(|token: &str| token@),
            decreases tokens@.len() - i,
        {
            let ghost before = views_of(held@);
            let entry = chars_of(tokens[i]);
            held.push(entry);
            i += 1;
            assert(tokens@.take(i as int).map_values(|token: &str| token@) =~= before.push(
                entry@,
            ));
        }
        TypeSet { tokens: held }
    }

    /// Number of entries, repeats counted.
    pub fn len(&self) -> (n: usize)
        ensures
            n == self@.len(),
    {
        self.tokens.len()
    }

    /// Whether nothing is offered.
    pub fn is_empty(&self) -> (empty: bool)
        ensures
            empty == (self@.len() == 0),
    {
        self.tokens.len() == 0
    }

    /// Whether `token` is offered: some entry equals it character for
    /// character. Case, white space and partial matches are not forgiven.
    pub fn has(&self, token: &str) -> (found: bool)
        ensures
            found == self@.contains(token@),
    {
        let wanted = chars_of(token);
        let mut i: usize = 0;
        while i < self.tokens.len()
            invariant
                i <= self.tokens@.len(),
                wanted@ == token@,
                forall|k: int| 0 <= k < i ==> self@[k] != token@,
            decreases self.tokens@.len() - i,
        {
            if chars_eq(self.tokens[i].as_slice(), wanted.as_slice()) {
                assert(self@[i as int] == token@);
                return true;
            }
            i += 1;
        }
        false
    }
}

} // verus!
