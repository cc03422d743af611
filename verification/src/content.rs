//! Content tables: ordered, never empty, and read cyclically, so that a
//! campaign of any length has content for each of its items.

use crate::text::texts;
use vstd::prelude::*;

verus! {

/// An ordered table of payloads with at least one entry.
pub struct ContentTable {
    entries: Vec<String>,
}

impl View for ContentTable {
    type V = Seq<Seq<char>>;

    closed spec fn view(&self) -> Seq<Seq<char>> {
        texts(self.entries@)
    }
}

impl ContentTable {
    #[verifier::type_invariant]
    spec fn inv(&self) -> bool {
        self.entries@.len() > 0
    }

    /// A table of the given entries; an empty list makes no table.
    pub fn new(entries: Vec<String>) -> (r: Option<ContentTable>)
        ensures
            match r {
                Some(t) => entries@.len() > 0 && t@ == texts(entries@),
                None => entries@.len() == 0,
            },
    {
        if entries.len() == 0 {
            None
        } else {
            Some(ContentTable { entries })
        }
    }

    /// The number of entries, which is never zero.
    pub fn len(&self) -> (n: usize)
        ensures
            n == self@.len(),
            n > 0,
    {
        proof {
            use_type_invariant(self);
        }
        self.entries.len()
    }

    /// The entry for item `index`: the table is read cyclically, so that
    /// item `index` has entry `index % len`.
    pub fn select(&self, index: usize) -> (s: &str)
        ensures
            self@.len() > 0,
            s@ == self@[slot(index as nat, self@.len())],
    {
        proof {
            use_type_invariant(self);
        }
        let n = self.entries.len();
        self.entries[index % n].as_str()
    }
}

/// The place in a table of `len` entries that item `index` reads.
pub open spec fn slot(index: nat, len: nat) -> int {
    (index as int) % (len as int)
}

/// The lines of the built-in text table.
pub open spec fn default_texts() -> Seq<Seq<char>> {
    seq![
        "Spam"@,
        "More spam"@,
        "Spam, spam, spam"@,
        "Lovely spam"@,
        "Wonderful spam"@,
        "Spam, egg, sausage and spam"@,
    ]
}

/// The media addresses of the built-in sticker table.
pub open spec fn default_stickers() -> Seq<Seq<char>> {
    seq!["mxc://spiritcroc.de/mkJFKqrNzBGBcILPTIPlTPOV"@]
}

/// The built-in text table.
pub fn default_text_table() -> (t: ContentTable)
    ensures
        t@ == default_texts(),
{
    let mut entries: Vec<String> = Vec::new();
    entries.push(String::from_str("Spam"));
    entries.push(String::from_str("More spam"));
    entries.push(String::from_str("Spam, spam, spam"));
    entries.push(String::from_str("Lovely spam"));
    entries.push(String::from_str("Wonderful spam"));
    entries.push(String::from_str("Spam, egg, sausage and spam"));
    proof {
        assert(texts(entries@) =~= default_texts());
    }
    ContentTable { entries }
}

/// The built-in sticker table.
pub fn default_sticker_table() -> (t: ContentTable)
    ensures
        t@ == default_stickers(),
{
    let mut entries: Vec<String> = Vec::new();
    entries.push(String::from_str("mxc://spiritcroc.de/mkJFKqrNzBGBcILPTIPlTPOV"));
    proof {
        assert(texts(entries@) =~= default_stickers());
    }
    ContentTable { entries }
}

/// Selection is cyclic: items a whole number of table lengths apart have
/// the same entry, and an item within the table has its own.
pub proof fn lemma_selection_cyclic(table: Seq<Seq<char>>, i: nat, rounds: nat)
    requires
        table.len() > 0,
    ensures
        0 <= slot(i, table.len()) < table.len(),
        table[slot(i + rounds * table.len(), table.len())] == table[slot(i, table.len())],
        i < table.len() ==> slot(i, table.len()) == i,
{
    let n = table.len() as int;
    vstd::arithmetic::div_mod::lemma_mod_multiples_vanish(rounds as int, i as int, n);
    vstd::arithmetic::mul::lemma_mul_is_commutative(rounds as int, n);
    if i < n {
        vstd::arithmetic::div_mod::lemma_small_mod(i, n as nat);
    }
}

} // verus!
