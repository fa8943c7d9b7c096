//! The table through which the host machine finds this library's hints by
//! their identifier strings.

use vstd::prelude::*;

verus! {

/// The hint code of the `is_small` classification.
pub const NORMALIZE_ADDRESS_SET_IS_SMALL_HINT: &'static str =
    "# Verify the assumptions on the relationship between 2**250, ADDR_BOUND and PRIME.
ADDR_BOUND = ids.ADDR_BOUND % PRIME
assert (2**250 < ADDR_BOUND <= 2**251) and (2 * 2**250 < PRIME) and (
        ADDR_BOUND * 2 > PRIME), \\
    'normalize_address() cannot be used with the current constants.'
ids.is_small = 1 if ids.addr < ADDR_BOUND else 0";

/// The hint code of the `is_250` classification.
pub const NORMALIZE_ADDRESS_SET_IS_250_HINT: &'static str = "ids.is_250 = 1 if ids.addr < 2**250 else 0";

/// The hint code of the wide-integer division.
pub const ALON_HINT: &'static str = "a = (ids.a.high << 128) + ids.a.low
div = (ids.div.high << 128) + ids.div.low
quotient, remainder = divmod(a, div)

ids.quotient.low = quotient & ((1 << 128) - 1)
ids.quotient.high = quotient >> 128
ids.remainder.low = remainder & ((1 << 128) - 1)
ids.remainder.high = remainder >> 128";

/// The hints that this library adds to the host's table.
#[derive(Debug, Clone, Copy, PartialEq, Eq, Structural)]
pub enum CommonHint {
    NormalizeAddressSetIsSmall,
    NormalizeAddressSetIs250,
    Alon,
}

/// The hint that the insertions `entries`, in order, leave under `id`: the
/// last one made under it.
pub open spec fn lookup_spec(entries: Seq<(String, CommonHint)>, id: Seq<char>) -> Option<
    CommonHint,
>
    decreases entries.len(),
{
    if entries.len() == 0 {
        None
    } else if entries.last().0@ == id {
        Some(entries.last().1)
    } else {
        lookup_spec(entries.drop_last(), id)
    }
}

/// A dispatch table kept as the ordered list of its insertions; an insertion
/// under an identifier already present shadows the earlier one.
pub struct HintTable {
    entries: Vec<(String, CommonHint)>,
}

impl View for HintTable {
    type V = Seq<(String, CommonHint)>;

    closed spec fn view(&self) -> Seq<(String, CommonHint)> {
        self.entries@
    }
}

impl HintTable {
    /// The table with no entries.
    pub fn new() -> (r: HintTable)
        ensures
            r@ == Seq::<(String, CommonHint)>::empty(),
    {
        HintTable { entries: Vec::new() }
    }

    /// Adds `hint` under `id`, after every earlier insertion.
    pub fn insert(&mut self, id: String, hint: CommonHint)
        ensures
            final(self)@ == old(self)@.push((id, hint)),
    {
        self.entries.push((id, hint));
    }

    /// The insertions made so far, in order.
    pub fn entries(&self) -> (r: &Vec<(String, CommonHint)>)
        ensures
            r@ == self@,
    {
        &self.entries
    }

    /// The hint that the last insertion under `id` put there, if any.
    pub fn get(&self, id: &String) -> (r: Option<CommonHint>)
        ensures
            r == lookup_spec(self@, id@),
    {
        let mut i: usize = self.entries.len();
        proof {
            assert(self.entries@.subrange(0, i as int) =~= self.entries@);
        }
        while i > 0
            invariant
                i <= self.entries@.len(),
                lookup_spec(self.entries@, id@) == lookup_spec(self.entries@.subrange(0, i as int), id@),
            decreases i,
        {
            let ghost prefix = self.entries@.subrange(0, i as int);
            assert(prefix.drop_last() =~= self.entries@.subrange(0, i - 1));
            if self.entries[i - 1].0 == *id {
                return Some(self.entries[i - 1].1);
            }
            i = i - 1;
        }
        proof {
            assert(self.entries@.subrange(0, 0) =~= Seq::<(String, CommonHint)>::empty());
        }
        None
    }

    /// The number of insertions made.
    pub fn len(&self) -> (r: usize)
        ensures
            r == self@.len(),
    {
        self.entries.len()
    }
}

/// The table of this library's hints, keyed by their hint code.
pub fn extended_hint_table() -> (r: HintTable)
    ensures
        r@.len() == 3,
        r@[0].0@ == NORMALIZE_ADDRESS_SET_IS_SMALL_HINT@ && r@[0].1 == CommonHint::NormalizeAddressSetIsSmall,
        r@[1].0@ == NORMALIZE_ADDRESS_SET_IS_250_HINT@ && r@[1].1 == CommonHint::NormalizeAddressSetIs250,
        r@[2].0@ == ALON_HINT@ && r@[2].1 == CommonHint::Alon,
{
    let mut table = HintTable::new();
    table.insert(NORMALIZE_ADDRESS_SET_IS_SMALL_HINT.to_owned(), CommonHint::NormalizeAddressSetIsSmall);
    table.insert(NORMALIZE_ADDRESS_SET_IS_250_HINT.to_owned(), CommonHint::NormalizeAddressSetIs250);
    table.insert(ALON_HINT.to_owned(), CommonHint::Alon);
    table
}

/// After an insertion under `id`, looking `id` up gives the inserted hint,
/// whatever was there before; every other identifier keeps its hint.
pub proof fn lemma_last_insert_wins(
    entries: Seq<(String, CommonHint)>,
    id: String,
    hint: CommonHint,
    other: Seq<char>,
)
    ensures
        lookup_spec(entries.push((id, hint)), id@) == Some(hint),
        other != id@ ==> lookup_spec(entries.push((id, hint)), other) == lookup_spec(entries, other),
{
    assert(entries.push((id, hint)).drop_last() =~= entries);
}

} // verus!
