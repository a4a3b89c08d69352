use vstd::prelude::*;

verus! {

/// Source of fresh local message identifiers.
///
/// Every call to [`IdGenerator::next`] returns the current counter value and
/// advances the counter by one, so within one process the identifiers handed
/// out are strictly increasing, never repeat, and skip no value.  Exhausting
/// the 64-bit space is not reachable in practice, so callers keep the counter
/// below `u64::MAX`.
pub struct IdGenerator {
    value: u64,
}

impl View for IdGenerator {
    type V = u64;

    closed spec fn view(&self) -> u64 {
        self.value
    }
}

/// One identifier hand-out: `id` is returned while the counter moves from
/// `pre` to `post`.  This is exactly the contract of [`IdGenerator::next`].
pub open spec fn hands_out(pre: u64, id: u64, post: u64) -> bool {
    &&& id == pre
    &&& post == pre + 1
}

impl Default for IdGenerator {
    /// A fresh generator; the first identifier it hands out is 0.
    fn default() -> (g: IdGenerator)
        ensures
            g@ == 0,
    {
        IdGenerator { value: 0 }
    }
}

impl IdGenerator {
    /// The next identifier to be handed out.
    pub fn current(&self) -> (c: u64)
        ensures
            c == self@,
    {
        self.value
    }

    /// Returns a fresh identifier, strictly greater than every identifier
    /// this generator has returned before.
    pub fn next(&mut self) -> (id: u64)
        requires
            old(self)@ < u64::MAX,
        ensures
            hands_out(old(self)@, id, final(self)@),
    {
        let id = self.value;
        self.value = self.value + 1;
        id
    }
}

/// The counter runs from `pre` to `post` while handing out exactly the
/// identifiers `ids`, one [`IdGenerator::next`] call each.
pub open spec fn hands_out_all(pre: u64, ids: Seq<u64>, post: u64) -> bool
    decreases ids.len(),
{
    if ids.len() == 0 {
        post == pre
    } else {
        &&& pre < u64::MAX
        &&& ids[0] == pre
        &&& hands_out_all((pre + 1) as u64, ids.drop_first(), post)
    }
}

/// Any run of sequential `next` calls yields identifiers that are exactly
/// `pre`, `pre + 1`, ... — strictly increasing, without duplicates, and with
/// no value skipped relative to the number of calls.
pub proof fn lemma_ids_monotonic(pre: u64, ids: Seq<u64>, post: u64)
    requires
        hands_out_all(pre, ids, post),
    ensures
        post == pre + ids.len(),
        forall|i: int| 0 <= i < ids.len() ==> ids[i] == pre + i,
        forall|i: int, j: int| 0 <= i < j < ids.len() ==> ids[i] < ids[j],
    decreases ids.len(),
{
    if ids.len() > 0 {
        lemma_ids_monotonic((pre + 1) as u64, ids.drop_first(), post);
        assert forall|i: int| 0 <= i < ids.len() implies ids[i] == pre + i by {
            if i > 0 {
                assert(ids.drop_first()[i - 1] == ids[i]);
            }
        }
    }
}

} // verus!
