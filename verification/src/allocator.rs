//! The namespace allocator: a one-byte counter that hands out a strictly
//! increasing sequence of storage key prefixes. The first 52 prefixes are the
//! ASCII letters `'A'..='Z'` then `'a'..='z'`; past `'z'` the sequence
//! continues into the following ASCII codes without any further skip.

use vstd::prelude::*;

verus! {

/// Hands out single-byte namespace prefixes, one per persistent collection,
/// so that several collections can share one key-value substrate without
/// key collisions.
pub struct IntoStorageKeyGenerator {
    /// The last ASCII code handed out (64, one below `'A'`, when fresh).
    pub ascii: u8,
}

/// One step of the prefix sequence: from `'Z'` (90) jump over the six
/// non-letter ASCII codes 91..=96 to `'a'` (97); otherwise advance by one.
pub open spec fn next_prefix(c: u8) -> u8
    recommends
        c < 255,
{
    if c == 90 {
        97
    } else {
        (c + 1) as u8
    }
}

/// The counter after `n` allocations from a fresh generator; for `n >= 1`
/// this is also the prefix returned by the `n`-th allocation.
pub open spec fn prefix_at(n: nat) -> u8
    decreases n,
{
    if n == 0 {
        64
    } else {
        next_prefix(prefix_at((n - 1) as nat))
    }
}

/// The prefix sequence in closed form: allocations 1..=26 return
/// `'A'..='Z'` (65..=90), and every later allocation up to the counter's
/// limit returns `70 + n` — so 27..=52 return `'a'..='z'` (97..=122), and
/// allocation 53 returns 123, past the letters, with no further skip.
pub proof fn lemma_prefix_sequence(n: nat)
    requires
        1 <= n <= 185,
    ensures
        n <= 26 ==> prefix_at(n) == 64 + n,
        27 <= n ==> prefix_at(n) == 70 + n,
    decreases n,
{
    if n == 1 {
        assert(prefix_at(1) == next_prefix(prefix_at(0)));
        assert(prefix_at(0) == 64);
    } else {
        lemma_prefix_sequence((n - 1) as nat);
    }
}

impl Default for IntoStorageKeyGenerator {
    /// A fresh generator starts at 64, one below `'A'`, so that the first
    /// allocation returns 65.
    fn default() -> (r: Self)
        ensures
            r.ascii == 64,
    {
        Self { ascii: 64 }
    }
}

impl IntoStorageKeyGenerator {
    /// Advance the counter one step along the prefix sequence and return the
    /// new value as a one-byte storage key.
    pub fn get_into_storage_key(&mut self) -> (r: Vec<u8>)
        requires
            old(self).ascii < 255,
        ensures
            final(self).ascii == next_prefix(old(self).ascii),
            r@ == seq![final(self).ascii],
    {
        if self.ascii == 90 {
            self.ascii += 6;
        }
        self.ascii += 1;
        vec![self.ascii]
    }
}

} // verus!
