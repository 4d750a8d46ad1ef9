//! The association store: two independent directional mappings, token to
//! owner and owner to token, each rooted at its own namespace prefix in the
//! host's key-value substrate. A single write operation updates both
//! directions by unconditional overwrite; lookups that miss return a
//! sentinel string rather than an explicit absence signal.

use vstd::prelude::*;

use crate::allocator::IntoStorageKeyGenerator;
use crate::storage_map::{StringMap, map_contents, map_get, map_insert, map_new, map_prefix, no_entries};
use vstd::string::StringExecFns;

verus! {

/// Records which owner holds which token and lets either identifier be
/// looked up from the other. The two directions are maintained
/// independently: a write overwrites one entry in each map and never clears
/// a stale entry left behind by an earlier write (see `lemma_stale_forward_entry`).
pub struct TokenOwners {
    owners_to_tokens: StringMap,
    tokens_to_owners: StringMap,
    into_storage_key_generator: IntoStorageKeyGenerator,
}

impl TokenOwners {
    /// The owner-to-token direction, as a mathematical map over views.
    pub closed spec fn owner_to_token(self) -> Map<Seq<char>, Seq<char>> {
        map_contents(self.owners_to_tokens)
    }

    /// The token-to-owner direction, as a mathematical map over views.
    pub closed spec fn token_to_owner(self) -> Map<Seq<char>, Seq<char>> {
        map_contents(self.tokens_to_owners)
    }

    /// The namespace prefix the owner-to-token map is rooted at.
    pub closed spec fn owner_to_token_prefix(self) -> Seq<u8> {
        map_prefix(self.owners_to_tokens)
    }

    /// The namespace prefix the token-to-owner map is rooted at.
    pub closed spec fn token_to_owner_prefix(self) -> Seq<u8> {
        map_prefix(self.tokens_to_owners)
    }

    /// The state of the store's namespace allocator.
    pub closed spec fn allocator(self) -> IntoStorageKeyGenerator {
        self.into_storage_key_generator
    }
}

impl Default for TokenOwners {
    /// A fresh store: both directions empty, `owners_to_tokens` rooted at
    /// prefix 65 (`'A'`) and `tokens_to_owners` at prefix 66 (`'B'`), in
    /// that allocation order, with the allocator resting at 66.
    fn default() -> (r: Self)
        ensures
            r.owner_to_token() == no_entries(),
            r.token_to_owner() == no_entries(),
            r.owner_to_token_prefix() == seq![65u8],
            r.token_to_owner_prefix() == seq![66u8],
            r.allocator().ascii == 66,
    {
        let mut gen: IntoStorageKeyGenerator = IntoStorageKeyGenerator::default();
        let first_prefix = gen.get_into_storage_key();
        let second_prefix = gen.get_into_storage_key();
        Self {
            owners_to_tokens: map_new(first_prefix),
            tokens_to_owners: map_new(second_prefix),
            into_storage_key_generator: gen,
        }
    }
}

impl TokenOwners {
    /// Record that `token_id` belongs to `account_id`: overwrite the entry
    /// for `token_id` in the token-to-owner map and the entry for
    /// `account_id` in the owner-to-token map. The two writes are
    /// independent; no other entry of either map is touched.
    pub fn set_info(&mut self, token_id: &String, account_id: &String)
        ensures
            final(self).token_to_owner() == old(self).token_to_owner().insert(
                token_id@,
                account_id@,
            ),
            final(self).owner_to_token() == old(self).owner_to_token().insert(
                account_id@,
                token_id@,
            ),
            final(self).token_to_owner_prefix() == old(self).token_to_owner_prefix(),
            final(self).owner_to_token_prefix() == old(self).owner_to_token_prefix(),
            final(self).allocator() == old(self).allocator(),
    {
        let _ = map_insert(&mut self.tokens_to_owners, token_id, account_id);
        let _ = map_insert(&mut self.owners_to_tokens, account_id, token_id);
    }

    /// Look up the owner of `token_id`; a token never recorded yields the
    /// sentinel string `"No owner"`.
    pub fn get_owner(&self, token_id: &String) -> (r: String)
        ensures
            self.token_to_owner().contains_key(token_id@) ==> r@ == self.token_to_owner()[token_id@],
            !self.token_to_owner().contains_key(token_id@) ==> r@ == "No owner"@,
    {
        match map_get(&self.tokens_to_owners, token_id) {
            Some(owner) => owner,
            None => String::from_str("No owner"),
        }
    }

    /// Look up the token of `owner_id`; an owner never recorded yields the
    /// sentinel string `"No token"`.
    pub fn get_token(&self, owner_id: &String) -> (r: String)
        ensures
            self.owner_to_token().contains_key(owner_id@) ==> r@ == self.owner_to_token()[owner_id@],
            !self.owner_to_token().contains_key(owner_id@) ==> r@ == "No token"@,
    {
        match map_get(&self.owners_to_tokens, owner_id) {
            Some(token) => token,
            None => String::from_str("No token"),
        }
    }
}

/// Round trip: after a write records that token `t` belongs to owner `o` —
/// that is, between any two states related as `set_info`'s contract relates
/// them — each direction returns the other identifier: the token's owner is
/// `o` and the owner's token is `t`.
pub proof fn lemma_round_trip(pre: TokenOwners, post: TokenOwners, t: Seq<char>, o: Seq<char>)
    requires
        post.token_to_owner() == pre.token_to_owner().insert(t, o),
        post.owner_to_token() == pre.owner_to_token().insert(o, t),
    ensures
        post.token_to_owner().contains_key(t),
        post.token_to_owner()[t] == o,
        post.owner_to_token().contains_key(o),
        post.owner_to_token()[o] == t,
{
}

/// A write records nothing under any other key: a token distinct from the
/// written one keeps its prior entry, present or absent, and likewise an
/// owner. With a fresh store's two empty maps this makes an identifier that
/// was never written absent in every reachable state, so its lookup returns
/// the sentinel by the lookup contracts.
pub proof fn lemma_other_keys_untouched(
    pre: TokenOwners,
    post: TokenOwners,
    t: Seq<char>,
    o: Seq<char>,
    t_other: Seq<char>,
    o_other: Seq<char>,
)
    requires
        post.token_to_owner() == pre.token_to_owner().insert(t, o),
        post.owner_to_token() == pre.owner_to_token().insert(o, t),
        t_other != t,
        o_other != o,
    ensures
        post.token_to_owner().contains_key(t_other) == pre.token_to_owner().contains_key(t_other),
        post.token_to_owner().contains_key(t_other) ==> post.token_to_owner()[t_other]
            == pre.token_to_owner()[t_other],
        post.owner_to_token().contains_key(o_other) == pre.owner_to_token().contains_key(o_other),
        post.owner_to_token().contains_key(o_other) ==> post.owner_to_token()[o_other]
            == pre.owner_to_token()[o_other],
{
}

/// The known gap in the write path: recording a new token `t2` for an owner
/// `o` that already owned `t1` redirects the owner-to-token direction to
/// `t2`, but the stale entry mapping `t1` to `o` stays in the token-to-owner
/// direction — the write clears nothing.
pub proof fn lemma_stale_forward_entry(
    pre: TokenOwners,
    post: TokenOwners,
    t1: Seq<char>,
    t2: Seq<char>,
    o: Seq<char>,
)
    requires
        pre.token_to_owner().contains_key(t1),
        pre.token_to_owner()[t1] == o,
        t1 != t2,
        post.token_to_owner() == pre.token_to_owner().insert(t2, o),
        post.owner_to_token() == pre.owner_to_token().insert(o, t2),
    ensures
        post.owner_to_token().contains_key(o),
        post.owner_to_token()[o] == t2,
        post.token_to_owner().contains_key(t1),
        post.token_to_owner()[t1] == o,
        post.token_to_owner().contains_key(t2),
        post.token_to_owner()[t2] == o,
{
}

/// Idempotence: writing the same pair twice leaves both directions exactly
/// as one write does. (The prefixes and the allocator are unchanged by
/// every write, so the whole observable state agrees.)
pub proof fn lemma_set_info_idempotent(
    s0: TokenOwners,
    s1: TokenOwners,
    s2: TokenOwners,
    t: Seq<char>,
    o: Seq<char>,
)
    requires
        s1.token_to_owner() == s0.token_to_owner().insert(t, o),
        s1.owner_to_token() == s0.owner_to_token().insert(o, t),
        s2.token_to_owner() == s1.token_to_owner().insert(t, o),
        s2.owner_to_token() == s1.owner_to_token().insert(o, t),
    ensures
        s2.token_to_owner() == s1.token_to_owner(),
        s2.owner_to_token() == s1.owner_to_token(),
{
    assert(s2.token_to_owner() =~= s1.token_to_owner());
    assert(s2.owner_to_token() =~= s1.owner_to_token());
}

} // verus!
