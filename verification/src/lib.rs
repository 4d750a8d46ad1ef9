//! A small bidirectional association store: it records a relationship between
//! a token identifier and an owner identifier and lets either side be looked
//! up from the other. Each directional mapping lives in a persistent
//! key-value substrate under a distinct single-byte namespace prefix handed
//! out by a deterministic allocator.

mod allocator;
mod storage_map;
mod store;

pub use store::TokenOwners;
pub use store::lemma_round_trip;
pub use store::lemma_other_keys_untouched;
pub use store::lemma_stale_forward_entry;
pub use store::lemma_set_info_idempotent;
pub use allocator::IntoStorageKeyGenerator;
pub use allocator::next_prefix;
pub use allocator::prefix_at;
pub use allocator::lemma_prefix_sequence;
