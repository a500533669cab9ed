//! A small in-process correlation store. It maps correlation identifiers
//! (tool-call IDs) to cached thinking records, so that a later, independent
//! processing step can retrieve the signature that an earlier step stashed.
//!
//! The store is a plain value: whoever composes the surrounding pipeline owns
//! one instance and shares it, for example behind a lock. Every operation is
//! specified against the mathematical map the store holds.

use vstd::hash_map::StringHashMap;
use vstd::prelude::*;

verus! {

/// One cached record: an opaque signature token plus the free-form text that
/// accompanied it. A record is immutable once constructed; storing under the
/// same ID again replaces the record wholesale.
#[derive(Debug, Clone)]
pub struct ThinkingContext {
    pub signature: String,
    pub thinking_content: String,
}

/// What a lookup of `id` in the mapping `m` yields: the stored record's
/// signature when `id` is present, absence otherwise.
pub open spec fn signature_of(m: Map<Seq<char>, ThinkingContext>, id: Seq<char>) -> Option<
    Seq<char>,
> {
    if m.contains_key(id) {
        Some(m[id].signature@)
    } else {
        None
    }
}

/// The correlation store: a mapping from correlation-ID strings to cached
/// records. Keys are unique — at most one record per ID at any time — and
/// storing under an existing ID overwrites the prior record.
pub struct ReasoningCache {
    entries: StringHashMap<ThinkingContext>,
}

impl View for ReasoningCache {
    type V = Map<Seq<char>, ThinkingContext>;

    closed spec fn view(&self) -> Map<Seq<char>, ThinkingContext> {
        self.entries@
    }
}

impl ReasoningCache {
    /// Creates an empty store.
    pub fn new() -> (cache: Self)
        ensures
            cache@ == Map::<Seq<char>, ThinkingContext>::empty(),
    {
        ReasoningCache { entries: StringHashMap::new() }
    }

    /// Stores the thinking record for a tool-call ID, replacing any record
    /// previously held under that ID and leaving every other ID's record as
    /// it was.
    pub fn cache_thinking_for_tool(&mut self, tool_id: &str, thinking: String, signature: String)
        requires
            tool_id@.len() != 0,
        ensures
            final(self)@ == old(self)@.insert(
                tool_id@,
                (ThinkingContext { signature: signature, thinking_content: thinking }),
            ),
    {
        let context = ThinkingContext { signature, thinking_content: thinking };
        self.entries.insert(tool_id.to_string(), context);
    }

    /// Looks up a tool-call ID and returns a copy of its stored signature,
    /// or `None` when no record is held for that ID.
    pub fn get_thinking_signature(&self, tool_id: &str) -> (result: Option<String>)
        ensures
            match result {
                Some(sig) => signature_of(self@, tool_id@) == Some(sig@),
                None => signature_of(self@, tool_id@) is None,
            },
    {
        match self.entries.get(tool_id) {
            Some(context) => Some(context.signature.clone()),
            None => None,
        }
    }

    /// Empties the store entirely; the store itself stays usable afterwards.
    pub fn clear_cache(&mut self)
        ensures
            final(self)@ == Map::<Seq<char>, ThinkingContext>::empty(),
    {
        self.entries.clear();
    }
}

/// After a record is stored under an ID, a lookup of that ID yields exactly
/// the signature of the record stored.
pub proof fn lemma_store_then_lookup(
    m: Map<Seq<char>, ThinkingContext>,
    id: Seq<char>,
    context: ThinkingContext,
)
    ensures
        signature_of(m.insert(id, context), id) == Some(context.signature@),
{
}

/// Of two successive stores under one ID, a lookup yields the later record's
/// signature: the last write wins.
pub proof fn lemma_overwrite_last_write_wins(
    m: Map<Seq<char>, ThinkingContext>,
    id: Seq<char>,
    first: ThinkingContext,
    second: ThinkingContext,
)
    ensures
        signature_of(m.insert(id, first).insert(id, second), id) == Some(second.signature@),
{
}

/// A store under one ID leaves the lookup result of every other ID exactly as
/// it was: entries are isolated across IDs.
pub proof fn lemma_store_isolates_ids(
    m: Map<Seq<char>, ThinkingContext>,
    id: Seq<char>,
    context: ThinkingContext,
    other: Seq<char>,
)
    requires
        other != id,
    ensures
        signature_of(m.insert(id, context), other) == signature_of(m, other),
{
}

/// In an empty mapping — a fresh store, or one just cleared — every lookup
/// yields absence.
pub proof fn lemma_empty_lookup_absent(id: Seq<char>)
    ensures
        signature_of(Map::<Seq<char>, ThinkingContext>::empty(), id) is None,
{
}

} // verus!
