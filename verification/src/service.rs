//! What the client relies on from the cache service, as a model: a map from
//! keys to entries with tags, a point write, a point read and an invalidation
//! by tag. Expiry is left out: the model describes the service between two
//! requests that no entry's time to live separates.

use serde_json::Value;
use vstd::prelude::*;

use crate::cache::{steps_to, CallAction, CallEvent, CallState};
use crate::client::{lookup_outcome, CacheResponse, StoreRequest};
use crate::error::CacheError;
use crate::key::cache_key_of;
use crate::options::texts;

verus! {

/// An entry as the service keeps it.
pub struct StoredEntry {
    pub value: Value,
    pub tags: Set<Seq<char>>,
    pub ttl: Option<u64>,
}

/// The entries of a service, by key.
pub type Entries = Map<Seq<char>, StoredEntry>;

/// The entry that a store request writes.
pub open spec fn entry_of(body: StoreRequest<Value>) -> StoredEntry {
    StoredEntry { value: body.value, tags: texts(body.tags@).to_set(), ttl: body.ttl }
}

/// The service after a store request.
pub open spec fn after_store(entries: Entries, body: StoreRequest<Value>) -> Entries {
    entries.insert(body.key@, entry_of(body))
}

/// Whether an entry carries one of `tags`.
pub open spec fn carries_any(entry: StoredEntry, tags: Seq<Seq<char>>) -> bool {
    exists|i: int| 0 <= i < tags.len() && entry.tags.contains(#[trigger] tags[i])
}

/// The service after an invalidation of `tags`: every entry that carries one
/// of them is gone, every other entry stays.
pub open spec fn after_invalidate(entries: Entries, tags: Seq<Seq<char>>) -> Entries {
    Map::new(
        |key: Seq<char>| entries.contains_key(key) && !carries_any(entries[key], tags),
        |key: Seq<char>| entries[key],
    )
}

/// The service's reply to a lookup.
pub open spec fn reply_to_lookup(entries: Entries, key: Seq<char>) -> CacheResponse {
    CacheResponse {
        success: true,
        data: if entries.contains_key(key) {
            Some(entries[key].value)
        } else {
            None
        },
        message: None,
    }
}

/// What a lookup of `key` yields against the service.
pub open spec fn lookup_in(entries: Entries, key: Seq<char>) -> Result<Option<Value>, CacheError> {
    lookup_outcome(Ok(reply_to_lookup(entries, key)))
}

/// After a store, a lookup under the same key yields the stored value.
pub proof fn lemma_store_then_lookup(entries: Entries, body: StoreRequest<Value>)
    ensures
        lookup_in(after_store(entries, body), body.key@) == Ok::<Option<Value>, CacheError>(
            Some(body.value),
        ),
{
}

/// A store leaves the entries under other keys as they were.
pub proof fn lemma_store_keeps_other_keys(
    entries: Entries,
    body: StoreRequest<Value>,
    key: Seq<char>,
)
    requires
        key != body.key@,
    ensures
        lookup_in(after_store(entries, body), key) == lookup_in(entries, key),
{
}

/// After an entry was stored with some tags and one of them was invalidated,
/// a lookup under its key finds nothing.
pub proof fn lemma_invalidated_entry_is_gone(
    entries: Entries,
    body: StoreRequest<Value>,
    tags: Seq<String>,
    i: int,
    j: int,
)
    requires
        0 <= i < body.tags.len(),
        0 <= j < tags.len(),
        body.tags[i]@ == tags[j]@,
    ensures
        lookup_in(after_invalidate(after_store(entries, body), texts(tags)), body.key@) == Ok::<
            Option<Value>,
            CacheError,
        >(None),
{
    let stored = after_store(entries, body);
    assert(texts(body.tags@)[i] == body.tags[i]@);
    assert(texts(body.tags@).to_set().contains(texts(body.tags@)[i]));
    assert(texts(tags)[j] == tags[j]@);
    assert(carries_any(stored[body.key@], texts(tags)));
}

/// An invalidation leaves an entry that carries none of the tags where it
/// was.
pub proof fn lemma_invalidation_spares_other_tags(
    entries: Entries,
    tags: Seq<Seq<char>>,
    key: Seq<char>,
)
    requires
        entries.contains_key(key),
        !carries_any(entries[key], tags),
    ensures
        lookup_in(after_invalidate(entries, tags), key) == lookup_in(entries, key),
{
}

/// Two calls in sequence with the same serialized input, against a service
/// that answers and loses nothing in between. The first looks up, misses,
/// computes and stores; the second looks up and is handed what the first
/// computed: it asks for no computation.
pub proof fn lemma_second_call_is_served(
    entries: Entries,
    text: String,
    result: Value,
    body: StoreRequest<Value>,
    first: (CallState<Value>, CallAction<Value>),
    missed: (CallState<Value>, CallAction<Value>),
    computed: (CallState<Value>, CallAction<Value>),
    second: (CallState<Value>, CallAction<Value>),
    served: (CallState<Value>, CallAction<Value>),
)
    requires
        !entries.contains_key(cache_key_of(text@)),
        steps_to(true, CallState::Start, CallEvent::Serialized(Ok(text)), first.0, first.1),
        steps_to(
            true,
            first.0,
            CallEvent::Looked(lookup_in(entries, first.1->Lookup_0@)),
            missed.0,
            missed.1,
        ),
        steps_to(true, missed.0, CallEvent::Computed(result), computed.0, computed.1),
        body.key == computed.1->Store_0,
        body.value == computed.0->Storing_0,
        steps_to(true, CallState::Start, CallEvent::Serialized(Ok(text)), second.0, second.1),
        steps_to(
            true,
            second.0,
            CallEvent::Looked(lookup_in(after_store(entries, body), second.1->Lookup_0@)),
            served.0,
            served.1,
        ),
    ensures
        missed.1 is Compute,
        computed.1 is Store,
        served.0 is Done,
        served.1 == CallAction::Finish(Ok(result)),
{
    lemma_store_then_lookup(entries, body);
}

/// A call whose results are not stored, against a service that does not hold
/// its key: the call hands out the computed result and asks for no store, so
/// the service is as it was and a later lookup under the key finds nothing.
pub proof fn lemma_unstored_result_is_not_found(
    entries: Entries,
    text: String,
    result: Value,
    first: (CallState<Value>, CallAction<Value>),
    missed: (CallState<Value>, CallAction<Value>),
    computed: (CallState<Value>, CallAction<Value>),
)
    requires
        !entries.contains_key(cache_key_of(text@)),
        steps_to(false, CallState::Start, CallEvent::Serialized(Ok(text)), first.0, first.1),
        steps_to(
            false,
            first.0,
            CallEvent::Looked(lookup_in(entries, first.1->Lookup_0@)),
            missed.0,
            missed.1,
        ),
        steps_to(false, missed.0, CallEvent::Computed(result), computed.0, computed.1),
    ensures
        first.1 is Lookup,
        missed.1 is Compute,
        computed.0 is Done,
        computed.1 == CallAction::Finish(Ok(result)),
        lookup_in(entries, first.1->Lookup_0@) == Ok::<Option<Value>, CacheError>(None),
{
}

} // verus!
