//! The cache-aside decorator: registering a computation with its tags, and
//! the order of lookup, computation and store in each call of it.

use vstd::prelude::*;

use crate::client::{Request, WorkerClient};
use crate::error::CacheError;
use crate::key::{cache_key_of, derive_key};
use crate::options::{clone_strings, is_default, persists, texts, CacheOptions, OptionsView};
use vstd::string::StringExecFns;

verus! {

/// Where one call of a registered computation stands.
#[derive(Debug)]
pub enum CallState<R> {
    /// Nothing has happened yet: the input is being serialized.
    Start,
    /// A lookup under this key is under way.
    LookingUp(String),
    /// The lookup missed and the computation runs; the key is kept for the
    /// store.
    Computing(String),
    /// The computed result is being stored.
    Storing(R),
    /// The call has ended.
    Done,
}

/// What the outside world reports back to a call.
#[derive(Debug)]
pub enum CallEvent<R> {
    /// The input's serialized form, or why it has none.
    Serialized(Result<String, serde_json::Error>),
    /// The outcome of the lookup.
    Looked(Result<Option<R>, CacheError>),
    /// The computation's result.
    Computed(R),
    /// The outcome of the store.
    Stored(Result<(), CacheError>),
}

/// What a call asks the outside world to do next.
#[derive(Debug)]
pub enum CallAction<R> {
    /// Look the key up.
    Lookup(String),
    /// Run the computation on the input.
    Compute,
    /// Store the result that the state holds under the key.
    Store(String),
    /// Hand the outcome to the caller.
    Finish(Result<R, CacheError>),
}

/// Whether `event` is the one that a call in `state` waits for.
pub open spec fn fits<R>(state: CallState<R>, event: CallEvent<R>) -> bool {
    match state {
        CallState::Start => event is Serialized,
        CallState::LookingUp(_) => event is Looked,
        CallState::Computing(_) => event is Computed,
        CallState::Storing(_) => event is Stored,
        CallState::Done => false,
    }
}

/// The text of the error for an event that the state did not wait for.
pub open spec fn out_of_step() -> Seq<char> {
    "Event out of step"@
}

/// The step of a call: from a state and an event to the next state and
/// action. `persist` says whether computed results are stored.
///
/// The key is derived from the serialized input and looked up; a hit ends the
/// call with the cached value; a miss starts the computation; its result is
/// stored if results are stored at all, and handed out once the store has
/// gone well; any error ends the call, and so does an event that the state
/// did not wait for.
pub open spec fn steps_to<R>(
    persist: bool,
    state: CallState<R>,
    event: CallEvent<R>,
    next: CallState<R>,
    action: CallAction<R>,
) -> bool {
    match (state, event) {
        (CallState::Start, CallEvent::Serialized(Ok(text))) => {
            &&& next matches CallState::LookingUp(key) && key@ == cache_key_of(text@)
            &&& action matches CallAction::Lookup(key) && key@ == cache_key_of(text@)
        },
        (CallState::Start, CallEvent::Serialized(Err(e))) => {
            &&& next is Done
            &&& action == CallAction::<R>::Finish(Err(CacheError::Serialization(e)))
        },
        (CallState::LookingUp(_), CallEvent::Looked(Ok(Some(cached)))) => {
            &&& next is Done
            &&& action == CallAction::Finish(Ok(cached))
        },
        (CallState::LookingUp(key), CallEvent::Looked(Ok(None))) => {
            &&& next == CallState::<R>::Computing(key)
            &&& action is Compute
        },
        (CallState::LookingUp(_), CallEvent::Looked(Err(e))) => {
            &&& next is Done
            &&& action == CallAction::<R>::Finish(Err(e))
        },
        (CallState::Computing(key), CallEvent::Computed(result)) => if persist {
            &&& next == CallState::Storing(result)
            &&& action == CallAction::<R>::Store(key)
        } else {
            &&& next is Done
            &&& action == CallAction::Finish(Ok(result))
        },
        (CallState::Storing(result), CallEvent::Stored(Ok(_))) => {
            &&& next is Done
            &&& action == CallAction::Finish(Ok(result))
        },
        (CallState::Storing(_), CallEvent::Stored(Err(e))) => {
            &&& next is Done
            &&& action == CallAction::<R>::Finish(Err(e))
        },
        _ => {
            &&& next is Done
            &&& action matches CallAction::Finish(Err(CacheError::Cache(text))) && text@
                == out_of_step()
        },
    }
}

/// A registered computation: the client that its lookups and stores go
/// through, and the options of its calls.
#[derive(Debug)]
pub struct CachedCall {
    client: WorkerClient,
    options: CacheOptions,
}

impl CachedCall {
    /// The client of this computation: the cache's, with the registered tags.
    pub closed spec fn spec_client(&self) -> WorkerClient {
        self.client
    }

    /// The options of this computation's calls.
    pub closed spec fn spec_options(&self) -> CacheOptions {
        self.options
    }

    /// The client of this computation.
    pub fn client(&self) -> (client: &WorkerClient)
        ensures
            *client == self.spec_client(),
    {
        &self.client
    }

    /// The options of this computation's calls.
    pub fn options(&self) -> (options: &CacheOptions)
        ensures
            *options == self.spec_options(),
    {
        &self.options
    }

    /// Takes one step of a call.
    pub fn step<R>(&self, state: CallState<R>, event: CallEvent<R>) -> (next: (
        CallState<R>,
        CallAction<R>,
    ))
        ensures
            steps_to(persists(self.spec_options()@.should_cache), state, event, next.0, next.1),
    {
        match (state, event) {
            (CallState::Start, CallEvent::Serialized(serialized)) => match derive_key(serialized) {
                Ok(key) => (CallState::LookingUp(key.clone()), CallAction::Lookup(key)),
                Err(e) => (CallState::Done, CallAction::Finish(Err(e))),
            },
            (CallState::LookingUp(_), CallEvent::Looked(Ok(Some(cached)))) => (
                CallState::Done,
                CallAction::Finish(Ok(cached)),
            ),
            (CallState::LookingUp(key), CallEvent::Looked(Ok(None))) => (
                CallState::Computing(key),
                CallAction::Compute,
            ),
            (CallState::LookingUp(_), CallEvent::Looked(Err(e))) => (
                CallState::Done,
                CallAction::Finish(Err(e)),
            ),
            (CallState::Computing(key), CallEvent::Computed(result)) => {
                if self.options.should_persist() {
                    (CallState::Storing(result), CallAction::Store(key))
                } else {
                    (CallState::Done, CallAction::Finish(Ok(result)))
                }
            },
            (CallState::Storing(result), CallEvent::Stored(Ok(_))) => (
                CallState::Done,
                CallAction::Finish(Ok(result)),
            ),
            (CallState::Storing(_), CallEvent::Stored(Err(e))) => (
                CallState::Done,
                CallAction::Finish(Err(e)),
            ),
            _ => (
                CallState::Done,
                CallAction::Finish(Err(CacheError::Cache(String::from_str("Event out of step")))),
            ),
        }
    }
}

/// The cache: a protocol client, and the registration of computations.
#[derive(Debug)]
pub struct Cache {
    client: WorkerClient,
}

impl Cache {
    /// The client that the cache talks through.
    pub closed spec fn spec_client(&self) -> WorkerClient {
        self.client
    }

    /// A cache over the service that `options` names.
    pub fn new(options: CacheOptions) -> (cache: Cache)
        ensures
            cache.spec_client().spec_options() == options,
    {
        Cache { client: WorkerClient::new(options) }
    }

    /// The client that the cache talks through.
    pub fn client(&self) -> (client: &WorkerClient)
        ensures
            *client == self.spec_client(),
    {
        &self.client
    }

    /// The request that invalidates every entry carrying one of `tags`: the
    /// client's, unchanged.
    pub fn invalidate_by_tag(&self, tags: Vec<String>) -> (request: Request<Vec<String>>)
        ensures
            request.method == crate::client::Method::Post,
            request.url@ == crate::client::invalidate_url(
                self.spec_client().spec_options()@.worker,
            ),
            request.authorization@ == crate::client::bearer(
                self.spec_client().spec_options()@.api_key,
            ),
            request.body matches Some(body) && body@ == tags@,
    {
        self.client.invalidate_tags(tags.as_slice())
    }

    /// Registers a computation under `tags`. Its calls go through the cache's
    /// client with `tags` as the tags of what they store; their options are
    /// `options`, or the default ones, with `tags` in place of their own.
    pub fn cache(&self, tags: Vec<String>, options: Option<CacheOptions>) -> (call: CachedCall)
        ensures
            call.spec_client().spec_options()@ == (OptionsView {
                tags: texts(tags@),
                ..self.spec_client().spec_options()@
            }),
            call.spec_options()@.tags == texts(tags@),
            match options {
                Some(given) => call.spec_options()@ == (OptionsView {
                    tags: texts(tags@),
                    ..given@
                }),
                None => is_default(
                    OptionsView { tags: Seq::<Seq<char>>::empty(), ..call.spec_options()@ },
                ),
            },
    {
        let client = self.client.with_tags(clone_strings(tags.as_slice()));
        let base = match options {
            Some(given) => given,
            None => CacheOptions::default(),
        };
        CachedCall { client, options: base.with_tags(tags) }
    }
}

/// A hit ends the call with the cached value: no computation is asked for.
pub proof fn lemma_hit_skips_computation<R>(
    persist: bool,
    key: String,
    cached: R,
    next: CallState<R>,
    action: CallAction<R>,
)
    requires
        steps_to(
            persist,
            CallState::LookingUp(key),
            CallEvent::Looked(Ok(Some(cached))),
            next,
            action,
        ),
    ensures
        next is Done,
        action == CallAction::Finish(Ok(cached)),
{
}

/// Lookup comes before computation, and computation before store: a lookup
/// is asked for only at the start, the computation only when a lookup has
/// missed, and a store only for a computed result, under the key that was
/// looked up. A call is over exactly when it hands out its outcome.
pub proof fn lemma_order_of_a_call<R>(
    persist: bool,
    state: CallState<R>,
    event: CallEvent<R>,
    next: CallState<R>,
    action: CallAction<R>,
)
    requires
        steps_to(persist, state, event, next, action),
    ensures
        action is Lookup ==> state is Start && fits(state, event),
        action is Compute ==> state is LookingUp && event == CallEvent::<R>::Looked(Ok(None))
            && next == CallState::<R>::Computing(state->LookingUp_0),
        action is Store ==> persist && state is Computing && event is Computed && next
            == CallState::Storing(event->Computed_0) && action == CallAction::<R>::Store(
            state->Computing_0,
        ),
        next is Done <==> action is Finish,
        !fits(state, event) ==> action matches CallAction::Finish(Err(CacheError::Cache(_))),
{
}

/// Where results are not stored, no step asks for a store, and the computed
/// result is handed out as it is.
pub proof fn lemma_no_store_without_persistence<R>(
    state: CallState<R>,
    event: CallEvent<R>,
    next: CallState<R>,
    action: CallAction<R>,
)
    requires
        steps_to(false, state, event, next, action),
    ensures
        !(action is Store),
        !(next is Storing),
        state is Computing && event is Computed ==> action == CallAction::Finish(
            Ok(event->Computed_0),
        ),
{
}

/// A store that went well, or failed without a word, lets the computed
/// result through; an error of the store ends the call with that error.
pub proof fn lemma_store_outcome_decides<R>(
    persist: bool,
    result: R,
    stored: Result<(), CacheError>,
    next: CallState<R>,
    action: CallAction<R>,
)
    requires
        steps_to(persist, CallState::Storing(result), CallEvent::Stored(stored), next, action),
    ensures
        action == CallAction::Finish(
            match stored {
                Ok(_) => Ok(result),
                Err(e) => Err(e),
            },
        ),
{
}

} // verus!
