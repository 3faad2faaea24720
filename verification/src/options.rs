//! The configuration of a cache: where the service is, how to authenticate,
//! how long entries live, which tags they carry and whether results are kept.

use std::time::Duration;
use vstd::prelude::*;

verus! {

/// The whole milliseconds that a duration holds: what `Duration::as_millis`
/// returns for it.
pub uninterp spec fn duration_millis(d: Duration) -> nat;

/// `Duration::from_millis` makes a duration of that many whole milliseconds.
pub assume_specification[ Duration::from_millis ](millis: u64) -> (d: Duration)
    ensures
        duration_millis(d) == millis,
;

/// `Duration::as_millis` returns the whole milliseconds that the duration
/// holds.
pub assume_specification[ Duration::as_millis ](d: &Duration) -> (millis: u128)
    ensures
        millis == duration_millis(*d),
;

/// One week, in milliseconds: the expiration of a default configuration.
pub const WEEK_MILLIS: u64 = 604_800_000;

/// The texts of a sequence of strings.
pub open spec fn texts(strings: Seq<String>) -> Seq<Seq<char>> {
    strings.map_values(|s: String| s@)
}

/// The time to live that goes on the wire for an expiration: its whole
/// milliseconds, cut to 64 bits; none where no expiration is set.
pub open spec fn ttl_of(revalidate: Option<Duration>) -> Option<u64> {
    match revalidate {
        Some(d) => Some(duration_millis(d) as u64),
        None => None,
    }
}

/// Whether a result is stored under this setting: yes unless it says no.
pub open spec fn persists(should_cache: Option<bool>) -> bool {
    should_cache != Some(false)
}

/// The options of a cache, or of one registered computation.
#[derive(Debug)]
pub struct CacheOptions {
    /// The base address of the cache service.
    pub worker: String,
    /// The credential sent as a bearer token with every request.
    pub api_key: String,
    /// How long a stored entry lives; `None` leaves it to the service.
    pub revalidate: Option<Duration>,
    /// The tags that stored entries carry.
    pub tags: Vec<String>,
    /// Whether results are stored; `None` means yes.
    pub should_cache: Option<bool>,
}

/// What a configuration says, as plain values.
pub struct OptionsView {
    pub worker: Seq<char>,
    pub api_key: Seq<char>,
    pub revalidate: Option<Duration>,
    pub tags: Seq<Seq<char>>,
    pub should_cache: Option<bool>,
}

impl View for CacheOptions {
    type V = OptionsView;

    open spec fn view(&self) -> OptionsView {
        OptionsView {
            worker: self.worker@,
            api_key: self.api_key@,
            revalidate: self.revalidate,
            tags: texts(self.tags@),
            should_cache: self.should_cache,
        }
    }
}

/// Whether a configuration is the default one: no address, no credential,
/// one week of expiration, no tags, and the decision to store left open.
pub open spec fn is_default(options: OptionsView) -> bool {
    &&& options.worker == Seq::<char>::empty()
    &&& options.api_key == Seq::<char>::empty()
    &&& options.revalidate matches Some(d) && duration_millis(d) == WEEK_MILLIS
    &&& options.tags == Seq::<Seq<char>>::empty()
    &&& options.should_cache is None
}

/// Copies a list of strings.
pub fn clone_strings(strings: &[String]) -> (copy: Vec<String>)
    ensures
        copy@ == strings@,
        texts(copy@) == texts(strings@),
{
    let mut copy: Vec<String> = Vec::new();
    let mut i: usize = 0;
    while i < strings.len()
        invariant
            i <= strings.len(),
            copy@ == strings@.subrange(0, i as int),
        decreases strings.len() - i,
    {
        copy.push(strings[i].clone());
        i = i + 1;
        assert(copy@ =~= strings@.subrange(0, i as int));
    }
    assert(copy@ =~= strings@);
    copy
}

impl Default for CacheOptions {
    /// The default configuration.
    fn default() -> (r: CacheOptions)
        ensures
            is_default(r@),
            ttl_of(r@.revalidate) == Some(WEEK_MILLIS),
    {
        let r = CacheOptions {
            worker: String::new(),
            api_key: String::new(),
            revalidate: Some(Duration::from_millis(WEEK_MILLIS)),
            tags: Vec::new(),
            should_cache: None,
        };
        assert(r@.tags =~= Seq::<Seq<char>>::empty());
        r
    }
}

impl Clone for CacheOptions {
    fn clone(&self) -> (r: CacheOptions)
        ensures
            r@ == self@,
    {
        CacheOptions {
            worker: self.worker.clone(),
            api_key: self.api_key.clone(),
            revalidate: self.revalidate,
            tags: clone_strings(self.tags.as_slice()),
            should_cache: self.should_cache,
        }
    }
}

impl CacheOptions {
    /// The same configuration with its tags replaced by `tags`.
    pub fn with_tags(self, tags: Vec<String>) -> (r: CacheOptions)
        ensures
            r@ == (OptionsView { tags: texts(tags@), ..self@ }),
    {
        CacheOptions {
            worker: self.worker,
            api_key: self.api_key,
            revalidate: self.revalidate,
            tags,
            should_cache: self.should_cache,
        }
    }

    /// The time to live that a store request carries.
    pub fn ttl_millis(&self) -> (ttl: Option<u64>)
        ensures
            ttl == ttl_of(self@.revalidate),
    {
        serialize(&self.revalidate)
    }

    /// Whether a computed result is stored.
    pub fn should_persist(&self) -> (yes: bool)
        ensures
            yes == persists(self@.should_cache),
    {
        match self.should_cache {
            Some(b) => b,
            None => true,
        }
    }
}

/// The wire form of an expiration: its milliseconds, or nothing.
pub fn serialize(dur: &Option<Duration>) -> (millis: Option<u64>)
    ensures
        millis == ttl_of(*dur),
{
    match dur {
        Some(d) => Some(d.as_millis() as u64),
        None => None,
    }
}

/// The expiration that a wire form stands for.
pub fn deserialize(millis: Option<u64>) -> (dur: Option<Duration>)
    ensures
        match millis {
            Some(m) => dur matches Some(d) && duration_millis(d) == m,
            None => dur is None,
        },
        ttl_of(dur) == millis,
{
    match millis {
        Some(m) => Some(Duration::from_millis(m)),
        None => None,
    }
}

} // verus!
