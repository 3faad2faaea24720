//! The protocol client: the request that each cache operation sends to the
//! service, and what each reply of the service means.

use serde_json::Value;
use vstd::prelude::*;
use vstd::string::StringExecFns;

use crate::error::CacheError;
use crate::options::{clone_strings, texts, ttl_of, CacheOptions};

verus! {

/// `serde_json::Value`, a payload as the service holds it. Nothing is claimed
/// of what it holds: a value of it is only carried through.
#[verifier::external_type_specification]
#[verifier::external_body]
pub struct ExPayload(serde_json::Value);

/// The method of a request.
#[derive(Debug, Clone, Copy, PartialEq, Eq, Structural)]
pub enum Method {
    Get,
    Post,
}

/// A request to the service: where it goes, the value of its
/// `Authorization` header, and its JSON body, if it has one.
#[derive(Debug)]
pub struct Request<B> {
    pub method: Method,
    pub url: String,
    pub authorization: String,
    pub body: Option<B>,
}

/// The body of a store request.
#[derive(Debug)]
pub struct StoreRequest<T> {
    pub key: String,
    pub value: T,
    pub tags: Vec<String>,
    /// The entry's time to live in milliseconds; left out of the body when
    /// `None`.
    pub ttl: Option<u64>,
}

/// The service's reply to any request.
#[derive(Debug)]
pub struct CacheResponse {
    pub success: bool,
    pub data: Option<Value>,
    pub message: Option<String>,
}

/// The address of a point read.
pub open spec fn lookup_url(worker: Seq<char>, key: Seq<char>) -> Seq<char> {
    worker + "/get/"@ + key
}

/// The address of a point write.
pub open spec fn store_url(worker: Seq<char>) -> Seq<char> {
    worker + "/set"@
}

/// The address of a bulk invalidation.
pub open spec fn invalidate_url(worker: Seq<char>) -> Seq<char> {
    worker + "/invalidate"@
}

/// The `Authorization` header for a credential.
pub open spec fn bearer(api_key: Seq<char>) -> Seq<char> {
    "Bearer "@ + api_key
}

/// What a reply to a lookup means. A failure with a message is the service's
/// error; a failure without one is a miss, as is a success without a payload.
pub open spec fn lookup_outcome(reply: Result<CacheResponse, reqwest::Error>) -> Result<
    Option<Value>,
    CacheError,
> {
    match reply {
        Err(e) => Err(CacheError::Network(e)),
        Ok(response) => if response.success {
            Ok(response.data)
        } else {
            match response.message {
                Some(text) => Err(CacheError::Worker(text)),
                None => Ok(None),
            }
        },
    }
}

/// What a reply to a store means. Only a failure with a message is an error.
pub open spec fn store_outcome(reply: Result<CacheResponse, reqwest::Error>) -> Result<
    (),
    CacheError,
> {
    match reply {
        Err(e) => Err(CacheError::Network(e)),
        Ok(response) => match response.message {
            Some(text) if !response.success => Err(CacheError::Worker(text)),
            _ => Ok(()),
        },
    }
}

/// The text of the error for an invalidation that failed without a message.
pub open spec fn invalidation_failure() -> Seq<char> {
    "Failed to invalidate cache"@
}

/// The protocol client of one configuration.
#[derive(Debug)]
pub struct WorkerClient {
    options: CacheOptions,
}

impl Clone for WorkerClient {
    fn clone(&self) -> (r: WorkerClient)
        ensures
            r.spec_options()@ == self.spec_options()@,
    {
        WorkerClient { options: self.options.clone() }
    }
}

impl WorkerClient {
    /// The configuration that the client works with.
    pub closed spec fn spec_options(&self) -> CacheOptions {
        self.options
    }

    /// A client for the service that `options` names.
    pub fn new(options: CacheOptions) -> (client: WorkerClient)
        ensures
            client.spec_options() == options,
    {
        WorkerClient { options }
    }

    /// The configuration that the client works with.
    pub fn options(&self) -> (options: &CacheOptions)
        ensures
            *options == self.spec_options(),
    {
        &self.options
    }

    /// The same client with its tags replaced by `tags`.
    pub fn with_tags(&self, tags: Vec<String>) -> (client: WorkerClient)
        ensures
            client.spec_options()@ == (crate::options::OptionsView {
                tags: texts(tags@),
                ..self.spec_options()@
            }),
    {
        WorkerClient { options: self.options.clone().with_tags(tags) }
    }

    fn authorization(&self) -> (header: String)
        ensures
            header@ == bearer(self.spec_options()@.api_key),
    {
        String::from_str("Bearer ").concat(self.options.api_key.as_str())
    }

    /// The request of a point read under `key`.
    pub fn get(&self, key: &str) -> (request: Request<()>)
        ensures
            request.method == Method::Get,
            request.url@ == lookup_url(self.spec_options()@.worker, key@),
            request.authorization@ == bearer(self.spec_options()@.api_key),
            request.body is None,
    {
        let url = String::from_str(self.options.worker.as_str()).concat("/get/").concat(key);
        Request { method: Method::Get, url, authorization: self.authorization(), body: None }
    }

    /// The request of a point write of `value` under `key`, with the
    /// client's tags and the milliseconds of its expiration.
    pub fn set<T>(&self, key: &str, value: T) -> (request: Request<StoreRequest<T>>)
        ensures
            request.method == Method::Post,
            request.url@ == store_url(self.spec_options()@.worker),
            request.authorization@ == bearer(self.spec_options()@.api_key),
            request.body matches Some(body) && body.key@ == key@ && body.value == value && texts(
                body.tags@,
            ) == self.spec_options()@.tags && body.ttl == ttl_of(self.spec_options()@.revalidate),
    {
        let url = String::from_str(self.options.worker.as_str()).concat("/set");
        let body = StoreRequest {
            key: String::from_str(key),
            value,
            tags: clone_strings(self.options.tags.as_slice()),
            ttl: self.options.ttl_millis(),
        };
        Request { method: Method::Post, url, authorization: self.authorization(), body: Some(body) }
    }

    /// The request of a bulk invalidation of `tags`.
    pub fn invalidate_tags(&self, tags: &[String]) -> (request: Request<Vec<String>>)
        ensures
            request.method == Method::Post,
            request.url@ == invalidate_url(self.spec_options()@.worker),
            request.authorization@ == bearer(self.spec_options()@.api_key),
            request.body matches Some(body) && body@ == tags@,
    {
        let url = String::from_str(self.options.worker.as_str()).concat("/invalidate");
        Request {
            method: Method::Post,
            url,
            authorization: self.authorization(),
            body: Some(clone_strings(tags)),
        }
    }
}

/// Classifies the reply to a lookup: the payload on a hit, `None` on a miss.
pub fn lookup_result(reply: Result<CacheResponse, reqwest::Error>) -> (r: Result<
    Option<Value>,
    CacheError,
>)
    ensures
        r == lookup_outcome(reply),
{
    match reply {
        Err(e) => Err(CacheError::from(e)),
        Ok(response) => {
            if !response.success {
                match response.message {
                    Some(text) => Err(CacheError::Worker(text)),
                    None => Ok(None),
                }
            } else {
                Ok(response.data)
            }
        },
    }
}

/// Gives a lookup its typed result from the outcome of decoding the payload
/// that was found.
pub fn found<T>(decoded: Result<T, serde_json::Error>) -> (r: Result<Option<T>, CacheError>)
    ensures
        match decoded {
            Ok(value) => r == Ok::<Option<T>, CacheError>(Some(value)),
            Err(e) => r == Err::<Option<T>, CacheError>(CacheError::Serialization(e)),
        },
{
    match decoded {
        Ok(value) => Ok(Some(value)),
        Err(e) => Err(CacheError::from(e)),
    }
}

/// Classifies the reply to a store.
pub fn store_result(reply: Result<CacheResponse, reqwest::Error>) -> (r: Result<(), CacheError>)
    ensures
        r == store_outcome(reply),
{
    match reply {
        Err(e) => Err(CacheError::from(e)),
        Ok(response) => {
            if !response.success {
                match response.message {
                    Some(text) => Err(CacheError::Worker(text)),
                    None => Ok(()),
                }
            } else {
                Ok(())
            }
        },
    }
}

/// Classifies the reply to an invalidation. Here a failure without a message
/// is an error of the cache itself.
pub fn invalidation_result(reply: Result<CacheResponse, reqwest::Error>) -> (r: Result<
    (),
    CacheError,
>)
    ensures
        match reply {
            Err(e) => r == Err::<(), CacheError>(CacheError::Network(e)),
            Ok(response) => if response.success {
                r is Ok
            } else {
                match response.message {
                    Some(text) => r == Err::<(), CacheError>(CacheError::Worker(text)),
                    None => r matches Err(CacheError::Cache(text)) && text@
                        == invalidation_failure(),
                }
            },
        },
{
    match reply {
        Err(e) => Err(CacheError::from(e)),
        Ok(response) => {
            if !response.success {
                match response.message {
                    Some(text) => Err(CacheError::Worker(text)),
                    None => Err(CacheError::Cache(String::from_str("Failed to invalidate cache"))),
                }
            } else {
                Ok(())
            }
        },
    }
}

} // verus!
