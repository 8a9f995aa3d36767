//! What auto handlers extract from a job: its deserialized variables
//! (`Data`) and state shared across invocations (`State`), and the type map
//! in which a worker keeps that state.
use crate::client::Client;
use crate::error::{Result, ZeebeError};
use crate::job::{CompleteJobBuilder, FailJobBuilder};
use vstd::prelude::*;

verus! {

/// A type map: at most one value of each type.
#[verifier::external_type_specification]
#[verifier::external_body]
pub struct ExTypeMap(tonic::Extensions);

/// The identifier of a type, by which a type map keys its values.
#[verifier::external_type_specification]
#[verifier::external_body]
pub struct ExTypeId(std::any::TypeId);

/// The types of which a type map holds a value, each by its identifier: the
/// keys of the map inside `tonic::Extensions`.
pub uninterp spec fn type_map_keys(map: tonic::Extensions) -> Set<std::any::TypeId>;

/// A map from types to one value of each type, in which a worker keeps the
/// state its auto handlers share. Verus cannot hold the `Box<dyn Any + Send +
/// Sync>` values of a map keyed by `TypeId`, so the map is the type map of
/// `tonic`, which stores such values. The contracts speak of the set of types
/// the map holds a value of; which identifier belongs to which type no
/// specification here can name, so they do not say which type a call adds or
/// finds, nor which value a lookup gives back.
#[derive(Debug)]
pub struct JobExtensions {
    map: tonic::Extensions,
}

impl JobExtensions {
    /// The identifiers of the types of which a value is stored.
    pub closed spec fn stored_types(&self) -> Set<std::any::TypeId> {
        type_map_keys(self.map)
    }
}

/// `tonic::Extensions::default`: an empty type map (no map allocated yet).
#[verifier::external_body]
fn empty_type_map() -> (r: tonic::Extensions)
    ensures
        type_map_keys(r) == Set::<std::any::TypeId>::empty(),
{
    tonic::Extensions::default()
}

/// `tonic::Extensions::insert`: stores `val` under the identifier of its type
/// `T` (one key is added, or was there already) and hands back the value of
/// that type it replaces, which exists exactly when the key was there.
#[verifier::external_body]
fn type_map_insert<T: Send + Sync + 'static>(map: &mut tonic::Extensions, val: T) -> (r: Option<T>)
    ensures
        exists|k: std::any::TypeId|
            #![trigger type_map_keys(*old(map)).insert(k)]
            type_map_keys(*final(map)) == type_map_keys(*old(map)).insert(k)
                && (r is Some <==> type_map_keys(*old(map)).contains(k)),
{
    map.insert(val)
}

/// `tonic::Extensions::get`: the stored value of type `T`, if any; an empty
/// map holds none.
#[verifier::external_body]
fn type_map_get<T: Send + Sync + 'static>(map: &tonic::Extensions) -> (r: Option<&T>)
    ensures
        type_map_keys(*map).is_empty() ==> r is None,
{
    map.get::<T>()
}

impl JobExtensions {
    /// Build new default extensions: no type has a value.
    pub fn new() -> (r: Self)
        ensures
            r.stored_types() == Set::<std::any::TypeId>::empty(),
    {
        JobExtensions { map: empty_type_map() }
    }

    /// Stores `data` under its type, replacing an earlier value of that type:
    /// the set of stored types gains that one type, and nothing else changes
    /// in it.
    pub fn insert<T: Send + Sync + 'static>(&mut self, data: T)
        ensures
            exists|k: std::any::TypeId|
                #![trigger old(self).stored_types().insert(k)]
                final(self).stored_types() == old(self).stored_types().insert(k),
    {
        let ghost before = self.stored_types();
        let _ = type_map_insert(&mut self.map, data);
        proof {
            let k = choose|k: std::any::TypeId|
                #![trigger before.insert(k)]
                type_map_keys(self.map) == before.insert(k);
            assert(self.stored_types() == before.insert(k));
        }
    }

    /// The stored value of type `T`, if any; nothing is found while no type
    /// has a value.
    pub fn get<T: Send + Sync + 'static>(&self) -> (r: Option<&T>)
        ensures
            self.stored_types().is_empty() ==> r is None,
    {
        type_map_get::<T>(&self.map)
    }
}

/// Data that can be extracted from JSON encoded job variables in auto
/// handlers.
#[derive(Debug)]
pub struct Data<T>(pub T);

impl<T> Data<T> {
    /// Deconstruct to an inner value
    pub fn into_inner(self) -> (r: T)
        ensures
            r == self.0,
    {
        self.0
    }
}

impl<T> core::ops::Deref for Data<T> {
    type Target = T;

    fn deref(&self) -> (r: &T)
        ensures
            *r == self.0,
    {
        &self.0
    }
}

/// Worker state that persists across job auto handler invocations.
#[derive(Debug)]
pub struct State<T>(pub std::sync::Arc<T>);

impl<T> State<T> where T: Send + 'static {
    /// Create new `State` instance.
    pub fn new(state: T) -> (r: State<T>)
        ensures
            *r.0 == state,
    {
        State(std::sync::Arc::new(state))
    }

    /// Get reference to inner app data.
    pub fn get_ref(&self) -> (r: &T)
        ensures
            *r == *self.0,
    {
        &*self.0
    }

    /// Convert to the internal Arc<T>
    pub fn into_inner(self) -> (r: std::sync::Arc<T>)
        ensures
            r == self.0,
    {
        self.0
    }
}

impl<T> core::ops::Deref for State<T> {
    type Target = std::sync::Arc<T>;

    fn deref(&self) -> (r: &std::sync::Arc<T>)
        ensures
            *r == self.0,
    {
        &self.0
    }
}

impl<T> From<std::sync::Arc<T>> for State<T> {
    fn from(arc: std::sync::Arc<T>) -> (r: State<T>) {
        State(arc)
    }
}

impl<T> vstd::std_specs::convert::FromSpecImpl<std::sync::Arc<T>> for State<T> {
    open spec fn obeys_from_spec() -> bool {
        true
    }

    open spec fn from_spec(v: std::sync::Arc<T>) -> State<T> {
        State(v)
    }
}

impl<T> Clone for State<T> {
    fn clone(&self) -> (r: State<T>)
        ensures
            r.0 == self.0,
    {
        State(crate::interop::share(&self.0))
    }
}

/// The worker state of type `T` for the job a client is handling: an error
/// when the client has no worker extensions (it is not handling a job of a
/// worker) or they hold no state of that type.
pub fn state_from_job<T: Send + Sync + 'static>(client: &Client) -> (r: Result<State<T>>)
    ensures
        client.current_job_extensions is None ==> r matches Err(ZeebeError::MissingWorkerStateConfig),
        r is Err ==> r matches Err(ZeebeError::MissingWorkerStateConfig),
{
    match &client.current_job_extensions {
        Some(ext) => match ext.get::<State<T>>() {
            Some(data) => Ok(data.clone()),
            None => Err(ZeebeError::MissingWorkerStateConfig),
        },
        None => Err(ZeebeError::MissingWorkerStateConfig),
    }
}

/// How an auto handler reports a job: complete it with the handler's result
/// as variables, or fail it with a message.
pub enum JobReport {
    Complete(CompleteJobBuilder),
    Fail(FailJobBuilder),
}

/// The report of a handler's outcome for the client's current job: its
/// result completes the job with the result as variables, its error fails the
/// job with the error's text as message. Neither names a job key, so the
/// report addresses the client's current job.
pub fn report_outcome(client: &Client, outcome: core::result::Result<serde_json::Value, String>) -> (r: JobReport)
    ensures
        match outcome {
            Ok(v) => r matches JobReport::Complete(b)
                && crate::client::same_handle(b.client, *client)
                && b == (CompleteJobBuilder { client: b.client, job_key: None, variables: Some(v) }),
            Err(m) => r matches JobReport::Fail(b)
                && crate::client::same_handle(b.client, *client)
                && b == (FailJobBuilder {
                    client: b.client,
                    job_key: None,
                    retries: None,
                    retry_back_off: None,
                    variables: None,
                    error_message: Some(m),
                }),
        },
{
    match outcome {
        Ok(variables) => JobReport::Complete(client.complete_job().with_variables(variables)),
        Err(message) => JobReport::Fail(FailJobBuilder { error_message: Some(message), ..client.fail_job() }),
    }
}

/// The prefix of the message with which a job fails when its variables do
/// not fit the handler's parameters.
pub const EXTRACTION_FAILURE_PREFIX: &'static str = "variables do not deserialize to expected type: ";

/// The report for a job whose variables do not fit the handler's parameters:
/// fail it with a message that carries `detail`, the debug text of the
/// extraction error.
pub fn report_extraction_failure(client: &Client, detail: &str) -> (r: FailJobBuilder)
    ensures
        crate::client::same_handle(r.client, *client),
        r.job_key is None,
        r.retries is None,
        r.retry_back_off is None,
        r.variables is None,
        r.error_message matches Some(m) && m@ == EXTRACTION_FAILURE_PREFIX@ + detail@,
{
    let message = String::from_str(EXTRACTION_FAILURE_PREFIX).concat(detail);
    FailJobBuilder { error_message: Some(message), ..client.fail_job() }
}

} // verus!
