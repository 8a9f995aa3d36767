//! Activated jobs and the commands that report on them: complete, fail,
//! throw an error, update retries.
use crate::client::Client;
use crate::error::{Result, ZeebeError};
use crate::json::{parse_json, variables_text, variables_to_text};
use crate::proto;
use vstd::prelude::*;

verus! {

/// The job a command is about: the one set on the builder, else the job the
/// client is currently handling.
pub open spec fn resolved_job_key(explicit: Option<i64>, current: Option<i64>) -> Option<i64> {
    match explicit {
        Some(k) => Some(k),
        None => current,
    }
}

/// A key set on a builder wins over the client's current job, and the
/// current job stands in for a key left unset; with neither there is no job.
pub proof fn lemma_job_key_resolution(explicit: Option<i64>, current: Option<i64>)
    ensures
        explicit matches Some(k) ==> resolved_job_key(explicit, current) == Some(k),
        explicit is None ==> resolved_job_key(explicit, current) == current,
        resolved_job_key(explicit, current) is None <==> (explicit is None && current is None),
{
}

/// The key of the job a command addresses, or `None` when neither the
/// builder nor the client names one.
fn job_key_for(explicit: Option<i64>, client: &Client) -> (r: Option<i64>)
    ensures
        r == resolved_job_key(explicit, client.current_job_key),
{
    match explicit {
        Some(k) => Some(k),
        None => client.current_job_key,
    }
}

/// An activate Zeebe job that is ready to be worked on by a worker.
#[derive(Clone, Debug)]
pub struct Job(pub proto::ActivatedJob);

impl Job {
    /// Create a new job from a GRPC response
    pub fn new(proto: proto::ActivatedJob) -> (r: Self)
        ensures
            r.0 == proto,
    {
        Job(proto)
    }

    /// the key, a unique identifier for the job
    pub fn key(&self) -> (r: i64)
        ensures
            r == self.0.key,
    {
        self.0.key
    }

    /// the type of the job (should match what was requested)
    pub fn job_type(&self) -> (r: &str)
        ensures
            r@ == self.0.job_type@,
    {
        self.0.job_type.as_str()
    }

    /// the job's process instance key
    pub fn process_instance_key(&self) -> (r: i64)
        ensures
            r == self.0.process_instance_key,
    {
        self.0.process_instance_key
    }

    /// the bpmn process ID of the job process definition
    pub fn bpmn_process_id(&self) -> (r: &str)
        ensures
            r@ == self.0.bpmn_process_id@,
    {
        self.0.bpmn_process_id.as_str()
    }

    /// the version of the job process definition
    pub fn process_definition_version(&self) -> (r: i32)
        ensures
            r == self.0.process_definition_version,
    {
        self.0.process_definition_version
    }

    /// the key of the job process definition
    pub fn process_definition_key(&self) -> (r: i64)
        ensures
            r == self.0.process_definition_key,
    {
        self.0.process_definition_key
    }

    /// the associated task element ID
    pub fn element_id(&self) -> (r: &str)
        ensures
            r@ == self.0.element_id@,
    {
        self.0.element_id.as_str()
    }

    /// the unique key identifying the associated task, unique within the scope of
    /// the process instance
    pub fn element_instance_key(&self) -> (r: i64)
        ensures
            r == self.0.element_instance_key,
    {
        self.0.element_instance_key
    }

    /// a set of custom headers defined during modelling; returned as a serialized
    /// JSON document
    pub fn custom_headers(&self) -> (r: &str)
        ensures
            r@ == self.0.custom_headers@,
    {
        self.0.custom_headers.as_str()
    }

    /// the name of the worker which activated this job
    pub fn worker(&self) -> (r: &str)
        ensures
            r@ == self.0.worker@,
    {
        self.0.worker.as_str()
    }

    /// the amount of retries left to this job (should always be positive)
    pub fn retries(&self) -> (r: i32)
        ensures
            r == self.0.retries,
    {
        self.0.retries
    }

    /// when the job can be activated again, sent as a UNIX epoch timestamp
    pub fn deadline(&self) -> (r: i64)
        ensures
            r == self.0.deadline,
    {
        self.0.deadline
    }

    /// Serialized JSON document, computed at activation time, consisting of all
    /// visible variables to the task scope
    pub fn variables_str(&self) -> (r: &str)
        ensures
            r@ == self.0.variables@,
    {
        self.0.variables.as_str()
    }

    /// JSON document, computed at activation time, consisting of all visible
    /// variables to the task scope; the empty object when the variables are
    /// not a JSON document.
    pub fn variables(&self) -> (r: serde_json::Value)
        ensures
            r == crate::json::document_or_empty_of(self.0.variables@),
    {
        crate::json::document_or_empty(parse_json(self.0.variables.as_str()))
    }

    /// Deserialize encoded json variables as a given type
    /// (`serde_json::from_str(..).ok()`).
    #[verifier::external_body]
    pub fn variables_as<'a, T: serde::de::Deserialize<'a>>(&'a self) -> Option<T> {
        serde_json::from_str::<'a, T>(&self.0.variables).ok()
    }
}

/// Configuration to complete a job
pub struct CompleteJobBuilder {
    pub client: Client,
    pub job_key: Option<i64>,
    pub variables: Option<serde_json::Value>,
}

impl CompleteJobBuilder {
    /// Create a new complete job builder.
    pub fn new(client: Client) -> (r: Self)
        ensures
            r == (CompleteJobBuilder { client, job_key: None, variables: None }),
    {
        CompleteJobBuilder { client, job_key: None, variables: None }
    }

    /// Set the unique job identifier, as obtained from [`Job::key`].
    pub fn with_job_key(self, job_key: i64) -> (r: Self)
        ensures
            r == (CompleteJobBuilder { job_key: Some(job_key), ..self }),
    {
        CompleteJobBuilder { job_key: Some(job_key), ..self }
    }

    /// Set the JSON document representing the variables in the current task scope.
    pub fn with_variables(self, variables: serde_json::Value) -> (r: Self)
        ensures
            r == (CompleteJobBuilder { variables: Some(variables), ..self }),
    {
        CompleteJobBuilder { variables: Some(variables), ..self }
    }

    /// The complete job request this builder describes; an error when no job
    /// is named.
    pub fn into_request(self) -> (r: Result<proto::CompleteJobRequest>)
        ensures
            match resolved_job_key(self.job_key, self.client.current_job_key) {
                None => crate::error::is_invalid_parameters(r, "`job_key` must be set"),
                Some(k) => r matches Ok(req) && req.job_key == k && variables_text(self.variables, req.variables),
            },
    {
        let job_key = match job_key_for(self.job_key, &self.client) {
            Some(k) => k,
            None => return Err(ZeebeError::InvalidParameters("`job_key` must be set")),
        };
        Ok(proto::CompleteJobRequest { job_key, variables: variables_to_text(&self.variables) })
    }
}

/// Completed job instance data.
#[derive(Debug)]
pub struct CompleteJobResponse(pub proto::CompleteJobResponse);

/// Configuration to fail a job
pub struct FailJobBuilder {
    pub client: Client,
    pub job_key: Option<i64>,
    pub retries: Option<u32>,
    pub retry_back_off: Option<i64>,
    pub variables: Option<serde_json::Value>,
    pub error_message: Option<String>,
}

impl FailJobBuilder {
    /// Create a new fail job builder.
    pub fn new(client: Client) -> (r: Self)
        ensures
            r == (FailJobBuilder {
                client,
                job_key: None,
                retries: None,
                retry_back_off: None,
                variables: None,
                error_message: None,
            }),
    {
        FailJobBuilder {
            client,
            job_key: None,
            retries: None,
            retry_back_off: None,
            variables: None,
            error_message: None,
        }
    }

    /// Set the unique job identifier, as obtained from [`Job::key`].
    pub fn with_job_key(self, job_key: i64) -> (r: Self)
        ensures
            r == (FailJobBuilder { job_key: Some(job_key), ..self }),
    {
        FailJobBuilder { job_key: Some(job_key), ..self }
    }

    /// Set the amount of retries the job should have left.
    pub fn with_retries(self, retries: u32) -> (r: Self)
        ensures
            r == (FailJobBuilder { retries: Some(retries), ..self }),
    {
        FailJobBuilder { retries: Some(retries), ..self }
    }

    /// Set the amount of time in milliseconds to wait before the job is retried.
    pub fn with_retry_back_off(self, retry_backoff: i64) -> (r: Self)
        ensures
            r == (FailJobBuilder { retry_back_off: Some(retry_backoff), ..self }),
    {
        FailJobBuilder { retry_back_off: Some(retry_backoff), ..self }
    }

    /// Set the JSON document representing the variables in the current task scope.
    ///
    /// It must be a JSON object, as variables will be mapped in a key-value
    /// fashion.
    pub fn with_variables(self, variables: serde_json::Value) -> (r: Self)
        ensures
            r == (FailJobBuilder { variables: Some(variables), ..self }),
    {
        FailJobBuilder { variables: Some(variables), ..self }
    }

    /// Set an optional message describing why the job failed.
    pub fn with_error_message<T: Into<String>>(self, error_message: T) -> (r: Self)
        ensures
            r.error_message matches Some(m) && call_ensures(T::into, (error_message,), m),
            r == (FailJobBuilder { error_message: r.error_message, ..self }),
    {
        FailJobBuilder { error_message: Some(error_message.into()), ..self }
    }

    /// The fail job request this builder describes; an error when no job is
    /// named. Unset retries and back-off are zero, an unset message empty.
    pub fn into_request(self) -> (r: Result<proto::FailJobRequest>)
        ensures
            match resolved_job_key(self.job_key, self.client.current_job_key) {
                None => crate::error::is_invalid_parameters(r, "`job_key` must be set"),
                Some(k) => r matches Ok(req) && {
                    &&& req.job_key == k
                    &&& req.retries == (match self.retries { Some(n) => n, None => 0u32 }) as i32
                    &&& req.retry_back_off == (match self.retry_back_off { Some(b) => b, None => 0i64 })
                    &&& variables_text(self.variables, req.variables)
                    &&& req.error_message@ == crate::text::text_or_empty(self.error_message)
                },
            },
    {
        let job_key = match job_key_for(self.job_key, &self.client) {
            Some(k) => k,
            None => return Err(ZeebeError::InvalidParameters("`job_key` must be set")),
        };
        let retries: u32 = match self.retries {
            Some(n) => n,
            None => 0,
        };
        let retry_back_off: i64 = match self.retry_back_off {
            Some(b) => b,
            None => 0,
        };
        Ok(proto::FailJobRequest {
            job_key,
            retries: retries as i32,
            retry_back_off,
            variables: variables_to_text(&self.variables),
            error_message: crate::text::unwrap_or_empty(self.error_message),
        })
    }
}

/// Failed job instance data.
#[derive(Debug)]
pub struct FailJobResponse(pub proto::FailJobResponse);

/// Configuration to throw an error in the context of a job.
pub struct ThrowErrorBuilder {
    pub client: Client,
    pub job_key: Option<i64>,
    pub error_code: Option<String>,
    pub error_message: Option<String>,
    pub variables: Option<serde_json::Value>,
}

impl ThrowErrorBuilder {
    /// Create a new throw error builder.
    pub fn new(client: Client) -> (r: Self)
        ensures
            r == (ThrowErrorBuilder {
                client,
                job_key: None,
                error_code: None,
                error_message: None,
                variables: None,
            }),
    {
        ThrowErrorBuilder {
            client,
            job_key: None,
            error_code: None,
            error_message: None,
            variables: None,
        }
    }

    /// Set the unique job identifier, as obtained from [`Job::key`].
    pub fn with_job_key(self, job_key: i64) -> (r: Self)
        ensures
            r == (ThrowErrorBuilder { job_key: Some(job_key), ..self }),
    {
        ThrowErrorBuilder { job_key: Some(job_key), ..self }
    }

    /// Set the error code that will be matched with an error catch event.
    pub fn with_error_code<T: Into<String>>(self, error_code: T) -> (r: Self)
        ensures
            r.error_code matches Some(c) && call_ensures(T::into, (error_code,), c),
            r == (ThrowErrorBuilder { error_code: r.error_code, ..self }),
    {
        ThrowErrorBuilder { error_code: Some(error_code.into()), ..self }
    }

    /// Set an optional message describing why the error was thrown.
    pub fn with_error_message<T: Into<String>>(self, error_message: T) -> (r: Self)
        ensures
            r.error_message matches Some(m) && call_ensures(T::into, (error_message,), m),
            r == (ThrowErrorBuilder { error_message: r.error_message, ..self }),
    {
        ThrowErrorBuilder { error_message: Some(error_message.into()), ..self }
    }

    /// Set the JSON document representing the variables of the error catch
    /// event; it must be a JSON object.
    pub fn with_variables(self, variables: serde_json::Value) -> (r: Self)
        ensures
            r == (ThrowErrorBuilder { variables: Some(variables), ..self }),
    {
        ThrowErrorBuilder { variables: Some(variables), ..self }
    }

    /// The throw error request this builder describes; an error when no job
    /// is named.
    pub fn into_request(self) -> (r: Result<proto::ThrowErrorRequest>)
        ensures
            match resolved_job_key(self.job_key, self.client.current_job_key) {
                None => crate::error::is_invalid_parameters(r, "`job_key` must be set"),
                Some(k) => r matches Ok(req) && {
                    &&& req.job_key == k
                    &&& req.error_code@ == crate::text::text_or_empty(self.error_code)
                    &&& req.error_message@ == crate::text::text_or_empty(self.error_message)
                    &&& variables_text(self.variables, req.variables)
                },
            },
    {
        let job_key = match job_key_for(self.job_key, &self.client) {
            Some(k) => k,
            None => return Err(ZeebeError::InvalidParameters("`job_key` must be set")),
        };
        Ok(proto::ThrowErrorRequest {
            job_key,
            error_code: crate::text::unwrap_or_empty(self.error_code),
            error_message: crate::text::unwrap_or_empty(self.error_message),
            variables: variables_to_text(&self.variables),
        })
    }
}

/// Throw error response data.
#[derive(Debug)]
pub struct ThrowErrorResponse(pub proto::ThrowErrorResponse);

/// Updates the number of retries a job has left. This is mostly useful for jobs
/// that have run out of retries, should the underlying problem be solved.
pub struct UpdateJobRetriesBuilder {
    pub client: Client,
    pub job_key: Option<i64>,
    pub retries: Option<u32>,
    pub operation_reference: Option<u64>,
}

impl UpdateJobRetriesBuilder {
    /// Create a new update retries builder.
    pub fn new(client: Client) -> (r: Self)
        ensures
            r == (UpdateJobRetriesBuilder { client, job_key: None, retries: None, operation_reference: None }),
    {
        UpdateJobRetriesBuilder { client, job_key: None, retries: None, operation_reference: None }
    }

    /// Set the unique job identifier, as obtained from [`Job::key`].
    pub fn with_job_key(self, job_key: i64) -> (r: Self)
        ensures
            r == (UpdateJobRetriesBuilder { job_key: Some(job_key), ..self }),
    {
        UpdateJobRetriesBuilder { job_key: Some(job_key), ..self }
    }

    /// Set the new amount of retries for the job
    pub fn with_retries(self, retries: u32) -> (r: Self)
        ensures
            r == (UpdateJobRetriesBuilder { retries: Some(retries), ..self }),
    {
        UpdateJobRetriesBuilder { retries: Some(retries), ..self }
    }

    /// Set a reference key chosen by the user and will be part of all records resulted from this operation
    pub fn with_operation_reference(self, operation_reference: u64) -> (r: Self)
        ensures
            r == (UpdateJobRetriesBuilder { operation_reference: Some(operation_reference), ..self }),
    {
        UpdateJobRetriesBuilder { operation_reference: Some(operation_reference), ..self }
    }

    /// The update retries request this builder describes; an error when no
    /// job is named or the retries are unset.
    pub fn into_request(self) -> (r: Result<proto::UpdateJobRetriesRequest>)
        ensures
            match (resolved_job_key(self.job_key, self.client.current_job_key), self.retries) {
                (Some(k), Some(n)) => r matches Ok(req) && {
                    &&& req.job_key == k
                    &&& req.retries == n as i32
                    &&& req.operation_reference == self.operation_reference
                },
                _ => crate::error::is_invalid_parameters(r, "`job_key` and `retries` must be set"),
            },
    {
        let job_key = job_key_for(self.job_key, &self.client);
        match (job_key, self.retries) {
            (Some(job_key), Some(retries)) => Ok(proto::UpdateJobRetriesRequest {
                job_key,
                retries: retries as i32,
                operation_reference: self.operation_reference,
            }),
            _ => Err(ZeebeError::InvalidParameters("`job_key` and `retries` must be set")),
        }
    }
}

/// Update job retries data.
#[derive(Debug)]
pub struct UpdateJobRetriesResponse(pub proto::UpdateJobRetriesResponse);

} // verus!
