//! The settings of a job worker: the activation request it sends, how many
//! jobs it runs at once, and whether it can run at all.
use crate::error::{Result, ZeebeError};
use crate::proto::ActivateJobsRequest;
use vstd::prelude::*;

verus! {

/// How long the gateway locks an activated job for this worker, in
/// milliseconds (five minutes).
pub const DEFAULT_JOB_TIMEOUT_IN_MS: i64 = 300000;
/// The most jobs a worker holds at once.
pub const DEFAULT_JOB_WORKER_MAX_JOB_ACTIVE: u32 = 32;
/// The most jobs a worker runs at once.
pub const DEFAULT_JOB_WORKER_CONCURRENCY: u32 = 4;
/// How long an activation request may wait for jobs, in milliseconds.
pub const DEFAULT_REQUEST_TIMEOUT_MS: i64 = 10000;
/// The worker name used when none is set.
pub const DEFAULT_WORKER_NAME: &'static str = "default";

/// The settings of a job worker.
#[derive(Debug)]
pub struct WorkerSettings {
    pub concurrency: u32,
    pub request: ActivateJobsRequest,
}

impl WorkerSettings {
    /// The defaults: no job type, worker `default`, a five minute job
    /// timeout, 32 jobs at most, a ten second request timeout, concurrency 4.
    pub fn new() -> (r: Self)
        ensures
            r.concurrency == DEFAULT_JOB_WORKER_CONCURRENCY,
            r.request.job_type@.len() == 0,
            r.request.worker@ == DEFAULT_WORKER_NAME@,
            r.request.timeout == DEFAULT_JOB_TIMEOUT_IN_MS,
            r.request.max_jobs_to_activate == DEFAULT_JOB_WORKER_MAX_JOB_ACTIVE as i32,
            r.request.fetch_variable@.len() == 0,
            r.request.request_timeout == DEFAULT_REQUEST_TIMEOUT_MS,
            r.request.tenant_ids@.len() == 0,
    {
        WorkerSettings {
            concurrency: DEFAULT_JOB_WORKER_CONCURRENCY,
            request: ActivateJobsRequest {
                job_type: String::new(),
                worker: DEFAULT_WORKER_NAME.to_string(),
                timeout: DEFAULT_JOB_TIMEOUT_IN_MS,
                max_jobs_to_activate: DEFAULT_JOB_WORKER_MAX_JOB_ACTIVE as i32,
                fetch_variable: Vec::new(),
                request_timeout: DEFAULT_REQUEST_TIMEOUT_MS,
                tenant_ids: Vec::new(),
            },
        }
    }

    /// Set tenant IDs for which to activate jobs
    pub fn with_tenant_ids(self, tenant_ids: Vec<String>) -> (r: Self)
        ensures
            r == (WorkerSettings { request: ActivateJobsRequest { tenant_ids, ..self.request }, ..self }),
    {
        let mut s = self;
        s.request.tenant_ids = tenant_ids;
        s
    }

    /// Set the job type of the worker.
    pub fn with_job_type<T: Into<String>>(self, job_type: T) -> (r: Self)
        ensures
            call_ensures(T::into, (job_type,), r.request.job_type),
            r == (WorkerSettings { request: ActivateJobsRequest { job_type: r.request.job_type, ..self.request }, ..self }),
    {
        let mut s = self;
        s.request.job_type = job_type.into();
        s
    }

    /// Set the worker name (mostly used for logging)
    pub fn with_worker_name<T: Into<String>>(self, worker: T) -> (r: Self)
        ensures
            call_ensures(T::into, (worker,), r.request.worker),
            r == (WorkerSettings { request: ActivateJobsRequest { worker: r.request.worker, ..self.request }, ..self }),
    {
        let mut s = self;
        s.request.worker = worker.into();
        s
    }

    /// Set the job timeout, given in milliseconds (the request carries it as
    /// an `i64`, truncated as `as` does).
    pub fn with_timeout_millis(self, timeout_ms: u128) -> (r: Self)
        ensures
            r == (WorkerSettings { request: ActivateJobsRequest { timeout: timeout_ms as i64, ..self.request }, ..self }),
    {
        let mut s = self;
        s.request.timeout = timeout_ms as i64;
        s
    }

    /// Set the activation request timeout, given in milliseconds (the request
    /// carries it as an `i64`, truncated as `as` does).
    pub fn with_request_timeout_millis(self, request_timeout_ms: u128) -> (r: Self)
        ensures
            r == (WorkerSettings {
                request: ActivateJobsRequest { request_timeout: request_timeout_ms as i64, ..self.request },
                ..self
            }),
    {
        let mut s = self;
        s.request.request_timeout = request_timeout_ms as i64;
        s
    }

    /// Set the maximum jobs to activate at a time by the worker (the request
    /// carries it as an `i32`, truncated as `as` does).
    pub fn with_max_jobs_active(self, max_jobs_active: u32) -> (r: Self)
        ensures
            r == (WorkerSettings {
                request: ActivateJobsRequest { max_jobs_to_activate: max_jobs_active as i32, ..self.request },
                ..self
            }),
    {
        let mut s = self;
        s.request.max_jobs_to_activate = max_jobs_active as i32;
        s
    }

    /// Set the max number of jobs to run concurrently.
    pub fn with_concurrency(self, concurrency: u32) -> (r: Self)
        ensures
            r == (WorkerSettings { concurrency, ..self }),
    {
        WorkerSettings { concurrency, ..self }
    }

    /// Set the list of variables to fetch as the job variables.
    pub fn with_fetch_variables(self, fetch_variables: Vec<String>) -> (r: Self)
        ensures
            r == (WorkerSettings { request: ActivateJobsRequest { fetch_variable: fetch_variables, ..self.request }, ..self }),
    {
        let mut s = self;
        s.request.fetch_variable = fetch_variables;
        s
    }

    /// Whether a worker with these settings can run: it needs a job type and
    /// a handler.
    pub fn check_runnable(&self, has_handler: bool) -> (r: Result<()>)
        ensures
            (self.request.job_type@.len() > 0 && has_handler) <==> r is Ok,
            !(self.request.job_type@.len() > 0 && has_handler)
                ==> crate::error::is_invalid_parameters(r, "`job_type` and `handler` must be set"),
    {
        if self.request.job_type.as_str().is_empty() || !has_handler {
            return Err(ZeebeError::InvalidParameters("`job_type` and `handler` must be set"));
        }
        Ok(())
    }
}

} // verus!
