//! The decisions of the job poller: when to ask the gateway for more jobs and
//! how many to ask for, driven by the messages the worker's tasks send it.
use crate::proto::ActivateJobsRequest;
use crate::text::copy_strings;
use vstd::prelude::*;

verus! {

/// A message to the poller.
#[derive(Clone, Copy, Debug)]
pub enum PollMessage {
    /// The poll interval elapsed.
    FetchJobs,
    /// An activation delivered this many jobs.
    JobsArrived(u32),
    /// An activation ended, whether it succeeded or failed.
    FetchJobsComplete,
    /// A handler finished one job.
    JobFinished,
}

/// What the poller asks its driver to do after a message.
#[derive(Debug)]
pub enum PollAction {
    /// Nothing.
    Idle,
    /// Send this activation request to the gateway.
    Activate(ActivateJobsRequest),
    /// The message stream ended: stop polling.
    Stop,
}

/// The poller's state: the request template, the jobs handed out and not yet
/// finished, and whether an activation is in flight.
#[derive(Debug)]
pub struct JobPoller {
    pub request: ActivateJobsRequest,
    pub long_polling_millis: i64,
    pub request_in_progress: bool,
    pub max_jobs_active: u32,
    pub remaining: u32,
    pub threshold: u32,
}

/// Two activation requests agree in every field.
pub open spec fn same_request(a: ActivateJobsRequest, b: ActivateJobsRequest) -> bool {
    &&& a.job_type@ == b.job_type@
    &&& a.worker@ == b.worker@
    &&& a.timeout == b.timeout
    &&& a.max_jobs_to_activate == b.max_jobs_to_activate
    &&& a.fetch_variable.deep_view() == b.fetch_variable.deep_view()
    &&& a.request_timeout == b.request_timeout
    &&& a.tenant_ids.deep_view() == b.tenant_ids.deep_view()
}

/// Copies an activation request field by field.
pub fn copy_request(r: &ActivateJobsRequest) -> (c: ActivateJobsRequest)
    ensures
        same_request(c, *r),
{
    ActivateJobsRequest {
        job_type: r.job_type.clone(),
        worker: r.worker.clone(),
        timeout: r.timeout,
        max_jobs_to_activate: r.max_jobs_to_activate,
        fetch_variable: copy_strings(&r.fetch_variable),
        request_timeout: r.request_timeout,
        tenant_ids: copy_strings(&r.tenant_ids),
    }
}

impl JobPoller {
    /// The poller's invariant: the refill threshold never exceeds the
    /// number of jobs the worker may hold.
    pub open spec fn wf(&self) -> bool {
        self.threshold <= self.max_jobs_active
    }

    /// Whether the poller would start an activation now.
    pub open spec fn spec_should_activate(&self) -> bool {
        self.remaining <= self.threshold && !self.request_in_progress
    }

    /// The number of jobs an activation started now asks for.
    pub open spec fn spec_batch_size(&self) -> i32 {
        (self.max_jobs_active - self.remaining) as i32
    }

    /// The state after one message (`None`: the message stream ended).
    pub open spec fn next(self, message: Option<PollMessage>) -> JobPoller {
        match message {
            None => self,
            Some(PollMessage::JobsArrived(n)) => JobPoller {
                remaining: self.remaining.saturating_add(n),
                ..self
            },
            Some(PollMessage::JobFinished) => JobPoller {
                remaining: self.remaining.saturating_sub(1),
                ..self
            },
            Some(PollMessage::FetchJobs) => if self.spec_should_activate() {
                JobPoller {
                    request_in_progress: true,
                    request: ActivateJobsRequest {
                        max_jobs_to_activate: self.spec_batch_size(),
                        request_timeout: self.long_polling_millis,
                        ..self.request
                    },
                    ..self
                }
            } else {
                self
            },
            Some(PollMessage::FetchJobsComplete) => JobPoller {
                request_in_progress: false,
                ..self
            },
        }
    }

    /// Whether a message makes the poller start an activation.
    pub open spec fn activates(self, message: Option<PollMessage>) -> bool {
        message == Some(PollMessage::FetchJobs) && self.spec_should_activate()
    }

    /// A poller for the given request template, with `threshold` the number
    /// of outstanding jobs at or below which it asks for more.
    pub fn new(request: ActivateJobsRequest, threshold: u32, long_polling_millis: i64) -> (p: Self)
        requires
            threshold <= request.max_jobs_to_activate as u32,
        ensures
            p.wf(),
            p.request == request,
            p.max_jobs_active == request.max_jobs_to_activate as u32,
            p.threshold == threshold,
            p.long_polling_millis == long_polling_millis,
            p.remaining == 0,
            !p.request_in_progress,
    {
        let max_jobs_active = request.max_jobs_to_activate as u32;
        JobPoller {
            request,
            long_polling_millis,
            request_in_progress: false,
            max_jobs_active,
            remaining: 0,
            threshold,
        }
    }

    /// Whether the poller should start an activation now.
    pub fn should_activate_jobs(&self) -> (r: bool)
        ensures
            r == self.spec_should_activate(),
    {
        self.remaining <= self.threshold && !self.request_in_progress
    }

    /// Prepares the next activation: asks for as many jobs as the worker has
    /// room for, with the long-polling timeout.
    pub fn activate_jobs(&mut self) -> (req: ActivateJobsRequest)
        requires
            old(self).remaining <= old(self).max_jobs_active,
        ensures
            *final(self) == (JobPoller {
                request: ActivateJobsRequest {
                    max_jobs_to_activate: old(self).spec_batch_size(),
                    request_timeout: old(self).long_polling_millis,
                    ..old(self).request
                },
                ..*old(self)
            }),
            same_request(req, final(self).request),
    {
        self.request.max_jobs_to_activate = (self.max_jobs_active - self.remaining) as i32;
        self.request.request_timeout = self.long_polling_millis;
        copy_request(&self.request)
    }

    /// Handles one message (`None`: the message stream ended) and says what
    /// to do next.
    pub fn handle(&mut self, message: Option<PollMessage>) -> (action: PollAction)
        requires
            old(self).wf(),
        ensures
            final(self).wf(),
            *final(self) == old(self).next(message),
            message is None <==> action is Stop,
            old(self).activates(message) <==> action is Activate,
            action matches PollAction::Activate(req) ==> same_request(req, final(self).request),
            final(self).request == (ActivateJobsRequest {
                max_jobs_to_activate: final(self).request.max_jobs_to_activate,
                request_timeout: final(self).request.request_timeout,
                ..old(self).request
            }),
            action matches PollAction::Activate(req) ==> {
                &&& req.job_type@ == old(self).request.job_type@
                &&& req.worker@ == old(self).request.worker@
                &&& req.timeout == old(self).request.timeout
                &&& req.fetch_variable.deep_view() == old(self).request.fetch_variable.deep_view()
                &&& req.tenant_ids.deep_view() == old(self).request.tenant_ids.deep_view()
                &&& req.max_jobs_to_activate == (old(self).max_jobs_active - old(self).remaining) as i32
                &&& req.request_timeout == old(self).long_polling_millis
            },
    {
        match message {
            None => PollAction::Stop,
            Some(PollMessage::JobsArrived(n)) => {
                self.remaining = self.remaining.saturating_add(n);
                PollAction::Idle
            },
            Some(PollMessage::JobFinished) => {
                self.remaining = self.remaining.saturating_sub(1);
                PollAction::Idle
            },
            Some(PollMessage::FetchJobs) => {
                if self.should_activate_jobs() {
                    self.request_in_progress = true;
                    let req = self.activate_jobs();
                    PollAction::Activate(req)
                } else {
                    PollAction::Idle
                }
            },
            Some(PollMessage::FetchJobsComplete) => {
                self.request_in_progress = false;
                PollAction::Idle
            },
        }
    }
}

/// The poller's state after the first `i` messages of `msgs`.
pub open spec fn state_after(p: JobPoller, msgs: Seq<PollMessage>, i: nat) -> JobPoller
    decreases i,
{
    if i == 0 {
        p
    } else {
        state_after(p, msgs, (i - 1) as nat).next(Some(msgs[i - 1]))
    }
}

/// An activation sends the worker's request template: only the number of
/// jobs asked for (the room left) and the long-polling timeout change, while
/// the job type, the worker name, the job lock timeout, the fetched variables
/// and the tenants stay the template's. A message that starts no activation
/// leaves the template as it is.
pub proof fn lemma_activation_keeps_template(p: JobPoller, message: Option<PollMessage>)
    ensures
        p.next(message).request.job_type == p.request.job_type,
        p.next(message).request.worker == p.request.worker,
        p.next(message).request.timeout == p.request.timeout,
        p.next(message).request.fetch_variable == p.request.fetch_variable,
        p.next(message).request.tenant_ids == p.request.tenant_ids,
        p.activates(message) ==> p.next(message).request.max_jobs_to_activate
            == (p.max_jobs_active - p.remaining) as i32,
        p.activates(message) ==> p.next(message).request.request_timeout == p.long_polling_millis,
        !p.activates(message) ==> p.next(message).request == p.request,
{
}

/// How each message moves the count of outstanding jobs and the in-flight
/// flag: arrived jobs add to the count (up to the largest count), a finished
/// job takes one off (never below zero), a completed activation clears the
/// flag, an activation sets it, and the end of the stream changes nothing.
pub proof fn lemma_message_accounting(p: JobPoller, n: u32)
    ensures
        p.next(Some(PollMessage::JobsArrived(n))).remaining
            == (if p.remaining + n <= u32::MAX { (p.remaining + n) as u32 } else { u32::MAX }),
        p.next(Some(PollMessage::JobFinished)).remaining
            == (if p.remaining > 0 { (p.remaining - 1) as u32 } else { 0 }),
        !p.next(Some(PollMessage::FetchJobsComplete)).request_in_progress,
        p.next(Some(PollMessage::FetchJobsComplete)).remaining == p.remaining,
        p.activates(Some(PollMessage::FetchJobs)) ==> p.next(Some(PollMessage::FetchJobs)).request_in_progress,
        !p.activates(Some(PollMessage::FetchJobs)) ==> p.next(Some(PollMessage::FetchJobs)) == p,
        p.next(None) == p,
{
}

/// Every message keeps the poller's invariant.
pub proof fn lemma_next_keeps_wf(p: JobPoller, message: Option<PollMessage>)
    requires
        p.wf(),
    ensures
        p.next(message).wf(),
{
}

/// Every state the poller reaches from a well-formed state is well formed.
pub proof fn lemma_run_keeps_wf(p: JobPoller, msgs: Seq<PollMessage>, i: nat)
    requires
        p.wf(),
        i <= msgs.len(),
    ensures
        state_after(p, msgs, i).wf(),
    decreases i,
{
    if i > 0 {
        lemma_run_keeps_wf(p, msgs, (i - 1) as nat);
    }
}

/// An activation asks for exactly the room left in the worker: the jobs the
/// next request asks for and the jobs still outstanding add up to the
/// worker's maximum, and it asks for at least the maximum less the refill
/// threshold. (The request's field is an `i32`, so this holds where the
/// maximum fits in it, as a maximum read from a request does.)
pub proof fn lemma_activation_fills_capacity(p: JobPoller)
    requires
        p.wf(),
        p.max_jobs_active <= i32::MAX,
        p.activates(Some(PollMessage::FetchJobs)),
    ensures
        p.remaining + p.next(Some(PollMessage::FetchJobs)).request.max_jobs_to_activate == p.max_jobs_active,
        p.max_jobs_active - p.threshold <= p.next(Some(PollMessage::FetchJobs)).request.max_jobs_to_activate,
        p.next(Some(PollMessage::FetchJobs)).request_in_progress,
{
}

/// While an activation is in flight, and no completion has arrived, the
/// poller starts no other activation.
proof fn lemma_in_flight_until_complete(p: JobPoller, msgs: Seq<PollMessage>, i: nat, k: nat)
    requires
        i < k <= msgs.len(),
        state_after(p, msgs, i).activates(Some(msgs[i as int])),
        forall|m: int| i < m < k ==> msgs[m] != PollMessage::FetchJobsComplete,
    ensures
        state_after(p, msgs, k).request_in_progress,
    decreases k - i,
{
    if k == i + 1 {
    } else {
        lemma_in_flight_until_complete(p, msgs, i, (k - 1) as nat);
        let prev = state_after(p, msgs, (k - 1) as nat);
        assert(state_after(p, msgs, k) == prev.next(Some(msgs[k - 1])));
    }
}

/// At most one activation is in flight at a time: between any two
/// activations the poller has been told that the first one ended.
pub proof fn lemma_one_activation_in_flight(p: JobPoller, msgs: Seq<PollMessage>, i: nat, j: nat)
    requires
        i < j < msgs.len(),
        state_after(p, msgs, i).activates(Some(msgs[i as int])),
        state_after(p, msgs, j).activates(Some(msgs[j as int])),
    ensures
        exists|k: int| i < k < j && msgs[k] == PollMessage::FetchJobsComplete,
{
    if !(exists|k: int| i < k < j && msgs[k] == PollMessage::FetchJobsComplete) {
        lemma_in_flight_until_complete(p, msgs, i, j);
    }
}

/// The jobs that the activation in flight asked for and has not delivered
/// yet, after the first `i` messages of `msgs`.
pub open spec fn pending_after(p: JobPoller, msgs: Seq<PollMessage>, i: nat) -> int
    decreases i,
{
    if i == 0 {
        0
    } else {
        let s = state_after(p, msgs, (i - 1) as nat);
        let before = pending_after(p, msgs, (i - 1) as nat);
        match msgs[i - 1] {
            PollMessage::FetchJobs => if s.spec_should_activate() {
                s.max_jobs_active - s.remaining
            } else {
                before
            },
            PollMessage::JobsArrived(n) => before - n,
            PollMessage::FetchJobsComplete => 0,
            PollMessage::JobFinished => before,
        }
    }
}

/// The gateway delivers no more jobs than the activation in flight asked
/// for.
pub open spec fn delivers_at_most_asked(p: JobPoller, msgs: Seq<PollMessage>) -> bool {
    forall|i: int| 0 <= i < msgs.len() ==> (#[trigger] msgs[i] matches PollMessage::JobsArrived(n)
        ==> n <= pending_after(p, msgs, i as nat))
}

/// The accounting invariant: outstanding and pending jobs fit in the
/// worker's capacity, and nothing is pending without an activation in flight.
proof fn lemma_accounting(p: JobPoller, msgs: Seq<PollMessage>, i: nat)
    requires
        p.wf(),
        p.remaining == 0,
        !p.request_in_progress,
        delivers_at_most_asked(p, msgs),
        i <= msgs.len(),
    ensures
        state_after(p, msgs, i).wf(),
        state_after(p, msgs, i).max_jobs_active == p.max_jobs_active,
        pending_after(p, msgs, i) >= 0,
        state_after(p, msgs, i).remaining + pending_after(p, msgs, i) <= p.max_jobs_active,
        !state_after(p, msgs, i).request_in_progress ==> pending_after(p, msgs, i) == 0,
    decreases i,
{
    if i > 0 {
        let k = (i - 1) as nat;
        lemma_accounting(p, msgs, k);
        let m = msgs[k as int];
        assert(m matches PollMessage::JobsArrived(n) ==> n <= pending_after(p, msgs, k));
    }
}

/// Flow control: as long as the gateway delivers no more jobs than asked
/// for, a worker that starts idle never holds more jobs than its maximum.
pub proof fn lemma_never_over_capacity(p: JobPoller, msgs: Seq<PollMessage>, i: nat)
    requires
        p.wf(),
        p.remaining == 0,
        !p.request_in_progress,
        delivers_at_most_asked(p, msgs),
        i <= msgs.len(),
    ensures
        state_after(p, msgs, i).remaining <= p.max_jobs_active,
{
    lemma_accounting(p, msgs, i);
}

} // verus!
