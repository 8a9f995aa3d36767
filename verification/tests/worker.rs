use zeebe::client::Client;
use zeebe::job::Job;
use zeebe::oauth::AuthInterceptor;
use zeebe::proto::ActivatedJob;
use zeebe::worker::auto_handler::{report_extraction_failure, report_outcome, state_from_job, JobReport};
use zeebe::worker::{Data, JobExtensions, JobPoller, PollAction, PollMessage, State, WorkerSettings};
use zeebe::ZeebeError;

fn client(rt: &tokio::runtime::Runtime) -> Client {
    let _guard = rt.enter();
    let channel = tonic::transport::Channel::balance_list(
        Client::build_endpoints(vec!["http://127.0.0.1:26500".to_string()], None).unwrap().into_iter(),
    );
    Client::from_channel(channel, AuthInterceptor::default())
}

fn runtime() -> tokio::runtime::Runtime {
    tokio::runtime::Runtime::new().unwrap()
}

fn poller(max: u32) -> JobPoller {
    let settings = WorkerSettings::new().with_job_type("t").with_max_jobs_active(max);
    let threshold = ((max as f32) * 0.3).floor() as u32;
    JobPoller::new(settings.request, threshold, 9000)
}

#[test]
fn worker_defaults() {
    let s = WorkerSettings::new();
    assert_eq!(s.concurrency, 4);
    assert_eq!(s.request.job_type, "");
    assert_eq!(s.request.worker, "default");
    assert_eq!(s.request.timeout, 300000);
    assert_eq!(s.request.max_jobs_to_activate, 32);
    assert_eq!(s.request.request_timeout, 10000);
    assert!(s.request.fetch_variable.is_empty());
    assert!(s.request.tenant_ids.is_empty());
}

#[test]
fn worker_setters() {
    let s = WorkerSettings::new()
        .with_job_type("payment-service")
        .with_worker_name("w")
        .with_timeout_millis(1500)
        .with_request_timeout_millis(2500)
        .with_max_jobs_active(7)
        .with_concurrency(2)
        .with_fetch_variables(vec!["a".to_string()])
        .with_tenant_ids(vec!["t".to_string()]);
    assert_eq!(s.request.job_type, "payment-service");
    assert_eq!(s.request.worker, "w");
    assert_eq!(s.request.timeout, 1500);
    assert_eq!(s.request.request_timeout, 2500);
    assert_eq!(s.request.max_jobs_to_activate, 7);
    assert_eq!(s.concurrency, 2);
    assert_eq!(s.request.fetch_variable, vec!["a".to_string()]);
    assert_eq!(s.request.tenant_ids, vec!["t".to_string()]);
}

#[test]
fn worker_needs_job_type_and_handler() {
    let msg = "`job_type` and `handler` must be set";
    let e = WorkerSettings::new().check_runnable(true).unwrap_err();
    assert!(matches!(e, ZeebeError::InvalidParameters(m) if m == msg));
    let e = WorkerSettings::new().with_job_type("t").check_runnable(false).unwrap_err();
    assert!(matches!(e, ZeebeError::InvalidParameters(m) if m == msg));
    assert!(WorkerSettings::new().with_job_type("t").check_runnable(true).is_ok());
}

#[test]
fn poller_activates_when_below_threshold() {
    let mut p = poller(32);
    assert_eq!(p.threshold, 9);
    match p.handle(Some(PollMessage::FetchJobs)) {
        PollAction::Activate(req) => {
            assert_eq!(req.max_jobs_to_activate, 32);
            assert_eq!(req.request_timeout, 9000);
            assert_eq!(req.job_type, "t");
        }
        other => panic!("expected an activation, got {:?}", other),
    }
    assert!(p.request_in_progress);
}

#[test]
fn poller_single_activation_in_flight() {
    let mut p = poller(32);
    assert!(matches!(p.handle(Some(PollMessage::FetchJobs)), PollAction::Activate(_)));
    assert!(matches!(p.handle(Some(PollMessage::FetchJobs)), PollAction::Idle));
    assert!(matches!(p.handle(Some(PollMessage::JobsArrived(3))), PollAction::Idle));
    assert!(matches!(p.handle(Some(PollMessage::FetchJobs)), PollAction::Idle));
    assert!(matches!(p.handle(Some(PollMessage::FetchJobsComplete)), PollAction::Idle));
    match p.handle(Some(PollMessage::FetchJobs)) {
        PollAction::Activate(req) => assert_eq!(req.max_jobs_to_activate, 29),
        other => panic!("expected an activation, got {:?}", other),
    }
}

#[test]
fn poller_waits_while_above_threshold() {
    let mut p = poller(32);
    p.handle(Some(PollMessage::JobsArrived(20)));
    assert_eq!(p.remaining, 20);
    assert!(matches!(p.handle(Some(PollMessage::FetchJobs)), PollAction::Idle));
    for _ in 0..11 {
        p.handle(Some(PollMessage::JobFinished));
    }
    assert_eq!(p.remaining, 9);
    match p.handle(Some(PollMessage::FetchJobs)) {
        PollAction::Activate(req) => assert_eq!(req.max_jobs_to_activate, 23),
        other => panic!("expected an activation, got {:?}", other),
    }
}

#[test]
fn poller_counts_saturate() {
    let mut p = poller(32);
    p.handle(Some(PollMessage::JobFinished));
    assert_eq!(p.remaining, 0);
    p.handle(Some(PollMessage::JobsArrived(u32::MAX)));
    p.handle(Some(PollMessage::JobsArrived(5)));
    assert_eq!(p.remaining, u32::MAX);
}

#[test]
fn poller_stops_at_end_of_stream() {
    let mut p = poller(32);
    assert!(matches!(p.handle(None), PollAction::Stop));
    assert_eq!(p.remaining, 0);
    assert!(!p.request_in_progress);
}

#[test]
fn data_and_state_give_back_their_values() {
    let d = Data(5u32);
    assert_eq!(*d, 5);
    assert_eq!(d.into_inner(), 5);
    let s = State::new(String::from("shared"));
    let t = s.clone();
    assert_eq!(t.get_ref(), "shared");
    assert!(std::sync::Arc::ptr_eq(&s.into_inner(), &t.into_inner()));
}

#[test]
fn extensions_store_one_value_per_type() {
    let mut ext = JobExtensions::new();
    assert!(ext.get::<u8>().is_none());
    ext.insert(5u8);
    ext.insert(String::from("state"));
    assert_eq!(ext.get::<u8>(), Some(&5u8));
    ext.insert(9u8);
    assert_eq!(ext.get::<u8>(), Some(&9u8));
    assert_eq!(ext.get::<String>().map(|s| s.as_str()), Some("state"));
    assert!(ext.get::<u16>().is_none());
}

#[test]
fn state_comes_from_worker_extensions() {
    let rt = runtime();
    let c = client(&rt);
    assert!(matches!(state_from_job::<u32>(&c), Err(ZeebeError::MissingWorkerStateConfig)));
    let mut ext = JobExtensions::new();
    ext.insert(State::new(41u32));
    let job = Job::new(ActivatedJob {
        key: 5,
        job_type: String::new(),
        process_instance_key: 0,
        bpmn_process_id: String::new(),
        process_definition_version: 0,
        process_definition_key: 0,
        element_id: String::new(),
        element_instance_key: 0,
        custom_headers: String::new(),
        worker: String::new(),
        retries: 0,
        deadline: 0,
        variables: String::new(),
        tenant_id: String::new(),
    });
    let handling = c.for_job(&job, &std::sync::Arc::new(ext));
    assert_eq!(handling.current_job_key, Some(5));
    assert_eq!(*state_from_job::<u32>(&handling).unwrap().get_ref(), 41);
    assert!(matches!(state_from_job::<u64>(&handling), Err(ZeebeError::MissingWorkerStateConfig)));
}

#[test]
fn auto_handler_reports_outcomes() {
    let rt = runtime();
    let c = client(&rt).with_current_job_key(3);
    match report_outcome(&c, Ok(serde_json::from_str("{\"result\":42}").unwrap())) {
        JobReport::Complete(b) => {
            let req = b.into_request().unwrap();
            assert_eq!(req.job_key, 3);
            assert_eq!(req.variables, "{\"result\":42}");
        }
        JobReport::Fail(_) => panic!("expected completion"),
    }
    match report_outcome(&c, Err("unknown error occurred".to_string())) {
        JobReport::Fail(b) => {
            let req = b.into_request().unwrap();
            assert_eq!(req.job_key, 3);
            assert_eq!(req.error_message, "unknown error occurred");
            assert_eq!(req.retries, 0);
        }
        JobReport::Complete(_) => panic!("expected failure"),
    }
    let req = report_extraction_failure(&c, "Error(\"x\")").into_request().unwrap();
    assert_eq!(req.error_message, "variables do not deserialize to expected type: Error(\"x\")");
}

#[test]
fn state_from_arc_shares_it() {
    let arc = std::sync::Arc::new(3u8);
    let s: State<u8> = State::from(arc.clone());
    assert!(std::sync::Arc::ptr_eq(&*s, &arc));
}

#[test]
fn poller_stays_within_capacity_when_gateway_delivers_what_was_asked() {
    let mut p = poller(10);
    let mut pending: u32 = 0;
    for round in 0..20u32 {
        if let PollAction::Activate(req) = p.handle(Some(PollMessage::FetchJobs)) {
            pending = req.max_jobs_to_activate as u32;
        }
        let delivered = pending.min(round % 4 + 1);
        p.handle(Some(PollMessage::JobsArrived(delivered)));
        pending -= delivered;
        assert!(p.remaining <= p.max_jobs_active);
        if round % 3 == 0 {
            p.handle(Some(PollMessage::FetchJobsComplete));
            pending = 0;
        }
        if round % 2 == 0 {
            p.handle(Some(PollMessage::JobFinished));
        }
        assert!(p.remaining <= p.max_jobs_active);
    }
}
