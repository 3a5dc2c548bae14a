use openai_rst::client::Client;
use openai_rst::error::APIError;
use openai_rst::json::Json;
use openai_rst::lifecycle;
use openai_rst::polling::{Step, Waiter};
use openai_rst::run::{CreateRunRequest, RunObject, RunStatus};
use openai_rst::transport::{ApiRequest, HttpResponse, Method};
use std::cell::RefCell;

fn s(text: &str) -> String {
    text.to_string()
}

/// A service that holds one run and moves it along a prepared course: each
/// poll shows the next status of the course, and the last one for ever.
struct Service {
    course: Vec<&'static str>,
    at: usize,
    created: bool,
    polls: usize,
    requests: usize,
    break_at_poll: Option<usize>,
}

impl Service {
    fn new(course: Vec<&'static str>) -> Service {
        Service { course, at: 0, created: false, polls: 0, requests: 0, break_at_poll: None }
    }

    fn body(&self) -> String {
        let status = self.course[self.at];
        let stamp = |wanted: &str| {
            if status == wanted {
                "1699063300".to_string()
            } else {
                "null".to_string()
            }
        };
        format!(
            "{{\"id\":\"run_1\",\"object\":\"thread.run\",\"created_at\":1699063290,\
             \"thread_id\":\"thread_1\",\"assistant_id\":\"asst_1\",\"status\":\"{}\",\
             \"completed_at\":{},\"failed_at\":{},\"cancelled_at\":{},\
             \"model\":\"gpt-4\",\"tools\":[],\"file_ids\":[],\"metadata\":{{}}}}",
            status,
            stamp("completed"),
            stamp("failed"),
            stamp("cancelled")
        )
    }

    fn answer(&self, status: u16, body: String) -> HttpResponse {
        HttpResponse {
            status,
            headers: vec![(s("X-Request-Id"), format!("req_{}", self.requests))],
            body,
        }
    }

    fn send(&mut self, call: &ApiRequest) -> Result<HttpResponse, APIError> {
        self.requests += 1;
        let base = "https://api.openai.com/v1/threads/thread_1/runs";
        if call.method == Method::Post && call.url == base {
            let body = call.body.as_ref().expect("a creation has a body");
            assert_eq!(body.get("assistant_id"), Some(&Json::Text(s("asst_1"))));
            self.created = true;
            self.at = 0;
            return Ok(self.answer(200, self.body()));
        }
        if call.method == Method::Get && call.url == format!("{}/run_1", base) {
            assert!(self.created);
            self.polls += 1;
            if self.break_at_poll == Some(self.polls) {
                return Err(APIError::TransportError(s("connection reset")));
            }
            if self.at + 1 < self.course.len() {
                self.at += 1;
            }
            return Ok(self.answer(200, self.body()));
        }
        if call.method == Method::Post && call.url == format!("{}/run_1/cancel", base) {
            assert_eq!(call.body, Some(Json::Object(vec![])));
            self.course = vec!["cancelling", "cancelling", "cancelled"];
            self.at = 0;
            return Ok(self.answer(200, self.body()));
        }
        Ok(self.answer(404, s("{\"error\":\"no such route\"}")))
    }
}

fn create(service: &mut Service, client: &Client) -> Result<RunObject, APIError> {
    let service = RefCell::new(service);
    let send = |call: ApiRequest| service.borrow_mut().send(&call);
    lifecycle::create(client, &send, s("thread_1"), CreateRunRequest::new(s("asst_1")))
}

fn poll(service: &mut Service, client: &Client) -> Result<RunObject, APIError> {
    let service = RefCell::new(service);
    let send = |call: ApiRequest| service.borrow_mut().send(&call);
    lifecycle::poll(client, &send, s("thread_1"), s("run_1"))
}

fn cancel(service: &mut Service, client: &Client) -> Result<RunObject, APIError> {
    let service = RefCell::new(service);
    let send = |call: ApiRequest| service.borrow_mut().send(&call);
    lifecycle::cancel(client, &send, s("thread_1"), s("run_1"))
}

/// The wait of the library over the service; the sleeps are recorded in
/// place of being slept.
fn await_terminal(
    service: &mut Service,
    client: &Client,
    poll_interval: u64,
    max_wait: u64,
    sleeps: &mut Vec<u64>,
) -> Result<RunObject, APIError> {
    let service = RefCell::new(service);
    let sleeps = RefCell::new(sleeps);
    let send = |call: ApiRequest| service.borrow_mut().send(&call);
    lifecycle::await_terminal(
        client,
        &send,
        |ms| sleeps.borrow_mut().push(ms),
        s("thread_1"),
        s("run_1"),
        poll_interval,
        max_wait,
    )
}

/// The same wait, driven step by step as a caller does that cannot block.
fn await_stepwise(
    service: &mut Service,
    client: &Client,
    poll_interval: u64,
    max_wait: u64,
) -> Result<RunObject, APIError> {
    let mut waiter = Waiter::start(poll_interval, max_wait)?;
    loop {
        let outcome = poll(service, client);
        match waiter.observe(outcome) {
            Step::Sleep(_) => {}
            Step::Done(run) => return Ok(run),
            Step::Failed(e) => return Err(e),
        }
    }
}

fn same_snapshot(a: &RunObject, b: &RunObject) -> bool {
    a.id == b.id
        && a.object == b.object
        && a.created_at == b.created_at
        && a.thread_id == b.thread_id
        && a.assistant_id == b.assistant_id
        && a.status == b.status
        && a.last_error == b.last_error
        && a.expires_at == b.expires_at
        && a.started_at == b.started_at
        && a.cancelled_at == b.cancelled_at
        && a.failed_at == b.failed_at
        && a.completed_at == b.completed_at
        && a.model == b.model
        && a.instructions == b.instructions
        && a.file_ids == b.file_ids
        && a.metadata.same_as(&b.metadata)
}

#[test]
fn a_run_is_created_queued_and_polled_to_completion() {
    let client = Client::new(s("sk-test")).unwrap();
    let mut service = Service::new(vec!["queued", "in_progress", "completed"]);

    let created = create(&mut service, &client).unwrap();
    assert_eq!(created.status, "queued");
    assert_eq!(created.run_status(), Some(RunStatus::Queued));
    assert_eq!(created.thread_id, "thread_1");
    assert_eq!(created.assistant_id, "asst_1");

    let first = poll(&mut service, &client).unwrap();
    assert_eq!(first.status, "in_progress");
    assert_eq!(first.completed_at, None);

    let second = poll(&mut service, &client).unwrap();
    assert_eq!(second.status, "completed");
    assert_eq!(second.completed_at, Some(1699063300));
    assert_eq!(second.failed_at, None);

    // A terminal status is seen again by every later poll.
    let third = poll(&mut service, &client).unwrap();
    assert_eq!(third.status, "completed");
    assert!(same_snapshot(&second, &third));
}

#[test]
fn a_wait_returns_the_snapshot_that_manual_polls_arrive_at() {
    let client = Client::new(s("sk-test")).unwrap();

    let mut by_hand = Service::new(vec!["queued", "in_progress", "completed"]);
    create(&mut by_hand, &client).unwrap();
    poll(&mut by_hand, &client).unwrap();
    poll(&mut by_hand, &client).unwrap();
    let manual = poll(&mut by_hand, &client).unwrap();

    let mut waited = Service::new(vec!["queued", "in_progress", "completed"]);
    create(&mut waited, &client).unwrap();
    let mut sleeps = Vec::new();
    let awaited = await_terminal(&mut waited, &client, 100, 10_000, &mut sleeps).unwrap();

    assert!(same_snapshot(&manual, &awaited));
    assert_eq!(awaited.status, "completed");
    assert_eq!(awaited.completed_at, Some(1699063300));
    assert_eq!(awaited.failed_at, None);
    // The run completes at the second poll: two polls, one sleep between them.
    assert_eq!(waited.polls, 2);
    assert_eq!(sleeps, vec![100]);
    // The envelope is that of the last response.
    assert_eq!(awaited.headers.as_ref().unwrap().get("x-request-id"), Some(&s("req_3")));

    let mut stepwise = Service::new(vec!["queued", "in_progress", "completed"]);
    create(&mut stepwise, &client).unwrap();
    let stepped = await_stepwise(&mut stepwise, &client, 100, 10_000).unwrap();
    assert!(same_snapshot(&awaited, &stepped));
    assert_eq!(stepwise.polls, 2);
}

#[test]
fn a_cancellation_is_acknowledged_before_it_is_carried_out() {
    let client = Client::new(s("sk-test")).unwrap();
    let mut service = Service::new(vec!["queued", "in_progress", "in_progress", "completed"]);
    create(&mut service, &client).unwrap();
    assert_eq!(poll(&mut service, &client).unwrap().status, "in_progress");

    let acknowledged = cancel(&mut service, &client).unwrap();
    assert_eq!(acknowledged.status, "cancelling");
    assert_eq!(acknowledged.run_status(), Some(RunStatus::Cancelling));
    assert_eq!(acknowledged.cancelled_at, None);

    let mut sleeps = Vec::new();
    let settled = await_terminal(&mut service, &client, 50, 1_000, &mut sleeps).unwrap();
    assert_eq!(settled.status, "cancelled");
    assert_eq!(settled.cancelled_at, Some(1699063300));
    assert_eq!(sleeps, vec![50]);
    assert!(RunStatus::InProgress.can_be_followed_by(RunStatus::Cancelling));
    assert!(RunStatus::Cancelling.can_be_followed_by(RunStatus::Cancelled));
}

#[test]
fn a_wait_with_a_zero_interval_makes_no_request() {
    let client = Client::new(s("sk-test")).unwrap();
    let mut service = Service::new(vec!["queued", "completed"]);
    create(&mut service, &client).unwrap();
    let before = service.requests;
    let mut sleeps = Vec::new();
    match await_terminal(&mut service, &client, 0, 1_000, &mut sleeps) {
        Err(APIError::ConfigurationError(_)) => {}
        other => panic!("{:?}", other),
    }
    assert_eq!(service.requests, before);
    assert_eq!(service.polls, 0);
    assert!(sleeps.is_empty());
}

#[test]
fn a_wait_shorter_than_one_interval_polls_once_and_times_out() {
    let client = Client::new(s("sk-test")).unwrap();
    let mut service = Service::new(vec!["queued", "queued", "queued", "completed"]);
    create(&mut service, &client).unwrap();
    let mut sleeps = Vec::new();
    match await_terminal(&mut service, &client, 1_000, 999, &mut sleeps) {
        Err(APIError::Timeout) => {}
        other => panic!("{:?}", other),
    }
    assert_eq!(service.polls, 1);
    assert!(sleeps.is_empty());
}

#[test]
fn a_wait_times_out_when_the_run_stays_queued() {
    let client = Client::new(s("sk-test")).unwrap();
    let mut service = Service::new(vec!["queued"]);
    create(&mut service, &client).unwrap();
    let mut sleeps = Vec::new();
    match await_terminal(&mut service, &client, 100, 350, &mut sleeps) {
        Err(APIError::Timeout) => {}
        other => panic!("{:?}", other),
    }
    assert_eq!(service.polls, 4);
    assert_eq!(sleeps, vec![100, 100, 100]);
}

#[test]
fn a_wait_stops_at_requires_action() {
    let client = Client::new(s("sk-test")).unwrap();
    let mut service = Service::new(vec!["queued", "in_progress", "requires_action", "completed"]);
    create(&mut service, &client).unwrap();
    let mut sleeps = Vec::new();
    let run = await_terminal(&mut service, &client, 10, 1_000, &mut sleeps).unwrap();
    assert_eq!(run.status, "requires_action");
    assert_eq!(service.polls, 2);
}

#[test]
fn a_wait_does_not_retry_a_failed_poll() {
    let client = Client::new(s("sk-test")).unwrap();
    let mut service = Service::new(vec!["queued", "queued", "queued", "completed"]);
    service.break_at_poll = Some(2);
    create(&mut service, &client).unwrap();
    let mut sleeps = Vec::new();
    match await_terminal(&mut service, &client, 10, 1_000, &mut sleeps) {
        Err(APIError::TransportError(text)) => assert_eq!(text, "connection reset"),
        other => panic!("{:?}", other),
    }
    assert_eq!(service.polls, 2);
    assert_eq!(sleeps, vec![10]);
}

#[test]
fn a_request_to_an_unknown_route_is_an_http_status_error() {
    let client = Client::new(s("sk-test")).unwrap();
    let mut service = Service::new(vec!["queued"]);
    let service = RefCell::new(&mut service);
    let send = |call: ApiRequest| service.borrow_mut().send(&call);
    match lifecycle::poll(&client, &send, s("thread_9"), s("run_1")) {
        Err(APIError::HttpStatusError { status: 404, body }) => {
            assert_eq!(body, "{\"error\":\"no such route\"}")
        }
        other => panic!("{:?}", other),
    }
}

#[test]
fn the_timestamps_of_a_snapshot_agree_with_its_status() {
    let client = Client::new(s("sk-test")).unwrap();
    let mut service = Service::new(vec!["queued", "in_progress", "completed"]);
    let created = create(&mut service, &client).unwrap();
    assert!(created.is_coherent());
    let running = poll(&mut service, &client).unwrap();
    assert!(running.is_coherent());
    let mut done = poll(&mut service, &client).unwrap();
    assert!(done.is_coherent());
    done.failed_at = Some(1);
    assert!(!done.is_coherent());
    done.failed_at = None;
    done.status = s("in_progress");
    assert!(!done.is_coherent());
    done.completed_at = None;
    done.started_at = Some(1);
    assert!(done.is_coherent());
    done.status = s("queued");
    assert!(!done.is_coherent());
    done.started_at = None;
    done.status = s("sleeping");
    assert!(!done.is_coherent());
}
