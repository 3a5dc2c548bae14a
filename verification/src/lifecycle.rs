//! The life of a run from the side of the caller: create it, poll it, wait
//! until it is settled, cancel it.
//!
//! The four operations are split on purpose. A caller may poll at a pace
//! of its own, do other work between two polls, or cancel; a creation that
//! waited by itself would take that away and would blur the difference
//! between a run that is still running and a call that failed.
//!
//! Each operation is handed the transport as a function from the call to
//! the response. A failure of the transport is returned as it is and never
//! retried.

use crate::client::Client;
use crate::error::APIError;
use crate::polling::{awaited, Millis, Outcome};
use crate::resource::Encode;
use crate::run::{CreateRunRequest, ModifyRunRequest, RunObject};
use crate::transport::{dispatch, dispatched, ApiRequest, HttpResponse, Method};
use vstd::prelude::*;

verus! {

/// The call that creates a run on a thread.
pub open spec fn is_create_call(
    client: Client,
    thread_id: Seq<char>,
    request: CreateRunRequest,
    call: ApiRequest,
) -> bool {
    &&& call.method == Method::Post
    &&& call.url@ == client.endpoint@ + "/threads/"@ + thread_id + "/runs"@
    &&& call.body matches Some(body)
    &&& body@ == request.encoding()
}

/// The call that polls a run.
pub open spec fn is_poll_call(
    client: Client,
    thread_id: Seq<char>,
    run_id: Seq<char>,
    call: ApiRequest,
) -> bool {
    &&& call.method == Method::Get
    &&& call.url@ == client.endpoint@ + "/threads/"@ + thread_id + "/runs/"@ + run_id
    &&& call.body is None
}

/// The call that asks for the cancellation of a run.
pub open spec fn is_cancel_call(
    client: Client,
    thread_id: Seq<char>,
    run_id: Seq<char>,
    call: ApiRequest,
) -> bool {
    &&& call.method == Method::Post
    &&& call.url@ == client.endpoint@ + "/threads/"@ + thread_id + "/runs/"@ + run_id
        + "/cancel"@
    &&& call.body matches Some(body)
    &&& body@ == (ModifyRunRequest { metadata: None }).encoding()
}

/// `outcome` is what the transport `send` made of the call `call`: its own
/// error, or the decoding of its response.
pub open spec fn answered<F: Fn(ApiRequest) -> Result<HttpResponse, APIError>>(
    send: F,
    call: ApiRequest,
    outcome: Outcome,
) -> bool {
    exists|answer: Result<HttpResponse, APIError>|
        #![trigger call_ensures(send, (call,), answer)]
        call_ensures(send, (call,), answer) && dispatched(answer, outcome)
}

/// `outcome` is what one poll of the run through `send` brought.
pub open spec fn polled<F: Fn(ApiRequest) -> Result<HttpResponse, APIError>>(
    client: Client,
    send: F,
    thread_id: Seq<char>,
    run_id: Seq<char>,
    outcome: Outcome,
) -> bool {
    exists|call: ApiRequest|
        #![trigger answered(send, call, outcome)]
        is_poll_call(client, thread_id, run_id, call) && answered(send, call, outcome)
}

/// Creates a run on the thread `thread_id` and returns the snapshot that
/// the service answers with.
///
/// Fails with the error of the transport where the call fails, with
/// `HttpStatusError` where the service refuses, and with `DecodeError`
/// where the answer is no run.
pub fn create<F: Fn(ApiRequest) -> Result<HttpResponse, APIError>>(
    client: &Client,
    send: &F,
    thread_id: String,
    request: CreateRunRequest,
) -> (r: Outcome)
    requires
        forall|call: ApiRequest| call_requires(*send, (call,)),
    ensures
        exists|call: ApiRequest|
            #![trigger answered(*send, call, r)]
            is_create_call(*client, thread_id@, request, call) && answered(*send, call, r),
{
    let call = client.create_run(thread_id, request);
    let r = dispatch::<RunObject, F>(send, call);
    assert(answered(*send, call, r));
    r
}

/// Fetches the present state of a run once. Nothing is changed by it.
///
/// Fails as [`create`] does.
pub fn poll<F: Fn(ApiRequest) -> Result<HttpResponse, APIError>>(
    client: &Client,
    send: &F,
    thread_id: String,
    run_id: String,
) -> (r: Outcome)
    requires
        forall|call: ApiRequest| call_requires(*send, (call,)),
    ensures
        polled(*client, *send, thread_id@, run_id@, r),
{
    let call = client.retrieve_run(thread_id, run_id);
    let r = dispatch::<RunObject, F>(send, call);
    assert(answered(*send, call, r));
    r
}

/// Asks for the cancellation of a run and returns the snapshot that the
/// service answers with once it has taken note. The run need not be
/// cancelled yet: wait for it to learn how it ended.
///
/// Fails as [`create`] does.
pub fn cancel<F: Fn(ApiRequest) -> Result<HttpResponse, APIError>>(
    client: &Client,
    send: &F,
    thread_id: String,
    run_id: String,
) -> (r: Outcome)
    requires
        forall|call: ApiRequest| call_requires(*send, (call,)),
    ensures
        exists|call: ApiRequest|
            #![trigger answered(*send, call, r)]
            is_cancel_call(*client, thread_id@, run_id@, call) && answered(*send, call, r),
{
    let call = client.cancel_run(thread_id, run_id);
    let r = dispatch::<RunObject, F>(send, call);
    assert(answered(*send, call, r));
    r
}

/// Waits until the run is settled: polls it at once and then after every
/// sleep of `poll_interval`, until it is terminal or requires action, and
/// returns that snapshot.
///
/// Fails with `ConfigurationError`, before any call, where the poll
/// interval is zero; with the error of a poll that fails; and with
/// `Timeout` where the run is still running and another sleep would exceed
/// `max_wait`. What it returns is what [`crate::polling::trace`] says of
/// the outcomes that the polls brought.
pub fn await_terminal<F: Fn(ApiRequest) -> Result<HttpResponse, APIError>, S: Fn(Millis)>(
    client: &Client,
    send: &F,
    sleep: S,
    thread_id: String,
    run_id: String,
    poll_interval: Millis,
    max_wait: Millis,
) -> (r: Outcome)
    requires
        forall|call: ApiRequest| call_requires(*send, (call,)),
        forall|ms: Millis| call_requires(sleep, (ms,)),
    ensures
        exists|script: Seq<Outcome>|
            #![trigger awaited(poll_interval, max_wait, script, r)]
            awaited(poll_interval, max_wait, script, r) && forall|i: int|
                0 <= i < script.len() ==> polled(
                    *client,
                    *send,
                    thread_id@,
                    run_id@,
                    #[trigger] script[i],
                ),
{
    let poll_once = || -> (outcome: Outcome)
        requires
            forall|call: ApiRequest| call_requires(*send, (call,)),
        ensures
            polled(*client, *send, thread_id@, run_id@, outcome),
        { poll(client, send, thread_id.clone(), run_id.clone()) };
    crate::polling::await_terminal(poll_once, sleep, poll_interval, max_wait)
}

} // verus!
