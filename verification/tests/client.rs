use openai_rst::client::{Client, API_URL_V1};
use openai_rst::error::APIError;
use openai_rst::file::{FileDeleteRequest, FileRetrieveContentRequest};
use openai_rst::fine_tuning::{CancelFineTuningJobRequest, ListFineTuningJobEventsRequest};
use openai_rst::json::Json;
use openai_rst::run::{CreateRunRequest, ModifyRunRequest};
use openai_rst::thread::CreateThreadRequest;
use openai_rst::transport::Method;

fn s(text: &str) -> String {
    text.to_string()
}

fn client() -> Client {
    Client::from_env(Some(s("https://example.test/v1")), s("sk-test")).unwrap()
}

#[test]
fn a_new_client_uses_the_default_address() {
    let client = Client::new(s("sk-test")).unwrap();
    assert_eq!(client.endpoint, "https://api.openai.com/v1");
    assert_eq!(client.endpoint, API_URL_V1);
    assert_eq!(client.api_key, "sk-test");
}

#[test]
fn the_environment_may_set_the_address() {
    let client = Client::from_env(Some(s("http://localhost:8080")), s("k")).unwrap();
    assert_eq!(client.endpoint, "http://localhost:8080");
    let client = Client::from_env(None, s("k")).unwrap();
    assert_eq!(client.endpoint, API_URL_V1);
}

#[test]
fn a_key_that_cannot_stand_in_a_header_is_refused() {
    for key in ["line\nbreak", "carriage\rreturn", "nul\0", "del\u{7f}", "\u{1b}[0m"] {
        match Client::new(s(key)) {
            Err(APIError::ConfigurationError(_)) => {}
            other => panic!("{:?} gave {:?}", key, other),
        }
        assert!(Client::from_env(Some(s("http://x")), s(key)).is_err());
    }
}

#[test]
fn a_key_with_tabs_spaces_or_other_scripts_is_accepted() {
    for key in ["", "sk-abc123", "with space", "with\ttab", "schl\u{fc}ssel", "~!@#$%^&*()"] {
        assert!(Client::new(s(key)).is_ok(), "{:?}", key);
    }
}

#[test]
fn every_call_carries_the_content_type_and_the_key() {
    let headers = client().default_headers();
    assert_eq!(
        headers,
        vec![
            (s("content-type"), s("application/json")),
            (s("authorization"), s("Bearer sk-test")),
        ]
    );
}

#[test]
fn a_path_is_appended_to_the_endpoint() {
    assert_eq!(client().from_path("/files"), "https://example.test/v1/files");
    assert_eq!(client().from_path(""), "https://example.test/v1");
}

#[test]
fn query_parameters_in_their_order() {
    assert_eq!(
        Client::query_params(Some(20), Some(s("desc")), Some(s("a1")), Some(s("b1")), s("/x")),
        "/x?limit=20&order=desc&after=a1&before=b1&"
    );
    assert_eq!(Client::query_params(Some(5), None, None, None, s("/x")), "/x?limit=5&");
    assert_eq!(Client::query_params(None, Some(s("asc")), None, None, s("/x")), "/x?order=asc&");
    assert_eq!(
        Client::query_params(None, None, Some(s("a")), Some(s("b")), s("/x")),
        "/x?after=a&before=b&"
    );
}

#[test]
fn no_parameter_appends_nothing() {
    assert_eq!(Client::query_params(None, None, None, None, s("/x")), "/x");
    assert_eq!(Client::query_params(None, None, None, None, String::new()), "");
}

#[test]
fn the_limit_is_written_in_decimal() {
    assert_eq!(Client::query_params(Some(0), None, None, None, s("u")), "u?limit=0&");
    assert_eq!(Client::query_params(Some(-3), None, None, None, s("u")), "u?limit=-3&");
    assert_eq!(Client::query_params(Some(100), None, None, None, s("u")), "u?limit=100&");
    assert_eq!(
        Client::query_params(Some(i64::MAX), None, None, None, s("u")),
        "u?limit=9223372036854775807&"
    );
    assert_eq!(
        Client::query_params(Some(i64::MIN), None, None, None, s("u")),
        "u?limit=-9223372036854775808&"
    );
}

#[test]
fn an_empty_value_is_still_a_parameter() {
    assert_eq!(Client::query_params(None, Some(String::new()), None, None, s("u")), "u?order=&");
}

#[test]
fn creating_a_run_posts_the_request_to_the_thread() {
    let call = client().create_run(s("thread_1"), CreateRunRequest::new(s("asst_1")));
    assert_eq!(call.method, Method::Post);
    assert_eq!(call.url, "https://example.test/v1/threads/thread_1/runs");
    assert_eq!(
        call.body,
        Some(Json::Object(vec![(s("assistant_id"), Json::Text(s("asst_1")))]))
    );
}

#[test]
fn polling_a_run_reads_it() {
    let call = client().retrieve_run(s("thread_1"), s("run_1"));
    assert_eq!(call.method, Method::Get);
    assert_eq!(call.url, "https://example.test/v1/threads/thread_1/runs/run_1");
    assert_eq!(call.body, None);
}

#[test]
fn cancelling_a_run_posts_an_empty_object() {
    let call = client().cancel_run(s("thread_1"), s("run_1"));
    assert_eq!(call.method, Method::Post);
    assert_eq!(call.url, "https://example.test/v1/threads/thread_1/runs/run_1/cancel");
    assert_eq!(call.body, Some(Json::Object(vec![])));
}

#[test]
fn the_other_calls_of_a_run() {
    let c = client();
    let call = c.modify_run(s("t"), s("r"), ModifyRunRequest::new());
    assert_eq!((call.method, call.url.as_str()), (Method::Post, "https://example.test/v1/threads/t/runs/r"));
    let call = c.list_run(s("t"), Some(2), None, None, None);
    assert_eq!((call.method, call.url.as_str()), (Method::Get, "https://example.test/v1/threads/t/runs?limit=2&"));
    assert_eq!(call.body, None);
    let call = c.retrieve_run_step(s("t"), s("r"), s("s"));
    assert_eq!(call.url, "https://example.test/v1/threads/t/runs/r/steps/s");
    let call = c.list_run_step(s("t"), s("r"), None, Some(s("asc")), None, None);
    assert_eq!(call.url, "https://example.test/v1/threads/t/runs/r/steps?order=asc&");
    let call = c.list_run_step(s("t"), s("r"), None, None, None, None);
    assert_eq!(call.url, "https://example.test/v1/threads/t/runs/r/steps");
}

#[test]
fn the_calls_of_threads_and_messages() {
    let c = client();
    let call = c.create_thread(CreateThreadRequest::new());
    assert_eq!((call.method, call.url.as_str()), (Method::Post, "https://example.test/v1/threads"));
    assert_eq!(call.body, Some(Json::Object(vec![])));
    let call = c.retrieve_thread(s("t"));
    assert_eq!((call.method, call.url.as_str()), (Method::Get, "https://example.test/v1/threads/t"));
    let call = c.delete_thread(s("t"));
    assert_eq!((call.method, call.url.as_str()), (Method::Delete, "https://example.test/v1/threads/t"));
    assert_eq!(call.body, None);
    let call = c.list_messages(s("t"));
    assert_eq!(call.url, "https://example.test/v1/threads/t/messages");
    let call = c.retrieve_message(s("t"), s("m"));
    assert_eq!(call.url, "https://example.test/v1/threads/t/messages/m");
    let call = c.retrieve_message_file(s("t"), s("m"), s("f"));
    assert_eq!(call.url, "https://example.test/v1/threads/t/messages/m/files/f");
    let call = c.list_message_file(s("t"), s("m"), None, None, None, Some(s("b")));
    assert_eq!(call.url, "https://example.test/v1/threads/t/messages/m/files?before=b&");
}

#[test]
fn the_calls_of_assistants_and_files() {
    let c = client();
    let call = c.retrieve_assistant(s("a"));
    assert_eq!((call.method, call.url.as_str()), (Method::Get, "https://example.test/v1/assistants/a"));
    let call = c.delete_assistant(s("a"));
    assert_eq!(call.method, Method::Delete);
    let call = c.list_assistant(Some(1), None, None, None);
    assert_eq!(call.url, "https://example.test/v1/assistants?limit=1&");
    let call = c.retrieve_assistant_file(s("a"), s("f"));
    assert_eq!(call.url, "https://example.test/v1/assistants/a/files/f");
    let call = c.list_assistant_file(s("a"), None, None, None, None);
    assert_eq!(call.url, "https://example.test/v1/assistants/a/files");
    let call = c.file_list();
    assert_eq!((call.method, call.url.as_str()), (Method::Get, "https://example.test/v1/files"));
    let call = c.file_delete(FileDeleteRequest::new(s("f")));
    assert_eq!((call.method, call.url.as_str()), (Method::Delete, "https://example.test/v1/files/f"));
    let call = c.file_retrieve_content(FileRetrieveContentRequest::new(s("f")));
    assert_eq!(call.url, "https://example.test/v1/files/f/content");
}

#[test]
fn the_calls_of_fine_tuning() {
    let c = client();
    let call = c.list_fine_tuning_jobs();
    assert_eq!(call.url, "https://example.test/v1/fine_tuning/jobs");
    let call = c.list_fine_tuning_job_events(ListFineTuningJobEventsRequest::new(s("j")));
    assert_eq!(call.url, "https://example.test/v1/fine_tuning/jobs/j/events");
    let call = c.cancel_fine_tuning_job(CancelFineTuningJobRequest::new(s("j")));
    assert_eq!((call.method, call.url.as_str()), (Method::Post, "https://example.test/v1/fine_tuning/jobs/j/cancel"));
    assert_eq!(call.body, None);
}

#[test]
fn the_calls_whose_body_the_caller_writes() {
    let c = client();
    let body = Json::Object(vec![(s("model"), Json::Text(s("gpt-4o")))]);
    let call = c.chat_completion(Json::Object(vec![(s("model"), Json::Text(s("gpt-4o")))]));
    assert_eq!((call.method, call.url.as_str()), (Method::Post, "https://example.test/v1/chat/completions"));
    assert_eq!(call.body, Some(body));
    assert_eq!(c.completion(Json::Null).url, "https://example.test/v1/completions");
    assert_eq!(c.edit(Json::Null).url, "https://example.test/v1/edits");
    assert_eq!(c.audio_transcription(Json::Null).url, "https://example.test/v1/audio/transcriptions");
    assert_eq!(c.audio_translation(Json::Null).url, "https://example.test/v1/audio/translations");
}

#[test]
fn the_plain_calls() {
    let c = client();
    let call = c.post("/x", Json::Int(1));
    assert_eq!((call.method, call.url.as_str(), call.body), (Method::Post, "https://example.test/v1/x", Some(Json::Int(1))));
    let call = c.get("/y");
    assert_eq!((call.method, call.url.as_str(), call.body), (Method::Get, "https://example.test/v1/y", None));
    let call = c.delete("/z");
    assert_eq!((call.method, call.url.as_str(), call.body), (Method::Delete, "https://example.test/v1/z", None));
}

#[test]
fn identifiers_are_put_into_the_path_as_they_are() {
    let call = client().retrieve_run(s("a/b"), s("c d"));
    assert_eq!(call.url, "https://example.test/v1/threads/a/b/runs/c d");
    let call = client().retrieve_run(String::new(), String::new());
    assert_eq!(call.url, "https://example.test/v1/threads//runs/");
}
