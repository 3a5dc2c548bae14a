use openai_rst::assistant::DeletionStatus;
use openai_rst::error::APIError;
use openai_rst::json::Json;
use openai_rst::resource::Decode;
use openai_rst::run::{ListRun, RunObject};
use openai_rst::thread::ThreadObject;
use openai_rst::transport::{capture_headers, enveloped, HttpResponse};

fn s(text: &str) -> String {
    text.to_string()
}

fn run_body(status: &str) -> String {
    format!(
        "{{\"id\":\"run_1\",\"object\":\"thread.run\",\"created_at\":1699063290,\
         \"thread_id\":\"thread_1\",\"assistant_id\":\"asst_1\",\"status\":\"{}\",\
         \"started_at\":1699063291,\"expires_at\":null,\"model\":\"gpt-4\",\
         \"instructions\":null,\"tools\":[{{\"type\":\"code_interpreter\"}}],\
         \"file_ids\":[\"file_1\",\"file_2\"],\"metadata\":{{\"k\":\"v\"}},\
         \"temperature\":1.0}}",
        status
    )
}

fn response(status: u16, headers: Vec<(&str, &str)>, body: &str) -> HttpResponse {
    HttpResponse {
        status,
        headers: headers.into_iter().map(|(k, v)| (s(k), s(v))).collect(),
        body: s(body),
    }
}

#[test]
fn the_envelope_holds_the_headers_of_the_response() {
    let answer = response(200, vec![("x-request-id", "abc")], &run_body("queued"));
    let run: RunObject = answer.decode().unwrap();
    let headers = run.headers.unwrap();
    assert_eq!(headers.len(), 1);
    assert_eq!(headers.get("x-request-id"), Some(&s("abc")));
}

#[test]
fn the_payload_is_what_the_body_says() {
    let answer = response(200, vec![], &run_body("in_progress"));
    let run: RunObject = answer.decode().unwrap();
    assert_eq!(run.id, "run_1");
    assert_eq!(run.object, "thread.run");
    assert_eq!(run.created_at, 1699063290);
    assert_eq!(run.thread_id, "thread_1");
    assert_eq!(run.assistant_id, "asst_1");
    assert_eq!(run.status, "in_progress");
    assert_eq!(run.started_at, Some(1699063291));
    assert_eq!(run.expires_at, None);
    assert_eq!(run.completed_at, None);
    assert_eq!(run.failed_at, None);
    assert_eq!(run.model, "gpt-4");
    assert_eq!(run.instructions, None);
    assert_eq!(run.tools.len(), 1);
    assert_eq!(run.tools[0].get("type"), Some(&s("code_interpreter")));
    assert_eq!(run.file_ids, vec![s("file_1"), s("file_2")]);
    assert_eq!(run.metadata.get("k"), Some(&s("v")));
    assert_eq!(run.metadata.len(), 1);
    assert!(run.headers.unwrap().is_empty());
}

#[test]
fn header_names_are_folded_to_lower_case() {
    let map = capture_headers(&vec![
        (s("X-Request-ID"), s("abc")),
        (s("Content-Type"), s("Application/JSON")),
    ]);
    assert_eq!(map.len(), 2);
    assert_eq!(map.get("x-request-id"), Some(&s("abc")));
    assert_eq!(map.get("X-Request-ID"), None);
    // Values are kept as they are.
    assert_eq!(map.get("content-type"), Some(&s("Application/JSON")));
}

#[test]
fn only_ascii_letters_are_folded() {
    let map = capture_headers(&vec![(s("X-\u{c4}Z_9"), s("v"))]);
    assert_eq!(map.get("x-\u{c4}z_9"), Some(&s("v")));
    assert_eq!(map.len(), 1);
}

#[test]
fn a_header_that_occurs_twice_takes_its_last_value() {
    let map = capture_headers(&vec![
        (s("set-cookie"), s("a=1")),
        (s("x-request-id"), s("abc")),
        (s("Set-Cookie"), s("b=2")),
    ]);
    assert_eq!(map.len(), 2);
    assert_eq!(map.get("set-cookie"), Some(&s("b=2")));
    assert_eq!(map.get("x-request-id"), Some(&s("abc")));
}

#[test]
fn no_headers_give_an_empty_envelope() {
    let map = capture_headers(&Vec::new());
    assert!(map.is_empty());
}

#[test]
fn a_status_outside_200_to_299_is_an_http_status_error() {
    for status in [0u16, 100, 199, 300, 301, 400, 404, 429, 500, 503, 65535] {
        let answer = response(status, vec![("x-request-id", "abc")], "{\"error\": \"no\"}");
        assert!(!answer.is_success());
        match answer.decode::<RunObject>() {
            Err(APIError::HttpStatusError { status: got, body }) => {
                assert_eq!(got, status);
                assert_eq!(body, "{\"error\": \"no\"}");
            }
            other => panic!("{:?}", other),
        }
    }
}

#[test]
fn every_status_from_200_to_299_is_success() {
    for status in [200u16, 201, 204, 250, 299] {
        let answer = response(status, vec![], &run_body("queued"));
        assert!(answer.is_success());
        assert!(answer.decode::<RunObject>().is_ok());
    }
}

#[test]
fn a_failed_status_is_reported_even_when_the_body_would_decode() {
    let answer = response(500, vec![], &run_body("queued"));
    match answer.decode::<RunObject>() {
        Err(APIError::HttpStatusError { status: 500, .. }) => {}
        other => panic!("{:?}", other),
    }
}

#[test]
fn a_body_that_is_not_json_is_a_decode_error() {
    let answer = response(200, vec![("x-request-id", "abc")], "<html>oops</html>");
    match answer.decode::<RunObject>() {
        Err(APIError::DecodeError(_)) => {}
        other => panic!("{:?}", other),
    }
    match answer.json() {
        Err(APIError::DecodeError(_)) => {}
        other => panic!("{:?}", other),
    }
}

#[test]
fn a_body_that_lacks_a_field_is_a_decode_error() {
    let answer = response(200, vec![("x-request-id", "abc")], "{\"id\": \"run_1\"}");
    match answer.decode::<RunObject>() {
        Err(APIError::DecodeError(_)) => {}
        other => panic!("{:?}", other),
    }
}

#[test]
fn a_field_of_the_wrong_type_is_a_decode_error() {
    let body = run_body("queued").replace("1699063290", "\"yesterday\"");
    match response(200, vec![], &body).decode::<RunObject>() {
        Err(APIError::DecodeError(_)) => {}
        other => panic!("{:?}", other),
    }
    let body = run_body("queued").replace("\"file_1\"", "17");
    match response(200, vec![], &body).decode::<RunObject>() {
        Err(APIError::DecodeError(_)) => {}
        other => panic!("{:?}", other),
    }
    let body = run_body("queued").replace("\"gpt-4\"", "null");
    match response(200, vec![], &body).decode::<RunObject>() {
        Err(APIError::DecodeError(_)) => {}
        other => panic!("{:?}", other),
    }
}

#[test]
fn a_status_outside_the_enumeration_is_a_decode_error() {
    match response(200, vec![], &run_body("sleeping")).decode::<RunObject>() {
        Err(APIError::DecodeError(_)) => {}
        other => panic!("{:?}", other),
    }
}

#[test]
fn a_body_that_is_no_object_is_a_decode_error() {
    for body in ["[]", "null", "17", "\"run\""] {
        match response(200, vec![], body).decode::<ThreadObject>() {
            Err(APIError::DecodeError(_)) => {}
            other => panic!("{:?}", other),
        }
    }
}

#[test]
fn json_gives_the_document_of_the_body() {
    let answer = response(200, vec![], "{\"a\": [1, 2]}");
    assert_eq!(
        answer.json(),
        Ok(Json::Object(vec![(s("a"), Json::List(vec![Json::Int(1), Json::Int(2)]))]))
    );
}

#[test]
fn other_resources_carry_their_envelope_too() {
    let answer = response(
        200,
        vec![("X-Request-Id", "r1"), ("openai-version", "2020-10-01")],
        "{\"id\":\"thread_1\",\"object\":\"thread\",\"created_at\":5,\"metadata\":{}}",
    );
    let thread: ThreadObject = answer.decode().unwrap();
    assert_eq!(thread.id, "thread_1");
    assert_eq!(thread.created_at, 5);
    assert!(thread.metadata.is_empty());
    let headers = thread.headers.unwrap();
    assert_eq!(headers.len(), 2);
    assert_eq!(headers.get("x-request-id"), Some(&s("r1")));
    assert_eq!(headers.get("openai-version"), Some(&s("2020-10-01")));

    let answer = response(
        200,
        vec![("x-request-id", "r2")],
        "{\"id\":\"asst_1\",\"object\":\"assistant.deleted\",\"deleted\":true}",
    );
    let status: DeletionStatus = answer.decode().unwrap();
    assert!(status.deleted);
    assert_eq!(status.headers.unwrap().get("x-request-id"), Some(&s("r2")));
}

#[test]
fn a_decoded_payload_has_no_envelope_until_one_is_attached() {
    let document = Json::parse(&run_body("queued")).unwrap();
    let bare = RunObject::from_json(&document).unwrap();
    assert!(bare.headers.is_none());
    let lines = vec![(s("X-A"), s("1"))];
    let run: RunObject = enveloped(&lines, &document).unwrap();
    assert_eq!(run.headers.unwrap().get("x-a"), Some(&s("1")));
}

#[test]
fn a_headers_member_of_the_body_does_not_reach_the_envelope() {
    let body = run_body("queued").replace("\"id\":", "\"headers\":{\"x-request-id\":\"stale\"},\"id\":");
    let answer = response(200, vec![("x-request-id", "fresh")], &body);
    let run: RunObject = answer.decode().unwrap();
    let headers = run.headers.unwrap();
    assert_eq!(headers.len(), 1);
    assert_eq!(headers.get("x-request-id"), Some(&s("fresh")));
}

#[test]
fn a_list_decodes_each_of_its_items() {
    let body = format!(
        "{{\"object\":\"list\",\"data\":[{},{}],\"first_id\":\"run_1\",\"last_id\":\"run_1\",\"has_more\":false}}",
        run_body("queued"),
        run_body("completed")
    );
    let list: ListRun = response(200, vec![("x-request-id", "abc")], &body).decode().unwrap();
    assert_eq!(list.data.len(), 2);
    assert_eq!(list.data[0].status, "queued");
    assert_eq!(list.data[1].status, "completed");
    assert!(!list.has_more);
    assert_eq!(list.headers.unwrap().get("x-request-id"), Some(&s("abc")));

    let broken = format!(
        "{{\"object\":\"list\",\"data\":[{},{{\"id\":\"run_2\"}}],\"first_id\":\"a\",\"last_id\":\"b\",\"has_more\":true}}",
        run_body("queued")
    );
    match response(200, vec![], &broken).decode::<ListRun>() {
        Err(APIError::DecodeError(_)) => {}
        other => panic!("{:?}", other),
    }
}
