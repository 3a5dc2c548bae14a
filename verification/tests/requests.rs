use openai_rst::assistant::{AssistantFileRequest, AssistantRequest};
use openai_rst::audio::AudioSpeechRequest;
use openai_rst::common::MessageRole;
use openai_rst::embedding::EmbeddingRequest;
use openai_rst::file::{
    FileDeleteRequest, FileRetrieveContentRequest, FileRetrieveRequest, FileUploadRequest,
};
use openai_rst::fine_tuning::{
    CancelFineTuningJobRequest, CreateFineTuningJobRequest, HyperParameters,
    ListFineTuningJobEventsRequest, ListFineTuningJobsRequest, RetrieveFineTuningJobRequest,
};
use openai_rst::image::{ImageEditRequest, ImageGenerationRequest, ImageVariationRequest};
use openai_rst::json::Json;
use openai_rst::message::{CreateMessageRequest, ModifyMessageRequest};
use openai_rst::models::{Model, GPT4};
use openai_rst::moderation::CreateModerationRequest;
use openai_rst::resource::{Decode, Encode};
use openai_rst::run::{CreateRunRequest, CreateThreadAndRunRequest, ModifyRunRequest};
use openai_rst::string_map::StringMap;
use openai_rst::thread::{CreateThreadRequest, Message, ModifyThreadRequest};

fn s(text: &str) -> String {
    text.to_string()
}

fn map(pairs: &[(&str, &str)]) -> StringMap {
    let mut m = StringMap::new();
    for (k, v) in pairs {
        m.insert(s(k), s(v));
    }
    m
}

fn names(document: &Json) -> Vec<String> {
    match document {
        Json::Object(members) => members.iter().map(|(k, _)| k.clone()).collect(),
        other => panic!("not an object: {:?}", other),
    }
}

fn has_null(document: &Json) -> bool {
    match document {
        Json::Null => true,
        Json::List(items) => items.iter().any(has_null),
        Json::Object(members) => members.iter().any(|(_, v)| has_null(v)),
        _ => false,
    }
}

#[test]
fn a_new_run_request_has_no_option_set() {
    let request = CreateRunRequest::new(s("asst_1"));
    assert_eq!(request.assistant_id, "asst_1");
    assert!(request.model.is_none());
    assert!(request.instructions.is_none());
    assert!(request.tools.is_none());
    assert!(request.metadata.is_none());
}

#[test]
fn a_run_request_without_options_writes_only_the_assistant() {
    let document = CreateRunRequest::new(s("asst_1")).to_json();
    assert_eq!(document, Json::Object(vec![(s("assistant_id"), Json::Text(s("asst_1")))]));
}

#[test]
fn a_run_request_writes_exactly_the_fields_that_are_set() {
    let request = CreateRunRequest::new(s("asst_1"))
        .model(s("gpt-4"))
        .metadata(map(&[("user", "u1")]));
    let document = request.to_json();
    assert_eq!(names(&document), vec![s("assistant_id"), s("model"), s("metadata")]);
    assert_eq!(document.get("model"), Some(&Json::Text(s("gpt-4"))));
    assert_eq!(document.get("instructions"), None);
    assert_eq!(document.get("tools"), None);
    assert_eq!(
        document.get("metadata"),
        Some(&Json::Object(vec![(s("user"), Json::Text(s("u1")))]))
    );
    assert!(!has_null(&document));
}

#[test]
fn a_run_request_is_read_back_from_what_it_writes() {
    let request = CreateRunRequest::new(s("asst_1"))
        .model(s("gpt-4"))
        .instructions(s("be brief"))
        .tools(vec![map(&[("type", "code_interpreter")]), map(&[("type", "retrieval")])])
        .metadata(map(&[("a", "1"), ("b", "2")]));
    let back = CreateRunRequest::from_json(&request.to_json()).unwrap();
    assert_eq!(back.assistant_id, "asst_1");
    assert_eq!(back.model, Some(s("gpt-4")));
    assert_eq!(back.instructions, Some(s("be brief")));
    let tools = back.tools.unwrap();
    assert_eq!(tools.len(), 2);
    assert_eq!(tools[0].get("type"), Some(&s("code_interpreter")));
    assert_eq!(tools[1].get("type"), Some(&s("retrieval")));
    assert!(back.metadata.unwrap().same_as(&map(&[("b", "2"), ("a", "1")])));

    let bare = CreateRunRequest::from_json(&CreateRunRequest::new(s("asst_2")).to_json()).unwrap();
    assert_eq!(bare.assistant_id, "asst_2");
    assert!(bare.model.is_none() && bare.instructions.is_none());
    assert!(bare.tools.is_none() && bare.metadata.is_none());
}

#[test]
fn a_builder_sets_one_field_and_keeps_the_others() {
    let request = CreateRunRequest::new(s("asst_1")).model(s("m1")).instructions(s("i1"));
    let request = request.model(s("m2"));
    assert_eq!(request.assistant_id, "asst_1");
    assert_eq!(request.model, Some(s("m2")));
    assert_eq!(request.instructions, Some(s("i1")));
    assert!(request.tools.is_none());
}

#[test]
fn null_reads_as_not_set() {
    let document = Json::parse("{\"assistant_id\":\"a\",\"model\":null,\"tools\":null}").unwrap();
    let request = CreateRunRequest::from_json(&document).unwrap();
    assert!(request.model.is_none());
    assert!(request.tools.is_none());
}

#[test]
fn a_request_with_a_wrong_member_is_refused() {
    for text in [
        "{}",
        "{\"assistant_id\": 5}",
        "{\"assistant_id\": null}",
        "{\"assistant_id\":\"a\",\"model\":7}",
        "{\"assistant_id\":\"a\",\"tools\":{}}",
        "{\"assistant_id\":\"a\",\"tools\":[{\"type\":1}]}",
        "{\"assistant_id\":\"a\",\"metadata\":[]}",
        "{\"assistant_id\":\"a\",\"metadata\":{\"k\":null}}",
        "[]",
    ] {
        let document = Json::parse(text).unwrap();
        assert!(CreateRunRequest::from_json(&document).is_err(), "{}", text);
    }
}

#[test]
fn the_empty_modify_request_is_an_empty_object() {
    assert_eq!(ModifyRunRequest::new().to_json(), Json::Object(vec![]));
    assert_eq!(ModifyRunRequest::default().to_json(), Json::Object(vec![]));
    assert_eq!(ModifyThreadRequest::new().to_json(), Json::Object(vec![]));
    assert_eq!(ModifyMessageRequest::default().to_json(), Json::Object(vec![]));
    assert_eq!(CreateThreadRequest::default().to_json(), Json::Object(vec![]));
    assert_eq!(ListFineTuningJobsRequest::default().to_json(), Json::Object(vec![]));
    let modified = ModifyRunRequest::new().metadata(map(&[("k", "v")]));
    assert_eq!(
        modified.to_json(),
        Json::Object(vec![(
            s("metadata"),
            Json::Object(vec![(s("k"), Json::Text(s("v")))])
        )])
    );
    assert!(ModifyRunRequest::from_json(&Json::Object(vec![])).unwrap().metadata.is_none());
    assert!(ModifyRunRequest::from_json(&Json::Int(1)).is_err());
}

#[test]
fn a_thread_request_writes_its_messages() {
    let message = Message {
        role: MessageRole::User,
        content: s("hello"),
        file_ids: None,
        metadata: None,
    };
    let request = CreateThreadRequest::new().messages(vec![message]);
    let document = request.to_json();
    assert_eq!(
        document,
        Json::Object(vec![(
            s("messages"),
            Json::List(vec![Json::Object(vec![
                (s("role"), Json::Text(s("user"))),
                (s("content"), Json::Text(s("hello"))),
            ])])
        )])
    );
    let back = CreateThreadRequest::from_json(&document).unwrap();
    let messages = back.messages.unwrap();
    assert_eq!(messages.len(), 1);
    assert_eq!(messages[0].role, MessageRole::User);
    assert_eq!(messages[0].content, "hello");
    assert!(back.metadata.is_none());
}

#[test]
fn a_thread_and_run_request_nests_the_thread() {
    let request = CreateThreadAndRunRequest {
        assistant_id: s("asst_1"),
        thread: Some(CreateThreadRequest::new().metadata(map(&[("k", "v")]))),
        model: None,
        instructions: Some(s("go")),
        tools: None,
        metadata: None,
    };
    let document = request.to_json();
    assert_eq!(names(&document), vec![s("assistant_id"), s("thread"), s("instructions")]);
    assert!(!has_null(&document));
    let back = CreateThreadAndRunRequest::from_json(&document).unwrap();
    assert_eq!(back.instructions, Some(s("go")));
    assert!(back.thread.unwrap().metadata.unwrap().same_as(&map(&[("k", "v")])));
}

#[test]
fn a_message_request_names_the_role() {
    let request = CreateMessageRequest::new(MessageRole::User, s("2 + 2?"))
        .file_ids(vec![s("file_1")]);
    let document = request.to_json();
    assert_eq!(
        document,
        Json::Object(vec![
            (s("role"), Json::Text(s("user"))),
            (s("content"), Json::Text(s("2 + 2?"))),
            (s("file_ids"), Json::List(vec![Json::Text(s("file_1"))])),
        ])
    );
    let back = CreateMessageRequest::from_json(&document).unwrap();
    assert_eq!(back.role, MessageRole::User);
    assert_eq!(back.file_ids, Some(vec![s("file_1")]));
    let bad = Json::parse("{\"role\":\"robot\",\"content\":\"x\"}").unwrap();
    assert!(CreateMessageRequest::from_json(&bad).is_err());
}

#[test]
fn an_assistant_request_carries_the_model_by_family() {
    let request = AssistantRequest::new(Model::GPT4(GPT4::GPT40125Preview))
        .name(s("tutor"))
        .description(s("a test assistant"))
        .instructions(s("You are a personal math tutor."))
        .tools(vec![map(&[("type", "code_interpreter")])])
        .file_ids(vec![])
        .metadata(StringMap::new());
    let document = request.to_json();
    assert_eq!(
        document.get("model"),
        Some(&Json::Object(vec![(s("GPT4"), Json::Text(s("GPT40125Preview")))]))
    );
    assert_eq!(document.get("file_ids"), Some(&Json::List(vec![])));
    assert_eq!(document.get("metadata"), Some(&Json::Object(vec![])));
    assert_eq!(
        names(&document),
        vec!["model", "name", "description", "instructions", "tools", "file_ids", "metadata"]
    );
    let back = AssistantRequest::from_json(&document).unwrap();
    assert_eq!(back.model, Model::GPT4(GPT4::GPT40125Preview));
    assert_eq!(back.name, Some(s("tutor")));
    assert_eq!(back.file_ids, Some(vec![]));

    let bare = AssistantRequest::new(Model::default()).to_json();
    assert_eq!(names(&bare), vec!["model"]);
}

#[test]
fn numbers_are_written_as_integers() {
    let request = ImageGenerationRequest::new(s("a cat")).n(3).size(s("256x256"));
    let document = request.to_json();
    assert_eq!(
        document,
        Json::Object(vec![
            (s("prompt"), Json::Text(s("a cat"))),
            (s("n"), Json::Int(3)),
            (s("size"), Json::Text(s("256x256"))),
        ])
    );
    let back = ImageGenerationRequest::from_json(&document).unwrap();
    assert_eq!(back.n, Some(3));
    assert_eq!(back.size, Some(s("256x256")));
    assert!(back.model.is_none() && back.response_format.is_none() && back.user.is_none());

    let too_large = Json::parse("{\"prompt\":\"p\",\"n\":2147483648}").unwrap();
    assert!(ImageGenerationRequest::from_json(&too_large).is_err());
    let fraction = Json::parse("{\"prompt\":\"p\",\"n\":1.5}").unwrap();
    assert!(ImageGenerationRequest::from_json(&fraction).is_err());
    let negative = Json::parse("{\"prompt\":\"p\",\"n\":-2147483648}").unwrap();
    assert_eq!(ImageGenerationRequest::from_json(&negative).unwrap().n, Some(i32::MIN));
}

#[test]
fn the_image_requests_and_their_builders() {
    let edit = ImageEditRequest::new(s("cat.png"), s("add a hat"))
        .mask(s("mask.png"))
        .model(s("dall-e-2"))
        .n(1)
        .size(s("512x512"))
        .response_format(s("url"))
        .user(s("u1"));
    assert_eq!(
        names(&edit.to_json()),
        vec!["image", "mask", "prompt", "model", "n", "size", "response_format", "user"]
    );
    let variation = ImageVariationRequest::new(s("cat.png")).user(s("u1"));
    assert_eq!(names(&variation.to_json()), vec!["image", "user"]);
    assert_eq!(variation.image, "cat.png");
    assert!(variation.n.is_none());
}

#[test]
fn the_small_requests() {
    assert_eq!(
        FileUploadRequest::new(s("data.jsonl"), s("fine-tune")).to_json(),
        Json::Object(vec![
            (s("file"), Json::Text(s("data.jsonl"))),
            (s("purpose"), Json::Text(s("fine-tune"))),
        ])
    );
    assert_eq!(FileDeleteRequest::new(s("f1")).file_id, "f1");
    assert_eq!(FileRetrieveRequest::new(s("f2")).file_id, "f2");
    assert_eq!(FileRetrieveContentRequest::new(s("f3")).file_id, "f3");
    assert_eq!(RetrieveFineTuningJobRequest::new(s("j1")).fine_tuning_job_id, "j1");
    assert_eq!(CancelFineTuningJobRequest::new(s("j2")).fine_tuning_job_id, "j2");
    let events = ListFineTuningJobEventsRequest::new(s("j3"));
    assert_eq!(events.fine_tuning_job_id, "j3");
    assert!(events.after.is_none() && events.limit.is_none());
    let jobs = ListFineTuningJobsRequest::new();
    assert!(jobs.after.is_none() && jobs.limit.is_none());
    assert_eq!(
        AssistantFileRequest { file_id: s("f4") }.to_json(),
        Json::Object(vec![(s("file_id"), Json::Text(s("f4")))])
    );
    let speech = AudioSpeechRequest::new(s("tts-1"), s("hello"), s("alloy"), s("out.mp3"));
    assert_eq!(names(&speech.to_json()), vec!["model", "input", "voice", "output"]);
    let moderation = CreateModerationRequest::new(s("some text"));
    assert_eq!(names(&moderation.to_json()), vec!["input"]);
    assert_eq!(names(&moderation.model(s("stable")).to_json()), vec!["input", "model"]);
    let embedding = EmbeddingRequest::new(Model::default(), s("text")).user(s("u"));
    assert_eq!(names(&embedding.to_json()), vec!["model", "input", "user"]);
}

#[test]
fn a_fine_tuning_request_omits_what_is_not_set() {
    let bare = CreateFineTuningJobRequest::new(s("gpt-3.5-turbo"), s("file_1"));
    assert_eq!(names(&bare.to_json()), vec!["model", "training_file"]);
    assert!(!has_null(&bare.to_json()));
    let full = bare
        .hyperparameters(HyperParameters {
            batch_size: None,
            learning_rate_multiplier: None,
            n_epochs: Some(s("3")),
        })
        .suffix(s("v2"))
        .validation_file(s("file_2"));
    let document = full.to_json();
    assert_eq!(
        document.get("hyperparameters"),
        Some(&Json::Object(vec![(s("n_epochs"), Json::Text(s("3")))]))
    );
    assert!(!has_null(&document));
    let back = CreateFineTuningJobRequest::from_json(&document).unwrap();
    assert_eq!(back.suffix, Some(s("v2")));
    assert_eq!(back.hyperparameters.unwrap().n_epochs, Some(s("3")));
}
