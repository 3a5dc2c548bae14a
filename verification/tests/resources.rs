use openai_rst::assistant::{AssistantFileObject, AssistantObject, ListAssistant, ListAssistantFile};
use openai_rst::audio::{
    AudioSpeechResponse, AudioTranscriptionResponse, AudioTranslationResponse, TTS_1, TTS_1_HD,
    VOICE_ALLOY, VOICE_ECHO, VOICE_FABLE, VOICE_NOVA, VOICE_ONYX, VOICE_SHIMMER, WHISPER_1,
};
use openai_rst::common::{MessageRole, Usage};
use openai_rst::edit::EditResponse;
use openai_rst::error::APIError;
use openai_rst::file::{
    FileData, FileDeleteResponse, FileListResponse, FileRetrieveContentResponse,
    FileRetrieveResponse, FileUploadResponse,
};
use openai_rst::fine_tuning::{
    FineTuningJobEvent, FineTuningJobObject, FineTuningPagination, HyperParameters,
};
use openai_rst::image::{ImageEditResponse, ImageGenerationResponse, ImageVariationResponse};
use openai_rst::json::Json;
use openai_rst::message::{ListMessage, ListMessageFile, MessageFileObject, MessageObject};
use openai_rst::models::{Model, GPT4};
use openai_rst::moderation::ModerationCategories;
use openai_rst::resource::{Decode, Enveloped};
use openai_rst::run::{ListRunStep, RunStepObject};
use openai_rst::transport::HttpResponse;

fn s(text: &str) -> String {
    text.to_string()
}

fn answer(body: &str) -> HttpResponse {
    HttpResponse { status: 200, headers: vec![(s("X-Request-Id"), s("abc"))], body: s(body) }
}

fn decode<T: Enveloped>(body: &str) -> Result<T, APIError> {
    answer(body).decode::<T>()
}

fn read<T: Decode>(body: &str) -> Result<T, APIError> {
    T::from_json(&Json::parse(body).unwrap())
}

const ASSISTANT: &str = "{\"id\":\"asst_1\",\"object\":\"assistant\",\"created_at\":1698984975,\
    \"name\":\"Math Tutor\",\"description\":null,\"model\":{\"GPT4\":\"GPT4Turbo\"},\
    \"instructions\":\"You are a personal math tutor.\",\
    \"tools\":[{\"type\":\"code_interpreter\"}],\"file_ids\":[],\"metadata\":{}}";

const FILE: &str = "{\"id\":\"file_1\",\"object\":\"file\",\"bytes\":120000,\
    \"created_at\":1677610602,\"filename\":\"data.jsonl\",\"purpose\":\"fine-tune\"}";

#[test]
fn an_assistant() {
    let assistant: AssistantObject = decode(ASSISTANT).unwrap();
    assert_eq!(assistant.id, "asst_1");
    assert_eq!(assistant.created_at, 1698984975);
    assert_eq!(assistant.name, Some(s("Math Tutor")));
    assert_eq!(assistant.description, None);
    assert_eq!(assistant.model, Model::GPT4(GPT4::GPT4Turbo));
    assert_eq!(assistant.instructions, Some(s("You are a personal math tutor.")));
    assert_eq!(assistant.tools.len(), 1);
    assert!(assistant.file_ids.is_empty());
    assert!(assistant.metadata.is_empty());
    assert_eq!(assistant.headers.unwrap().get("x-request-id"), Some(&s("abc")));
    assert!(decode::<AssistantObject>(&ASSISTANT.replace("\"GPT4Turbo\"", "\"gpt-4\"")).is_err());
}

#[test]
fn lists_of_assistants_and_their_files() {
    let body = format!("{{\"object\":\"list\",\"data\":[{},{}]}}", ASSISTANT, ASSISTANT);
    let list: ListAssistant = decode(&body).unwrap();
    assert_eq!(list.object, "list");
    assert_eq!(list.data.len(), 2);
    assert!(list.data[1].headers.is_none());
    let file = "{\"id\":\"file_1\",\"object\":\"assistant.file\",\"created_at\":7,\"assistant_id\":\"asst_1\"}";
    let one: AssistantFileObject = decode(file).unwrap();
    assert_eq!(one.assistant_id, "asst_1");
    assert_eq!(one.created_at, 7);
    let files: ListAssistantFile =
        decode(&format!("{{\"object\":\"list\",\"data\":[{}]}}", file)).unwrap();
    assert_eq!(files.data.len(), 1);
    assert_eq!(files.data[0].id, "file_1");
    let empty: ListAssistantFile = decode("{\"object\":\"list\",\"data\":[]}").unwrap();
    assert!(empty.data.is_empty());
    assert!(decode::<ListAssistant>("{\"object\":\"list\",\"data\":{}}").is_err());
}

#[test]
fn the_answers_of_audio() {
    let heard: AudioTranscriptionResponse = decode("{\"text\":\"hello there\"}").unwrap();
    assert_eq!(heard.text, "hello there");
    assert!(heard.headers.is_some());
    let translated: AudioTranslationResponse = decode("{\"text\":\"guten Tag\"}").unwrap();
    assert_eq!(translated.text, "guten Tag");
    assert!(decode::<AudioTranslationResponse>("{\"text\":5}").is_err());
    let spoken: AudioSpeechResponse = read("{\"result\":true}").unwrap();
    assert!(spoken.result);
    assert!(read::<AudioSpeechResponse>("{\"result\":\"yes\"}").is_err());
}

#[test]
fn the_names_of_audio_models_and_voices() {
    assert_eq!(WHISPER_1, "whisper-1");
    assert_eq!(TTS_1, "tts-1");
    assert_eq!(TTS_1_HD, "tts-1-hd");
    assert_eq!(
        [VOICE_ALLOY, VOICE_ECHO, VOICE_FABLE, VOICE_ONYX, VOICE_NOVA, VOICE_SHIMMER],
        ["alloy", "echo", "fable", "onyx", "nova", "shimmer"]
    );
}

#[test]
fn an_edit() {
    let edit: EditResponse = decode(
        "{\"object\":\"edit\",\"created\":1589478378,\
         \"usage\":{\"prompt_tokens\":25,\"completion_tokens\":32,\"total_tokens\":57},\
         \"choices\":[{\"text\":\"What day of the week is it?\",\"index\":0}]}",
    )
    .unwrap();
    assert_eq!(edit.created, 1589478378);
    assert_eq!(
        edit.usage,
        Usage { prompt_tokens: 25, completion_tokens: 32, total_tokens: 57 }
    );
    assert_eq!(edit.choices.len(), 1);
    assert_eq!(edit.choices[0].text, "What day of the week is it?");
    assert_eq!(edit.choices[0].index, 0);
}

#[test]
fn token_counts_are_32_bit() {
    let usage = "{\"prompt_tokens\":2147483647,\"completion_tokens\":0,\"total_tokens\":-1}";
    assert_eq!(
        read::<Usage>(usage),
        Ok(Usage { prompt_tokens: i32::MAX, completion_tokens: 0, total_tokens: -1 })
    );
    assert!(read::<Usage>(&usage.replace("2147483647", "2147483648")).is_err());
    assert!(read::<Usage>("{\"prompt_tokens\":1,\"total_tokens\":1}").is_err());
    let embedding: openai_rst::embedding::Usage =
        read("{\"prompt_tokens\":8,\"total_tokens\":8}").unwrap();
    assert_eq!((embedding.prompt_tokens, embedding.total_tokens), (8, 8));
}

#[test]
fn files() {
    let data: FileData = read(FILE).unwrap();
    assert_eq!(data.id, "file_1");
    assert_eq!(data.bytes, 120000);
    assert_eq!(data.filename, "data.jsonl");
    assert_eq!(data.purpose, "fine-tune");
    let list: FileListResponse =
        decode(&format!("{{\"object\":\"list\",\"data\":[{}]}}", FILE)).unwrap();
    assert_eq!(list.data.len(), 1);
    let uploaded: FileUploadResponse = decode(FILE).unwrap();
    assert_eq!(uploaded.created_at, 1677610602);
    let retrieved: FileRetrieveResponse = decode(FILE).unwrap();
    assert_eq!(retrieved.object, "file");
    let content: FileRetrieveContentResponse = decode(FILE).unwrap();
    assert_eq!(content.bytes, 120000);
    let deleted: FileDeleteResponse =
        decode("{\"id\":\"file_1\",\"object\":\"file\",\"delete\":true}").unwrap();
    assert!(deleted.delete);
    assert!(decode::<FileDeleteResponse>("{\"id\":\"file_1\",\"object\":\"file\"}").is_err());
}

#[test]
fn a_fine_tuning_job() {
    let body = "{\"id\":\"ftjob-1\",\"created_at\":1692661014,\"error\":null,\
        \"fine_tuned_model\":null,\"finished_at\":null,\
        \"hyperparameters\":{\"n_epochs\":\"4\"},\"model\":\"gpt-3.5-turbo\",\
        \"object\":\"fine_tuning.job\",\"organization_id\":\"org-1\",\"result_files\":[\"f1\"],\
        \"status\":\"failed\",\"trained_tokens\":5768,\"training_file\":\"file-1\",\
        \"validation_file\":null}";
    let job: FineTuningJobObject = decode(body).unwrap();
    assert_eq!(job.id, "ftjob-1");
    assert!(job.error.is_none());
    assert_eq!(job.hyperparameters.n_epochs, Some(s("4")));
    assert_eq!(job.hyperparameters.batch_size, None);
    assert_eq!(job.result_files, vec![s("f1")]);
    assert_eq!(job.trained_tokens, Some(5768));
    assert_eq!(job.validation_file, None);

    let failed = body.replace(
        "\"error\":null",
        "\"error\":{\"code\":\"bad_file\",\"message\":\"unreadable\",\"param\":\"training_file\"}",
    );
    let job: FineTuningJobObject = decode(&failed).unwrap();
    let error = job.error.unwrap();
    assert_eq!(error.code, "bad_file");
    assert_eq!(error.message, "unreadable");
    assert_eq!(error.param, Some(s("training_file")));
    assert!(decode::<FineTuningJobObject>(&body.replace("\"error\":null", "\"error\":{}")).is_err());

    let parameters: HyperParameters = read("{}").unwrap();
    assert!(parameters.batch_size.is_none() && parameters.n_epochs.is_none());
    assert!(read::<HyperParameters>("[]").is_err());
}

#[test]
fn pages_of_fine_tuning() {
    let event = "{\"id\":\"ev-1\",\"created_at\":1,\"level\":\"info\",\"message\":\"started\",\
        \"object\":\"fine_tuning.job.event\"}";
    let page: FineTuningPagination<FineTuningJobEvent> = decode(&format!(
        "{{\"object\":\"list\",\"data\":[{},{}],\"has_more\":true}}",
        event, event
    ))
    .unwrap();
    assert_eq!(page.data.len(), 2);
    assert_eq!(page.data[0].message, "started");
    assert_eq!(page.data[0].level, "info");
    assert!(page.has_more);
    assert!(page.headers.is_some());
    let empty: FineTuningPagination<FineTuningJobObject> =
        decode("{\"object\":\"list\",\"data\":[],\"has_more\":false}").unwrap();
    assert!(empty.data.is_empty());
    assert!(decode::<FineTuningPagination<FineTuningJobObject>>(
        "{\"object\":\"list\",\"data\":[{}],\"has_more\":false}"
    )
    .is_err());
}

#[test]
fn images() {
    let body = "{\"created\":1589478378,\"data\":[{\"url\":\"https://a/1\"},{\"url\":\"https://a/2\"}]}";
    let made: ImageGenerationResponse = decode(body).unwrap();
    assert_eq!(made.created, 1589478378);
    assert_eq!(made.data.len(), 2);
    assert_eq!(made.data[1].url, "https://a/2");
    let edited: ImageEditResponse = decode(body).unwrap();
    assert_eq!(edited.data[0].url, "https://a/1");
    let varied: ImageVariationResponse = decode(body).unwrap();
    assert_eq!(varied.data.len(), 2);
    assert!(decode::<ImageGenerationResponse>("{\"created\":1,\"data\":[{\"b64\":\"x\"}]}").is_err());
}

#[test]
fn messages() {
    let message = "{\"id\":\"msg_1\",\"object\":\"thread.message\",\"created_at\":1698983503,\
        \"thread_id\":\"thread_1\",\"role\":\"assistant\",\
        \"content\":[{\"type\":\"text\",\"text\":{\"value\":\"x = 1\",\"annotations\":[]}}],\
        \"assistant_id\":\"asst_1\",\"run_id\":null,\"file_ids\":[],\"metadata\":{\"a\":\"b\"}}";
    let one: MessageObject = decode(message).unwrap();
    assert_eq!(one.role, MessageRole::Assistant);
    assert_eq!(one.content.len(), 1);
    assert_eq!(one.content[0].content_type, "text");
    assert_eq!(one.content[0].text.value, "x = 1");
    assert!(one.content[0].text.annotations.is_empty());
    assert_eq!(one.assistant_id, Some(s("asst_1")));
    assert_eq!(one.run_id, None);
    assert_eq!(one.metadata.get("a"), Some(&s("b")));
    let list: ListMessage = decode(&format!(
        "{{\"object\":\"list\",\"data\":[{}],\"first_id\":\"msg_1\",\"last_id\":\"msg_1\",\"has_more\":false}}",
        message
    ))
    .unwrap();
    assert_eq!(list.data.len(), 1);
    assert_eq!(list.first_id, "msg_1");
    assert!(decode::<MessageObject>(&message.replace("\"assistant\",", "\"narrator\",")).is_err());

    let file = "{\"id\":\"file_1\",\"object\":\"thread.message.file\",\"created_at\":3,\"message_id\":\"msg_1\"}";
    let one: MessageFileObject = decode(file).unwrap();
    assert_eq!(one.message_id, "msg_1");
    let files: ListMessageFile = decode(&format!(
        "{{\"object\":\"list\",\"data\":[{}],\"first_id\":\"file_1\",\"last_id\":\"file_1\",\"has_more\":true}}",
        file
    ))
    .unwrap();
    assert!(files.has_more);
    assert_eq!(files.data[0].created_at, 3);
}

#[test]
fn the_categories_of_a_moderation() {
    let categories: ModerationCategories = read(
        "{\"hate\":false,\"hate/threatening\":true,\"self-harm\":false,\"sexual\":false,\
         \"sexual/minors\":false,\"violence\":true,\"violence/graphic\":false}",
    )
    .unwrap();
    assert!(!categories.is_hate);
    assert!(categories.is_hate_threatening);
    assert!(!categories.is_self_harm);
    assert!(!categories.sexual);
    assert!(categories.violence);
    assert!(!categories.is_violence_graphic);
    assert!(read::<ModerationCategories>("{\"hate\":false}").is_err());
    assert!(read::<ModerationCategories>("{\"is_hate\":false}").is_err());
}

#[test]
fn the_steps_of_a_run() {
    let step = "{\"id\":\"step_1\",\"object\":\"thread.run.step\",\"created_at\":1699063291,\
        \"assistant_id\":\"asst_1\",\"thread_id\":\"thread_1\",\"run_id\":\"run_1\",\
        \"type\":\"message_creation\",\"status\":\"completed\",\
        \"step_details\":{\"type\":\"message_creation\"},\"last_error\":null,\
        \"completed_at\":1699063292,\"metadata\":{}}";
    let one: RunStepObject = decode(step).unwrap();
    assert_eq!(one.run_step_type, "message_creation");
    assert_eq!(one.status, "completed");
    assert_eq!(one.step_details.get("type"), Some(&s("message_creation")));
    assert_eq!(one.completed_at, Some(1699063292));
    assert_eq!(one.failed_at, None);
    assert_eq!(one.last_error, None);
    let list: ListRunStep = decode(&format!(
        "{{\"object\":\"list\",\"data\":[{}],\"first_id\":\"step_1\",\"last_id\":\"step_1\",\"has_more\":false}}",
        step
    ))
    .unwrap();
    assert_eq!(list.data.len(), 1);
    assert_eq!(list.data[0].run_id, "run_1");
    assert!(decode::<RunStepObject>(&step.replace("\"type\":\"message_creation\",\"status\"", "\"status\"")).is_err());
}
