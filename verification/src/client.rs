//! The client: where the service is, who calls it, and for every operation
//! of the API the request that performs it.
//!
//! A [`Client`] makes no network call. Each operation returns the
//! [`ApiRequest`] to send; the answer comes back as an
//! [`HttpResponse`](crate::transport::HttpResponse) and is decoded there.
//! For a run, `create_run` creates it, `retrieve_run` polls it once and
//! `cancel_run` asks for its cancellation; [`crate::polling`] decides how a
//! wait for it goes on.

use crate::assistant::{AssistantFileRequest, AssistantRequest};
use crate::audio::AudioSpeechRequest;
use crate::embedding::EmbeddingRequest;
use crate::error::APIError;
use crate::file::{
    FileDeleteRequest, FileRetrieveContentRequest, FileRetrieveRequest, FileUploadRequest,
};
use crate::fine_tuning::{
    CancelFineTuningJobRequest, CreateFineTuningJobRequest, ListFineTuningJobEventsRequest,
    RetrieveFineTuningJobRequest,
};
use crate::image::{ImageEditRequest, ImageGenerationRequest, ImageVariationRequest};
use crate::json::Json;
use crate::message::{CreateMessageRequest, ModifyMessageRequest};
use crate::moderation::CreateModerationRequest;
use crate::resource::Encode;
use crate::run::{CreateRunRequest, CreateThreadAndRunRequest, ModifyRunRequest};
use crate::text::{decimal_text, int_text, join};
use crate::thread::{CreateThreadRequest, ModifyThreadRequest};
use crate::transport::{ApiRequest, Method};
use vstd::prelude::*;
use vstd::string::*;
use vstd::utf8::encode_utf8;

verus! {

/// The address of the service, where no other is configured.
pub const API_URL_V1: &'static str = "https://api.openai.com/v1";

/// A byte that may stand in the value of a header: a tab, or anything from
/// the space on but the delete character.
pub open spec fn header_byte_ok(byte: u8) -> bool {
    (byte >= 32 && byte != 127) || byte == 9
}

/// A text that may stand as the value of a header: each byte of its UTF-8
/// form may.
pub open spec fn header_value_ok(text: Seq<char>) -> bool {
    forall|i: int|
        0 <= i < encode_utf8(text).len() ==> header_byte_ok(#[trigger] encode_utf8(text)[i])
}

/// The value of the authorization header for a key.
pub open spec fn bearer(api_key: Seq<char>) -> Seq<char> {
    "Bearer "@ + api_key
}

/// Whether a text may stand as the value of a header.
///
/// Trusted: this is `reqwest::header::HeaderValue::from_str`, which goes
/// through the bytes of the text and fails exactly when one of them is
/// below 32 and not a tab, or is 127.
#[verifier::external_body]
fn is_header_value(text: &str) -> (r: bool)
    ensures
        r == header_value_ok(text@),
{
    reqwest::header::HeaderValue::from_str(text).is_ok()
}

/// One parameter of a query with its value, followed by `&`; nothing where
/// the parameter is not set.
pub open spec fn query_part(name: Seq<char>, value: Option<Seq<char>>) -> Seq<char> {
    match value {
        Some(v) => name + "="@ + v + "&"@,
        None => Seq::empty(),
    }
}

/// The decimal text of an optional number.
pub open spec fn opt_decimal(value: Option<i64>) -> Option<Seq<char>> {
    match value {
        Some(v) => Some(decimal_text(v as int)),
        None => None,
    }
}

/// The parameters of a listing, in the order `limit`, `order`, `after`,
/// `before`, each followed by `&`.
pub open spec fn query_parts(
    limit: Option<i64>,
    order: Option<Seq<char>>,
    after: Option<Seq<char>>,
    before: Option<Seq<char>>,
) -> Seq<char> {
    query_part("limit"@, opt_decimal(limit)) + query_part("order"@, order) + query_part(
        "after"@,
        after,
    ) + query_part("before"@, before)
}

/// What a listing appends to its address: `?` and the parameters where one
/// is set, nothing where none is.
pub open spec fn query_text(
    limit: Option<i64>,
    order: Option<Seq<char>>,
    after: Option<Seq<char>>,
    before: Option<Seq<char>>,
) -> Seq<char> {
    if query_parts(limit, order, after, before).len() == 0 {
        Seq::empty()
    } else {
        "?"@ + query_parts(limit, order, after, before)
    }
}

/// Appends one parameter of a query where it is set.
fn push_query_part(params: &mut String, name: &str, value: &Option<String>)
    ensures
        final(params)@ == old(params)@ + query_part(name@, value.deep_view()),
{
    match value {
        Some(v) => {
            let ghost before = params@;
            params.append(name);
            params.append("=");
            params.append(v.as_str());
            params.append("&");
            assert(params@ =~= before + (name@ + "="@ + v@ + "&"@));
        },
        None => {
            assert(params@ =~= params@ + Seq::<char>::empty());
        },
    }
}

/// Where the service is and who calls it.
///
/// The configuration is fixed when the client is made and only read
/// afterwards, so one client can serve any number of calls at once.
#[derive(Debug, Clone)]
pub struct Client {
    /// The address of the service: every path is appended to it.
    pub endpoint: String,
    /// The key that authorizes the calls.
    pub api_key: String,
}

impl Client {
    /// A client for the default address of the service.
    ///
    /// Fails with `ConfigurationError` exactly when `Bearer ` followed by
    /// the key cannot stand as the value of a header.
    pub fn new(api_key: String) -> (r: Result<Client, APIError>)
        ensures
            match r {
                Ok(client) => header_value_ok(bearer(api_key@)) && client.api_key == api_key
                    && client.endpoint@ == API_URL_V1@,
                Err(e) => !header_value_ok(bearer(api_key@)) && e is ConfigurationError,
            },
    {
        Client::from_env(None, api_key)
    }

    /// A client from the two settings that the environment of a process
    /// may hold: the address of the service, with the default address where
    /// it is not set, and the key.
    ///
    /// Fails with `ConfigurationError` exactly when `Bearer ` followed by
    /// the key cannot stand as the value of a header.
    pub fn from_env(endpoint: Option<String>, api_key: String) -> (r: Result<Client, APIError>)
        ensures
            match r {
                Ok(client) => header_value_ok(bearer(api_key@)) && client.api_key == api_key
                    && client.endpoint@ == match endpoint {
                    Some(address) => address@,
                    None => API_URL_V1@,
                },
                Err(e) => !header_value_ok(bearer(api_key@)) && e is ConfigurationError,
            },
    {
        let authorization = join("Bearer ", api_key.as_str());
        if !is_header_value(authorization.as_str()) {
            return Err(
                APIError::ConfigurationError(
                    String::from_str("the API key cannot stand in a header"),
                ),
            );
        }
        let endpoint = match endpoint {
            Some(address) => address,
            None => String::from_str(API_URL_V1),
        };
        Ok(Client { endpoint, api_key })
    }

    /// The headers that every call carries: the content type and the
    /// authorization.
    pub fn default_headers(&self) -> (r: Vec<(String, String)>)
        ensures
            r@.len() == 2,
            r@[0].0@ == "content-type"@,
            r@[0].1@ == "application/json"@,
            r@[1].0@ == "authorization"@,
            r@[1].1@ == bearer(self.api_key@),
    {
        let mut headers: Vec<(String, String)> = Vec::new();
        headers.push((String::from_str("content-type"), String::from_str("application/json")));
        headers.push(
            (String::from_str("authorization"), join("Bearer ", self.api_key.as_str())),
        );
        headers
    }

    /// The full address of a path.
    pub fn from_path(&self, path: &str) -> (r: String)
        ensures
            r@ == self.endpoint@ + path@,
    {
        join(self.endpoint.as_str(), path)
    }

    /// Appends the parameters of a listing to an address: `?`, then each
    /// parameter that is set, as `name=value&`. Nothing is appended where
    /// no parameter is set.
    pub fn query_params(
        limit: Option<i64>,
        order: Option<String>,
        after: Option<String>,
        before: Option<String>,
        url: String,
    ) -> (r: String)
        ensures
            r@ == url@
                + query_text(limit, order.deep_view(), after.deep_view(), before.deep_view()),
    {
        let mut params = String::new();
        let limit_text = match limit {
            Some(n) => Some(int_text(n)),
            None => None,
        };
        assert(params@ =~= Seq::<char>::empty());
        push_query_part(&mut params, "limit", &limit_text);
        push_query_part(&mut params, "order", &order);
        push_query_part(&mut params, "after", &after);
        push_query_part(&mut params, "before", &before);
        assert(params@ =~= query_parts(
            limit,
            order.deep_view(),
            after.deep_view(),
            before.deep_view(),
        ));
        let mut url = url;
        if !params.as_str().is_empty() {
            let ghost start = url@;
            url.append("?");
            url.append(params.as_str());
            assert(url@ =~= start + ("?"@ + params@));
        } else {
            assert(url@ =~= url@ + Seq::<char>::empty());
        }
        url
    }

    /// A call that sends `body` to `path`.
    pub fn post(&self, path: &str, body: Json) -> (r: ApiRequest)
        ensures
            r.method == Method::Post,
            r.url@ == self.endpoint@ + path@,
            r.body == Some(body),
    {
        ApiRequest { method: Method::Post, url: self.from_path(path), body: Some(body) }
    }

    /// A call that reads `path`.
    pub fn get(&self, path: &str) -> (r: ApiRequest)
        ensures
            r.method == Method::Get,
            r.url@ == self.endpoint@ + path@,
            r.body is None,
    {
        ApiRequest { method: Method::Get, url: self.from_path(path), body: None }
    }

    /// A call that deletes `path`.
    pub fn delete(&self, path: &str) -> (r: ApiRequest)
        ensures
            r.method == Method::Delete,
            r.url@ == self.endpoint@ + path@,
            r.body is None,
    {
        ApiRequest { method: Method::Delete, url: self.from_path(path), body: None }
    }

    /// Completes a prompt. The request carries a sampling temperature and is
    /// written by the caller: `body` is its document.
    pub fn completion(&self, body: Json) -> (r: ApiRequest)
        ensures
            r.method == Method::Post,
            r.url@ == self.endpoint@ + "/completions"@,
            r.body == Some(body),
    {
        let mut url = self.from_path("/completions");
        ApiRequest { method: Method::Post, url, body: Some(body) }
    }

    /// Edits a text. The request carries a sampling temperature and is written
    /// by the caller: `body` is its document.
    pub fn edit(&self, body: Json) -> (r: ApiRequest)
        ensures
            r.method == Method::Post,
            r.url@ == self.endpoint@ + "/edits"@,
            r.body == Some(body),
    {
        let mut url = self.from_path("/edits");
        ApiRequest { method: Method::Post, url, body: Some(body) }
    }

    /// Makes images from a prompt.
    pub fn image_generation(&self, req: ImageGenerationRequest) -> (r: ApiRequest)
        ensures
            r.method == Method::Post,
            r.url@ == self.endpoint@ + "/images/generations"@,
            r.body matches Some(b) && b@ == req.encoding(),
    {
        let mut url = self.from_path("/images/generations");
        ApiRequest { method: Method::Post, url, body: Some(req.to_json()) }
    }

    /// Edits an image after a prompt.
    pub fn image_edit(&self, req: ImageEditRequest) -> (r: ApiRequest)
        ensures
            r.method == Method::Post,
            r.url@ == self.endpoint@ + "/images/edits"@,
            r.body matches Some(b) && b@ == req.encoding(),
    {
        let mut url = self.from_path("/images/edits");
        ApiRequest { method: Method::Post, url, body: Some(req.to_json()) }
    }

    /// Makes variations of an image.
    pub fn image_variation(&self, req: ImageVariationRequest) -> (r: ApiRequest)
        ensures
            r.method == Method::Post,
            r.url@ == self.endpoint@ + "/images/variations"@,
            r.body matches Some(b) && b@ == req.encoding(),
    {
        let mut url = self.from_path("/images/variations");
        ApiRequest { method: Method::Post, url, body: Some(req.to_json()) }
    }

    /// Embeds a text.
    pub fn embedding(&self, req: EmbeddingRequest) -> (r: ApiRequest)
        ensures
            r.method == Method::Post,
            r.url@ == self.endpoint@ + "/embeddings"@,
            r.body matches Some(b) && b@ == req.encoding(),
    {
        let mut url = self.from_path("/embeddings");
        ApiRequest { method: Method::Post, url, body: Some(req.to_json()) }
    }

    /// Lists the files.
    pub fn file_list(&self) -> (r: ApiRequest)
        ensures
            r.method == Method::Get,
            r.url@ == self.endpoint@ + "/files"@,
            r.body is None,
    {
        let mut url = self.from_path("/files");
        ApiRequest { method: Method::Get, url, body: None }
    }

    /// Uploads a file.
    pub fn file_upload(&self, req: FileUploadRequest) -> (r: ApiRequest)
        ensures
            r.method == Method::Post,
            r.url@ == self.endpoint@ + "/files"@,
            r.body matches Some(b) && b@ == req.encoding(),
    {
        let mut url = self.from_path("/files");
        ApiRequest { method: Method::Post, url, body: Some(req.to_json()) }
    }

    /// Deletes a file.
    pub fn file_delete(&self, req: FileDeleteRequest) -> (r: ApiRequest)
        ensures
            r.method == Method::Delete,
            r.url@ == self.endpoint@ + "/files/"@ + req.file_id@,
            r.body is None,
    {
        let mut url = self.from_path("/files/");
        url.append(req.file_id.as_str());
        assert(url@ =~= self.endpoint@ + "/files/"@ + req.file_id@);
        ApiRequest { method: Method::Delete, url, body: None }
    }

    /// Retrieves the description of a file.
    pub fn file_retrieve(&self, req: FileRetrieveRequest) -> (r: ApiRequest)
        ensures
            r.method == Method::Get,
            r.url@ == self.endpoint@ + "/files/"@ + req.file_id@,
            r.body is None,
    {
        let mut url = self.from_path("/files/");
        url.append(req.file_id.as_str());
        assert(url@ =~= self.endpoint@ + "/files/"@ + req.file_id@);
        ApiRequest { method: Method::Get, url, body: None }
    }

    /// Retrieves the content of a file.
    pub fn file_retrieve_content(&self, req: FileRetrieveContentRequest) -> (r: ApiRequest)
        ensures
            r.method == Method::Get,
            r.url@ == self.endpoint@ + "/files/"@ + req.file_id@ + "/content"@,
            r.body is None,
    {
        let mut url = self.from_path("/files/");
        url.append(req.file_id.as_str());
        url.append("/content");
        assert(url@ =~= self.endpoint@ + "/files/"@ + req.file_id@ + "/content"@);
        ApiRequest { method: Method::Get, url, body: None }
    }

    /// Continues a chat. The request carries a sampling temperature and is
    /// written by the caller: `body` is its document.
    pub fn chat_completion(&self, body: Json) -> (r: ApiRequest)
        ensures
            r.method == Method::Post,
            r.url@ == self.endpoint@ + "/chat/completions"@,
            r.body == Some(body),
    {
        let mut url = self.from_path("/chat/completions");
        ApiRequest { method: Method::Post, url, body: Some(body) }
    }

    /// Transcribes audio. The request carries a sampling temperature and is
    /// written by the caller: `body` is its document.
    pub fn audio_transcription(&self, body: Json) -> (r: ApiRequest)
        ensures
            r.method == Method::Post,
            r.url@ == self.endpoint@ + "/audio/transcriptions"@,
            r.body == Some(body),
    {
        let mut url = self.from_path("/audio/transcriptions");
        ApiRequest { method: Method::Post, url, body: Some(body) }
    }

    /// Translates audio. The request carries a sampling temperature and is
    /// written by the caller: `body` is its document.
    pub fn audio_translation(&self, body: Json) -> (r: ApiRequest)
        ensures
            r.method == Method::Post,
            r.url@ == self.endpoint@ + "/audio/translations"@,
            r.body == Some(body),
    {
        let mut url = self.from_path("/audio/translations");
        ApiRequest { method: Method::Post, url, body: Some(body) }
    }

    /// Turns a text into speech. The answer is the audio itself, which the
    /// caller writes to the file that the request names.
    pub fn audio_speech(&self, req: AudioSpeechRequest) -> (r: ApiRequest)
        ensures
            r.method == Method::Post,
            r.url@ == self.endpoint@ + "/audio/speech"@,
            r.body matches Some(b) && b@ == req.encoding(),
    {
        let mut url = self.from_path("/audio/speech");
        ApiRequest { method: Method::Post, url, body: Some(req.to_json()) }
    }

    /// Creates a fine-tuning job.
    pub fn create_fine_tuning_job(&self, req: CreateFineTuningJobRequest) -> (r: ApiRequest)
        ensures
            r.method == Method::Post,
            r.url@ == self.endpoint@ + "/fine_tuning/jobs"@,
            r.body matches Some(b) && b@ == req.encoding(),
    {
        let mut url = self.from_path("/fine_tuning/jobs");
        ApiRequest { method: Method::Post, url, body: Some(req.to_json()) }
    }

    /// Lists the fine-tuning jobs.
    pub fn list_fine_tuning_jobs(&self) -> (r: ApiRequest)
        ensures
            r.method == Method::Get,
            r.url@ == self.endpoint@ + "/fine_tuning/jobs"@,
            r.body is None,
    {
        let mut url = self.from_path("/fine_tuning/jobs");
        ApiRequest { method: Method::Get, url, body: None }
    }

    /// Lists the events of a fine-tuning job.
    pub fn list_fine_tuning_job_events(
        &self,
        req: ListFineTuningJobEventsRequest,
    ) -> (r: ApiRequest)
        ensures
            r.method == Method::Get,
            r.url@ == self.endpoint@ + "/fine_tuning/jobs/"@ + req.fine_tuning_job_id@
                + "/events"@,
            r.body is None,
    {
        let mut url = self.from_path("/fine_tuning/jobs/");
        url.append(req.fine_tuning_job_id.as_str());
        url.append("/events");
        assert(url@ =~= self.endpoint@ + "/fine_tuning/jobs/"@ + req.fine_tuning_job_id@
            + "/events"@);
        ApiRequest { method: Method::Get, url, body: None }
    }

    /// Retrieves a fine-tuning job.
    pub fn retrieve_fine_tuning_job(&self, req: RetrieveFineTuningJobRequest) -> (r: ApiRequest)
        ensures
            r.method == Method::Get,
            r.url@ == self.endpoint@ + "/fine_tuning/jobs/"@ + req.fine_tuning_job_id@,
            r.body is None,
    {
        let mut url = self.from_path("/fine_tuning/jobs/");
        url.append(req.fine_tuning_job_id.as_str());
        assert(url@ =~= self.endpoint@ + "/fine_tuning/jobs/"@ + req.fine_tuning_job_id@);
        ApiRequest { method: Method::Get, url, body: None }
    }

    /// Cancels a fine-tuning job. The call has no body.
    pub fn cancel_fine_tuning_job(&self, req: CancelFineTuningJobRequest) -> (r: ApiRequest)
        ensures
            r.method == Method::Post,
            r.url@ == self.endpoint@ + "/fine_tuning/jobs/"@ + req.fine_tuning_job_id@
                + "/cancel"@,
            r.body is None,
    {
        let mut url = self.from_path("/fine_tuning/jobs/");
        url.append(req.fine_tuning_job_id.as_str());
        url.append("/cancel");
        assert(url@ =~= self.endpoint@ + "/fine_tuning/jobs/"@ + req.fine_tuning_job_id@
            + "/cancel"@);
        ApiRequest { method: Method::Post, url, body: None }
    }

    /// Classifies a text.
    pub fn create_moderation(&self, req: CreateModerationRequest) -> (r: ApiRequest)
        ensures
            r.method == Method::Post,
            r.url@ == self.endpoint@ + "/content-moderation"@,
            r.body matches Some(b) && b@ == req.encoding(),
    {
        let mut url = self.from_path("/content-moderation");
        ApiRequest { method: Method::Post, url, body: Some(req.to_json()) }
    }

    /// Creates an assistant.
    pub fn create_assistant(&self, req: AssistantRequest) -> (r: ApiRequest)
        ensures
            r.method == Method::Post,
            r.url@ == self.endpoint@ + "/assistants"@,
            r.body matches Some(b) && b@ == req.encoding(),
    {
        let mut url = self.from_path("/assistants");
        ApiRequest { method: Method::Post, url, body: Some(req.to_json()) }
    }

    /// Retrieves an assistant.
    pub fn retrieve_assistant(&self, assistant_id: String) -> (r: ApiRequest)
        ensures
            r.method == Method::Get,
            r.url@ == self.endpoint@ + "/assistants/"@ + assistant_id@,
            r.body is None,
    {
        let mut url = self.from_path("/assistants/");
        url.append(assistant_id.as_str());
        assert(url@ =~= self.endpoint@ + "/assistants/"@ + assistant_id@);
        ApiRequest { method: Method::Get, url, body: None }
    }

    /// Changes an assistant.
    pub fn modify_assistant(&self, assistant_id: String, req: AssistantRequest) -> (r: ApiRequest)
        ensures
            r.method == Method::Post,
            r.url@ == self.endpoint@ + "/assistants/"@ + assistant_id@,
            r.body matches Some(b) && b@ == req.encoding(),
    {
        let mut url = self.from_path("/assistants/");
        url.append(assistant_id.as_str());
        assert(url@ =~= self.endpoint@ + "/assistants/"@ + assistant_id@);
        ApiRequest { method: Method::Post, url, body: Some(req.to_json()) }
    }

    /// Deletes an assistant.
    pub fn delete_assistant(&self, assistant_id: String) -> (r: ApiRequest)
        ensures
            r.method == Method::Delete,
            r.url@ == self.endpoint@ + "/assistants/"@ + assistant_id@,
            r.body is None,
    {
        let mut url = self.from_path("/assistants/");
        url.append(assistant_id.as_str());
        assert(url@ =~= self.endpoint@ + "/assistants/"@ + assistant_id@);
        ApiRequest { method: Method::Delete, url, body: None }
    }

    /// Lists the assistants.
    pub fn list_assistant(
        &self,
        limit: Option<i64>,
        order: Option<String>,
        after: Option<String>,
        before: Option<String>,
    ) -> (r: ApiRequest)
        ensures
            r.method == Method::Get,
            r.url@ == self.endpoint@ + "/assistants"@
                + query_text(limit, order.deep_view(), after.deep_view(), before.deep_view()),
            r.body is None,
    {
        let mut url = self.from_path("/assistants");
        let url = Client::query_params(limit, order, after, before, url);
        ApiRequest { method: Method::Get, url, body: None }
    }

    /// Attaches a file to an assistant.
    pub fn create_assistant_file(
        &self,
        assistant_id: String,
        req: AssistantFileRequest,
    ) -> (r: ApiRequest)
        ensures
            r.method == Method::Post,
            r.url@ == self.endpoint@ + "/assistants/"@ + assistant_id@ + "/files"@,
            r.body matches Some(b) && b@ == req.encoding(),
    {
        let mut url = self.from_path("/assistants/");
        url.append(assistant_id.as_str());
        url.append("/files");
        assert(url@ =~= self.endpoint@ + "/assistants/"@ + assistant_id@ + "/files"@);
        ApiRequest { method: Method::Post, url, body: Some(req.to_json()) }
    }

    /// Retrieves a file of an assistant.
    pub fn retrieve_assistant_file(&self, assistant_id: String, file_id: String) -> (r: ApiRequest)
        ensures
            r.method == Method::Get,
            r.url@ == self.endpoint@ + "/assistants/"@ + assistant_id@ + "/files/"@ + file_id@,
            r.body is None,
    {
        let mut url = self.from_path("/assistants/");
        url.append(assistant_id.as_str());
        url.append("/files/");
        url.append(file_id.as_str());
        assert(url@ =~= self.endpoint@ + "/assistants/"@ + assistant_id@ + "/files/"@ + file_id@);
        ApiRequest { method: Method::Get, url, body: None }
    }

    /// Detaches a file from an assistant.
    pub fn delete_assistant_file(&self, assistant_id: String, file_id: String) -> (r: ApiRequest)
        ensures
            r.method == Method::Delete,
            r.url@ == self.endpoint@ + "/assistants/"@ + assistant_id@ + "/files/"@ + file_id@,
            r.body is None,
    {
        let mut url = self.from_path("/assistants/");
        url.append(assistant_id.as_str());
        url.append("/files/");
        url.append(file_id.as_str());
        assert(url@ =~= self.endpoint@ + "/assistants/"@ + assistant_id@ + "/files/"@ + file_id@);
        ApiRequest { method: Method::Delete, url, body: None }
    }

    /// Lists the files of an assistant.
    pub fn list_assistant_file(
        &self,
        assistant_id: String,
        limit: Option<i64>,
        order: Option<String>,
        after: Option<String>,
        before: Option<String>,
    ) -> (r: ApiRequest)
        ensures
            r.method == Method::Get,
            r.url@ == self.endpoint@ + "/assistants/"@ + assistant_id@ + "/files"@
                + query_text(limit, order.deep_view(), after.deep_view(), before.deep_view()),
            r.body is None,
    {
        let mut url = self.from_path("/assistants/");
        url.append(assistant_id.as_str());
        url.append("/files");
        assert(url@ =~= self.endpoint@ + "/assistants/"@ + assistant_id@ + "/files"@);
        let url = Client::query_params(limit, order, after, before, url);
        ApiRequest { method: Method::Get, url, body: None }
    }

    /// Creates a thread.
    pub fn create_thread(&self, req: CreateThreadRequest) -> (r: ApiRequest)
        ensures
            r.method == Method::Post,
            r.url@ == self.endpoint@ + "/threads"@,
            r.body matches Some(b) && b@ == req.encoding(),
    {
        let mut url = self.from_path("/threads");
        ApiRequest { method: Method::Post, url, body: Some(req.to_json()) }
    }

    /// Retrieves a thread.
    pub fn retrieve_thread(&self, thread_id: String) -> (r: ApiRequest)
        ensures
            r.method == Method::Get,
            r.url@ == self.endpoint@ + "/threads/"@ + thread_id@,
            r.body is None,
    {
        let mut url = self.from_path("/threads/");
        url.append(thread_id.as_str());
        assert(url@ =~= self.endpoint@ + "/threads/"@ + thread_id@);
        ApiRequest { method: Method::Get, url, body: None }
    }

    /// Changes the metadata of a thread.
    pub fn modify_thread(&self, thread_id: String, req: ModifyThreadRequest) -> (r: ApiRequest)
        ensures
            r.method == Method::Post,
            r.url@ == self.endpoint@ + "/threads/"@ + thread_id@,
            r.body matches Some(b) && b@ == req.encoding(),
    {
        let mut url = self.from_path("/threads/");
        url.append(thread_id.as_str());
        assert(url@ =~= self.endpoint@ + "/threads/"@ + thread_id@);
        ApiRequest { method: Method::Post, url, body: Some(req.to_json()) }
    }

    /// Deletes a thread.
    pub fn delete_thread(&self, thread_id: String) -> (r: ApiRequest)
        ensures
            r.method == Method::Delete,
            r.url@ == self.endpoint@ + "/threads/"@ + thread_id@,
            r.body is None,
    {
        let mut url = self.from_path("/threads/");
        url.append(thread_id.as_str());
        assert(url@ =~= self.endpoint@ + "/threads/"@ + thread_id@);
        ApiRequest { method: Method::Delete, url, body: None }
    }

    /// Adds a message to a thread.
    pub fn create_message(&self, thread_id: String, req: CreateMessageRequest) -> (r: ApiRequest)
        ensures
            r.method == Method::Post,
            r.url@ == self.endpoint@ + "/threads/"@ + thread_id@ + "/messages"@,
            r.body matches Some(b) && b@ == req.encoding(),
    {
        let mut url = self.from_path("/threads/");
        url.append(thread_id.as_str());
        url.append("/messages");
        assert(url@ =~= self.endpoint@ + "/threads/"@ + thread_id@ + "/messages"@);
        ApiRequest { method: Method::Post, url, body: Some(req.to_json()) }
    }

    /// Retrieves a message of a thread.
    pub fn retrieve_message(&self, thread_id: String, message_id: String) -> (r: ApiRequest)
        ensures
            r.method == Method::Get,
            r.url@ == self.endpoint@ + "/threads/"@ + thread_id@ + "/messages/"@ + message_id@,
            r.body is None,
    {
        let mut url = self.from_path("/threads/");
        url.append(thread_id.as_str());
        url.append("/messages/");
        url.append(message_id.as_str());
        assert(url@ =~= self.endpoint@ + "/threads/"@ + thread_id@ + "/messages/"@ + message_id@);
        ApiRequest { method: Method::Get, url, body: None }
    }

    /// Changes the metadata of a message.
    pub fn modify_message(
        &self,
        thread_id: String,
        message_id: String,
        req: ModifyMessageRequest,
    ) -> (r: ApiRequest)
        ensures
            r.method == Method::Post,
            r.url@ == self.endpoint@ + "/threads/"@ + thread_id@ + "/messages/"@ + message_id@,
            r.body matches Some(b) && b@ == req.encoding(),
    {
        let mut url = self.from_path("/threads/");
        url.append(thread_id.as_str());
        url.append("/messages/");
        url.append(message_id.as_str());
        assert(url@ =~= self.endpoint@ + "/threads/"@ + thread_id@ + "/messages/"@ + message_id@);
        ApiRequest { method: Method::Post, url, body: Some(req.to_json()) }
    }

    /// Lists the messages of a thread.
    pub fn list_messages(&self, thread_id: String) -> (r: ApiRequest)
        ensures
            r.method == Method::Get,
            r.url@ == self.endpoint@ + "/threads/"@ + thread_id@ + "/messages"@,
            r.body is None,
    {
        let mut url = self.from_path("/threads/");
        url.append(thread_id.as_str());
        url.append("/messages");
        assert(url@ =~= self.endpoint@ + "/threads/"@ + thread_id@ + "/messages"@);
        ApiRequest { method: Method::Get, url, body: None }
    }

    /// Retrieves a file of a message.
    pub fn retrieve_message_file(
        &self,
        thread_id: String,
        message_id: String,
        file_id: String,
    ) -> (r: ApiRequest)
        ensures
            r.method == Method::Get,
            r.url@ == self.endpoint@ + "/threads/"@ + thread_id@ + "/messages/"@ + message_id@
                + "/files/"@ + file_id@,
            r.body is None,
    {
        let mut url = self.from_path("/threads/");
        url.append(thread_id.as_str());
        url.append("/messages/");
        url.append(message_id.as_str());
        url.append("/files/");
        url.append(file_id.as_str());
        assert(url@ =~= self.endpoint@ + "/threads/"@ + thread_id@
            + "/messages/"@ + message_id@ + "/files/"@ + file_id@);
        ApiRequest { method: Method::Get, url, body: None }
    }

    /// Lists the files of a message.
    pub fn list_message_file(
        &self,
        thread_id: String,
        message_id: String,
        limit: Option<i64>,
        order: Option<String>,
        after: Option<String>,
        before: Option<String>,
    ) -> (r: ApiRequest)
        ensures
            r.method == Method::Get,
            r.url@ == self.endpoint@ + "/threads/"@ + thread_id@ + "/messages/"@ + message_id@
                + "/files"@
                + query_text(limit, order.deep_view(), after.deep_view(), before.deep_view()),
            r.body is None,
    {
        let mut url = self.from_path("/threads/");
        url.append(thread_id.as_str());
        url.append("/messages/");
        url.append(message_id.as_str());
        url.append("/files");
        assert(url@ =~= self.endpoint@ + "/threads/"@ + thread_id@
            + "/messages/"@ + message_id@ + "/files"@);
        let url = Client::query_params(limit, order, after, before, url);
        ApiRequest { method: Method::Get, url, body: None }
    }

    /// Creates a run on a thread. The service answers at once with the run in
    /// status `queued`; it executes the run on its own.
    pub fn create_run(&self, thread_id: String, req: CreateRunRequest) -> (r: ApiRequest)
        ensures
            r.method == Method::Post,
            r.url@ == self.endpoint@ + "/threads/"@ + thread_id@ + "/runs"@,
            r.body matches Some(b) && b@ == req.encoding(),
    {
        let mut url = self.from_path("/threads/");
        url.append(thread_id.as_str());
        url.append("/runs");
        assert(url@ =~= self.endpoint@ + "/threads/"@ + thread_id@ + "/runs"@);
        ApiRequest { method: Method::Post, url, body: Some(req.to_json()) }
    }

    /// Polls a run once: asks for its present state and changes nothing.
    pub fn retrieve_run(&self, thread_id: String, run_id: String) -> (r: ApiRequest)
        ensures
            r.method == Method::Get,
            r.url@ == self.endpoint@ + "/threads/"@ + thread_id@ + "/runs/"@ + run_id@,
            r.body is None,
    {
        let mut url = self.from_path("/threads/");
        url.append(thread_id.as_str());
        url.append("/runs/");
        url.append(run_id.as_str());
        assert(url@ =~= self.endpoint@ + "/threads/"@ + thread_id@ + "/runs/"@ + run_id@);
        ApiRequest { method: Method::Get, url, body: None }
    }

    /// Changes the metadata of a run.
    pub fn modify_run(
        &self,
        thread_id: String,
        run_id: String,
        req: ModifyRunRequest,
    ) -> (r: ApiRequest)
        ensures
            r.method == Method::Post,
            r.url@ == self.endpoint@ + "/threads/"@ + thread_id@ + "/runs/"@ + run_id@,
            r.body matches Some(b) && b@ == req.encoding(),
    {
        let mut url = self.from_path("/threads/");
        url.append(thread_id.as_str());
        url.append("/runs/");
        url.append(run_id.as_str());
        assert(url@ =~= self.endpoint@ + "/threads/"@ + thread_id@ + "/runs/"@ + run_id@);
        ApiRequest { method: Method::Post, url, body: Some(req.to_json()) }
    }

    /// Lists the runs of a thread.
    pub fn list_run(
        &self,
        thread_id: String,
        limit: Option<i64>,
        order: Option<String>,
        after: Option<String>,
        before: Option<String>,
    ) -> (r: ApiRequest)
        ensures
            r.method == Method::Get,
            r.url@ == self.endpoint@ + "/threads/"@ + thread_id@ + "/runs"@
                + query_text(limit, order.deep_view(), after.deep_view(), before.deep_view()),
            r.body is None,
    {
        let mut url = self.from_path("/threads/");
        url.append(thread_id.as_str());
        url.append("/runs");
        assert(url@ =~= self.endpoint@ + "/threads/"@ + thread_id@ + "/runs"@);
        let url = Client::query_params(limit, order, after, before, url);
        ApiRequest { method: Method::Get, url, body: None }
    }

    /// Asks for the cancellation of a run. The body is an object without
    /// members. The service answers as soon as it has taken note, with the run
    /// as it then is, which need not be cancelled yet: wait for the run to
    /// learn how it ended.
    pub fn cancel_run(&self, thread_id: String, run_id: String) -> (r: ApiRequest)
        ensures
            r.method == Method::Post,
            r.url@ == self.endpoint@ + "/threads/"@ + thread_id@ + "/runs/"@ + run_id@
                + "/cancel"@,
            r.body matches Some(b) && b@ == (ModifyRunRequest { metadata: None }).encoding(),
    {
        let mut url = self.from_path("/threads/");
        url.append(thread_id.as_str());
        url.append("/runs/");
        url.append(run_id.as_str());
        url.append("/cancel");
        assert(url@ =~= self.endpoint@ + "/threads/"@ + thread_id@
            + "/runs/"@ + run_id@ + "/cancel"@);
        ApiRequest { method: Method::Post, url, body: Some(ModifyRunRequest::new().to_json()) }
    }

    /// Creates a thread and a run on it.
    pub fn create_thread_and_run(&self, req: CreateThreadAndRunRequest) -> (r: ApiRequest)
        ensures
            r.method == Method::Post,
            r.url@ == self.endpoint@ + "/threads/runs"@,
            r.body matches Some(b) && b@ == req.encoding(),
    {
        let mut url = self.from_path("/threads/runs");
        ApiRequest { method: Method::Post, url, body: Some(req.to_json()) }
    }

    /// Retrieves a step of a run.
    pub fn retrieve_run_step(
        &self,
        thread_id: String,
        run_id: String,
        step_id: String,
    ) -> (r: ApiRequest)
        ensures
            r.method == Method::Get,
            r.url@ == self.endpoint@ + "/threads/"@ + thread_id@ + "/runs/"@ + run_id@
                + "/steps/"@ + step_id@,
            r.body is None,
    {
        let mut url = self.from_path("/threads/");
        url.append(thread_id.as_str());
        url.append("/runs/");
        url.append(run_id.as_str());
        url.append("/steps/");
        url.append(step_id.as_str());
        assert(url@ =~= self.endpoint@ + "/threads/"@ + thread_id@
            + "/runs/"@ + run_id@ + "/steps/"@ + step_id@);
        ApiRequest { method: Method::Get, url, body: None }
    }

    /// Lists the steps of a run.
    pub fn list_run_step(
        &self,
        thread_id: String,
        run_id: String,
        limit: Option<i64>,
        order: Option<String>,
        after: Option<String>,
        before: Option<String>,
    ) -> (r: ApiRequest)
        ensures
            r.method == Method::Get,
            r.url@ == self.endpoint@ + "/threads/"@ + thread_id@ + "/runs/"@ + run_id@
                + "/steps"@
                + query_text(limit, order.deep_view(), after.deep_view(), before.deep_view()),
            r.body is None,
    {
        let mut url = self.from_path("/threads/");
        url.append(thread_id.as_str());
        url.append("/runs/");
        url.append(run_id.as_str());
        url.append("/steps");
        assert(url@ =~= self.endpoint@ + "/threads/"@ + thread_id@
            + "/runs/"@ + run_id@ + "/steps"@);
        let url = Client::query_params(limit, order, after, before, url);
        ApiRequest { method: Method::Get, url, body: None }
    }
}

} // verus!
