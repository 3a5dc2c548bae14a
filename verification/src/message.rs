//! Messages: what the caller and the assistant contribute to a thread.

use crate::common::MessageRole;
use crate::error::APIError;
use crate::fields::{
    bool_field, expect_object, int_field, lemma_map_reads_back, lemma_member_after_write,
    lemma_no_null_after_write, lemma_text_list_reads_back, map_field, no_members,
    no_null_member, object, opt_map_field, opt_map_json, opt_map_value, opt_text_field,
    opt_text_list_field, opt_text_list_json, opt_text_list_value, put, read_bool, read_int,
    read_map, read_opt_map, read_opt_text, read_opt_text_list, read_text, read_text_list,
    text_field, text_json, text_list_field, with_member,
};
use crate::json::{Json, JsonValue};
use crate::resource::{
    list_from, nested_from, read_nested, read_nested_list, Decode, Encode, Enveloped, RoundTrip,
};
use crate::string_map::StringMap;
use vstd::prelude::*;
use vstd::string::*;

verus! {

/// The request that adds a message to a thread.
#[derive(Debug, Clone)]
pub struct CreateMessageRequest {
    /// Who speaks.
    pub role: MessageRole,
    /// What is said.
    pub content: String,
    /// The files that go with the message.
    pub file_ids: Option<Vec<String>>,
    /// Free-form metadata.
    pub metadata: Option<StringMap>,
}

impl CreateMessageRequest {
    /// A message of `role` that says `content`, with no option set.
    pub fn new(role: MessageRole, content: String) -> (r: CreateMessageRequest)
        ensures
            r == (CreateMessageRequest { role, content, file_ids: None, metadata: None }),
    {
        CreateMessageRequest { role, content, file_ids: None, metadata: None }
    }

    /// Sets `file_ids`.
    pub fn file_ids(self, file_ids: Vec<String>) -> (r: CreateMessageRequest)
        ensures
            r == (CreateMessageRequest { file_ids: Some(file_ids), ..self }),
    {
        let mut r = self;
        r.file_ids = Some(file_ids);
        r
    }

    /// Sets `metadata`.
    pub fn metadata(self, metadata: StringMap) -> (r: CreateMessageRequest)
        ensures
            r == (CreateMessageRequest { metadata: Some(metadata), ..self }),
    {
        let mut r = self;
        r.metadata = Some(metadata);
        r
    }
}

impl Encode for CreateMessageRequest {
    open spec fn encoding(&self) -> JsonValue {
        JsonValue::Object(
            with_member(
                with_member(
                    with_member(
                        with_member(
                            Seq::empty(),
                            "role"@,
                            Some(self.role.encoding()),
                        ),
                        "content"@,
                        Some(JsonValue::Text(self.content@)),
                    ),
                    "file_ids"@,
                    opt_text_list_value(self.file_ids.deep_view()),
                ),
                "metadata"@,
                opt_map_value(self.metadata),
            ),
        )
    }

    fn to_json(&self) -> (r: Json) {
        let mut members = no_members();
        put(&mut members, "role", Some(self.role.to_json()));
        put(&mut members, "content", text_json(&self.content));
        put(&mut members, "file_ids", opt_text_list_json(&self.file_ids));
        put(&mut members, "metadata", opt_map_json(&self.metadata));
        object(members)
    }
}

impl Decode for CreateMessageRequest {
    open spec fn decoded_from(&self, j: JsonValue) -> bool {
        &&& j is Object
        &&& nested_from(self.role, j, "role"@)
        &&& text_field(j, "content"@) == Some(self.content@)
        &&& opt_text_list_field(j, "file_ids"@) == Some(self.file_ids.deep_view())
        &&& opt_map_field(j, "metadata"@) == Some(self.metadata.deep_view())
    }

    fn from_json(j: &Json) -> (r: Result<CreateMessageRequest, APIError>) {
        expect_object(j, "CreateMessageRequest")?;
        let role = read_nested::<MessageRole>(j, "role")?;
        let content = read_text(j, "content")?;
        let file_ids = read_opt_text_list(j, "file_ids")?;
        let metadata = read_opt_map(j, "metadata")?;
        Ok(CreateMessageRequest { role, content, file_ids, metadata })
    }
}

impl RoundTrip for CreateMessageRequest {
    proof fn lemma_round_trip(&self) {
        broadcast use lemma_member_after_write;

        reveal_strlit("role");
        reveal_strlit("content");
        reveal_strlit("file_ids");
        reveal_strlit("metadata");
        assert("role"@.len() == 4);
        assert("content"@.len() == 7);
        assert("file_ids"@.len() == 8);
        assert("metadata"@.len() == 8);
        assert("file_ids"@[0] != "metadata"@[0]);
        self.role.lemma_round_trip();
        if self.file_ids is Some {
            lemma_text_list_reads_back(self.file_ids->Some_0.deep_view());
        }
        if self.metadata is Some {
            lemma_map_reads_back(self.metadata->Some_0.pairs());
            self.metadata->Some_0.lemma_pairs();
        }
    }
}

impl CreateMessageRequest {
    /// On the wire a field that is set is a member of the object, a field
    /// that is not set is no member at all, and no member is `null`.
    pub proof fn lemma_unset_fields_are_omitted(&self)
        ensures
            no_null_member(self.encoding()->Object_0),
            self.encoding().member("role"@) is Some,
            self.encoding().member("content"@) is Some,
            self.encoding().member("file_ids"@) is Some <==> self.file_ids is Some,
            self.encoding().member("metadata"@) is Some <==> self.metadata is Some,
    {
        broadcast use {lemma_member_after_write, lemma_no_null_after_write};

        reveal_strlit("role");
        reveal_strlit("content");
        reveal_strlit("file_ids");
        reveal_strlit("metadata");
        assert("role"@.len() == 4);
        assert("content"@.len() == 7);
        assert("file_ids"@.len() == 8);
        assert("metadata"@.len() == 8);
        assert("file_ids"@[0] != "metadata"@[0]);
        self.role.lemma_round_trip();
    }
}

/// The request that changes the metadata of a message.
#[derive(Debug, Clone)]
pub struct ModifyMessageRequest {
    /// The new metadata.
    pub metadata: Option<StringMap>,
}

impl ModifyMessageRequest {
    /// A request with no option set.
    pub fn new() -> (r: ModifyMessageRequest)
        ensures
            r == (ModifyMessageRequest { metadata: None }),
    {
        ModifyMessageRequest { metadata: None }
    }

    /// Sets `metadata`.
    pub fn metadata(self, metadata: StringMap) -> (r: ModifyMessageRequest)
        ensures
            r == (ModifyMessageRequest { metadata: Some(metadata) }),
    {
        ModifyMessageRequest { metadata: Some(metadata) }
    }
}

impl Default for ModifyMessageRequest {
    fn default() -> (r: ModifyMessageRequest)
        ensures
            r == (ModifyMessageRequest { metadata: None }),
    {
        ModifyMessageRequest::new()
    }
}

impl Encode for ModifyMessageRequest {
    open spec fn encoding(&self) -> JsonValue {
        JsonValue::Object(
            with_member(
                Seq::empty(),
                "metadata"@,
                opt_map_value(self.metadata),
            ),
        )
    }

    fn to_json(&self) -> (r: Json) {
        let mut members = no_members();
        put(&mut members, "metadata", opt_map_json(&self.metadata));
        object(members)
    }
}

impl Decode for ModifyMessageRequest {
    open spec fn decoded_from(&self, j: JsonValue) -> bool {
        &&& j is Object
        &&& opt_map_field(j, "metadata"@) == Some(self.metadata.deep_view())
    }

    fn from_json(j: &Json) -> (r: Result<ModifyMessageRequest, APIError>) {
        expect_object(j, "ModifyMessageRequest")?;
        let metadata = read_opt_map(j, "metadata")?;
        Ok(ModifyMessageRequest { metadata })
    }
}

impl RoundTrip for ModifyMessageRequest {
    proof fn lemma_round_trip(&self) {
        broadcast use lemma_member_after_write;

        reveal_strlit("metadata");
        assert("metadata"@.len() == 8);
        if self.metadata is Some {
            lemma_map_reads_back(self.metadata->Some_0.pairs());
            self.metadata->Some_0.lemma_pairs();
        }
    }
}

impl ModifyMessageRequest {
    /// On the wire a field that is set is a member of the object, a field
    /// that is not set is no member at all, and no member is `null`.
    pub proof fn lemma_unset_fields_are_omitted(&self)
        ensures
            no_null_member(self.encoding()->Object_0),
            self.encoding().member("metadata"@) is Some <==> self.metadata is Some,
    {
        broadcast use {lemma_member_after_write, lemma_no_null_after_write};

        reveal_strlit("metadata");
        assert("metadata"@.len() == 8);
    }
}

/// The text of a part of a message.
#[derive(Debug)]
pub struct ContentText {
    /// The text itself.
    pub value: String,
    /// The annotations of the text.
    pub annotations: Vec<String>,
}

impl Decode for ContentText {
    open spec fn decoded_from(&self, j: JsonValue) -> bool {
        &&& j is Object
        &&& text_field(j, "value"@) == Some(self.value@)
        &&& text_list_field(j, "annotations"@) == Some(self.annotations.deep_view())
    }

    fn from_json(j: &Json) -> (r: Result<ContentText, APIError>) {
        expect_object(j, "ContentText")?;
        let value = read_text(j, "value")?;
        let annotations = read_text_list(j, "annotations")?;
        Ok(ContentText { value, annotations })
    }
}

/// One part of the content of a message.
#[derive(Debug)]
pub struct Content {
    /// The kind of part; `type` on the wire.
    pub content_type: String,
    /// The text of the part.
    pub text: ContentText,
}

impl Decode for Content {
    open spec fn decoded_from(&self, j: JsonValue) -> bool {
        &&& j is Object
        &&& text_field(j, "type"@) == Some(self.content_type@)
        &&& nested_from(self.text, j, "text"@)
    }

    fn from_json(j: &Json) -> (r: Result<Content, APIError>) {
        expect_object(j, "Content")?;
        let content_type = read_text(j, "type")?;
        let text = read_nested::<ContentText>(j, "text")?;
        Ok(Content { content_type, text })
    }
}

/// A message, as the service describes it.
#[derive(Debug)]
pub struct MessageObject {
    /// The identifier that the service gave the message.
    pub id: String,
    /// The kind of object, `thread.message`.
    pub object: String,
    /// When the message was created, in seconds since the epoch.
    pub created_at: i64,
    /// The thread that the message belongs to.
    pub thread_id: String,
    /// Who speaks.
    pub role: MessageRole,
    /// The parts of the content, in order.
    pub content: Vec<Content>,
    /// The assistant that wrote the message.
    pub assistant_id: Option<String>,
    /// The run in which the message was written.
    pub run_id: Option<String>,
    /// The files that go with the message.
    pub file_ids: Vec<String>,
    /// Free-form metadata.
    pub metadata: StringMap,
    /// The headers of the response that carried this object.
    pub headers: Option<StringMap>,
}

impl Decode for MessageObject {
    open spec fn decoded_from(&self, j: JsonValue) -> bool {
        &&& j is Object
        &&& text_field(j, "id"@) == Some(self.id@)
        &&& text_field(j, "object"@) == Some(self.object@)
        &&& int_field(j, "created_at"@) == Some(self.created_at as int)
        &&& text_field(j, "thread_id"@) == Some(self.thread_id@)
        &&& nested_from(self.role, j, "role"@)
        &&& list_from(self.content@, j, "content"@)
        &&& opt_text_field(j, "assistant_id"@) == Some(self.assistant_id.deep_view())
        &&& opt_text_field(j, "run_id"@) == Some(self.run_id.deep_view())
        &&& text_list_field(j, "file_ids"@) == Some(self.file_ids.deep_view())
        &&& map_field(j, "metadata"@) == Some(self.metadata@)
    }

    fn from_json(j: &Json) -> (r: Result<MessageObject, APIError>)
        ensures
            r matches Ok(value) ==> value.headers is None,
    {
        expect_object(j, "MessageObject")?;
        let id = read_text(j, "id")?;
        let object = read_text(j, "object")?;
        let created_at = read_int(j, "created_at")?;
        let thread_id = read_text(j, "thread_id")?;
        let role = read_nested::<MessageRole>(j, "role")?;
        let content = read_nested_list::<Content>(j, "content")?;
        let assistant_id = read_opt_text(j, "assistant_id")?;
        let run_id = read_opt_text(j, "run_id")?;
        let file_ids = read_text_list(j, "file_ids")?;
        let metadata = read_map(j, "metadata")?;
        Ok(
            MessageObject {
                id,
                object,
                created_at,
                thread_id,
                role,
                content,
                assistant_id,
                run_id,
                file_ids,
                metadata,
                headers: None,
            },
        )
    }
}

impl Enveloped for MessageObject {
    open spec fn envelope(&self) -> Option<Map<Seq<char>, Seq<char>>> {
        self.headers.deep_view()
    }

    fn with_headers(self, headers: StringMap) -> (r: MessageObject)
        ensures
            r == (MessageObject { headers: Some(headers), ..self }),
    {
        let mut r = self;
        r.headers = Some(headers);
        r
    }
}

/// One page of the messages of a thread.
#[derive(Debug)]
pub struct ListMessage {
    /// The kind of object, `list`.
    pub object: String,
    /// The messages of the page.
    pub data: Vec<MessageObject>,
    /// The identifier of the first of them.
    pub first_id: String,
    /// The identifier of the last of them.
    pub last_id: String,
    /// Whether more follow.
    pub has_more: bool,
    /// The headers of the response that carried this object.
    pub headers: Option<StringMap>,
}

impl Decode for ListMessage {
    open spec fn decoded_from(&self, j: JsonValue) -> bool {
        &&& j is Object
        &&& text_field(j, "object"@) == Some(self.object@)
        &&& list_from(self.data@, j, "data"@)
        &&& text_field(j, "first_id"@) == Some(self.first_id@)
        &&& text_field(j, "last_id"@) == Some(self.last_id@)
        &&& bool_field(j, "has_more"@) == Some(self.has_more)
    }

    fn from_json(j: &Json) -> (r: Result<ListMessage, APIError>)
        ensures
            r matches Ok(value) ==> value.headers is None,
    {
        expect_object(j, "ListMessage")?;
        let object = read_text(j, "object")?;
        let data = read_nested_list::<MessageObject>(j, "data")?;
        let first_id = read_text(j, "first_id")?;
        let last_id = read_text(j, "last_id")?;
        let has_more = read_bool(j, "has_more")?;
        Ok(ListMessage { object, data, first_id, last_id, has_more, headers: None })
    }
}

impl Enveloped for ListMessage {
    open spec fn envelope(&self) -> Option<Map<Seq<char>, Seq<char>>> {
        self.headers.deep_view()
    }

    fn with_headers(self, headers: StringMap) -> (r: ListMessage)
        ensures
            r == (ListMessage { headers: Some(headers), ..self }),
    {
        let mut r = self;
        r.headers = Some(headers);
        r
    }
}

/// A file of a message, as the service describes it.
#[derive(Debug)]
pub struct MessageFileObject {
    /// The identifier of the file.
    pub id: String,
    /// The kind of object, `thread.message.file`.
    pub object: String,
    /// When the file was attached, in seconds since the epoch.
    pub created_at: i64,
    /// The message that the file belongs to.
    pub message_id: String,
    /// The headers of the response that carried this object.
    pub headers: Option<StringMap>,
}

impl Decode for MessageFileObject {
    open spec fn decoded_from(&self, j: JsonValue) -> bool {
        &&& j is Object
        &&& text_field(j, "id"@) == Some(self.id@)
        &&& text_field(j, "object"@) == Some(self.object@)
        &&& int_field(j, "created_at"@) == Some(self.created_at as int)
        &&& text_field(j, "message_id"@) == Some(self.message_id@)
    }

    fn from_json(j: &Json) -> (r: Result<MessageFileObject, APIError>)
        ensures
            r matches Ok(value) ==> value.headers is None,
    {
        expect_object(j, "MessageFileObject")?;
        let id = read_text(j, "id")?;
        let object = read_text(j, "object")?;
        let created_at = read_int(j, "created_at")?;
        let message_id = read_text(j, "message_id")?;
        Ok(MessageFileObject { id, object, created_at, message_id, headers: None })
    }
}

impl Enveloped for MessageFileObject {
    open spec fn envelope(&self) -> Option<Map<Seq<char>, Seq<char>>> {
        self.headers.deep_view()
    }

    fn with_headers(self, headers: StringMap) -> (r: MessageFileObject)
        ensures
            r == (MessageFileObject { headers: Some(headers), ..self }),
    {
        let mut r = self;
        r.headers = Some(headers);
        r
    }
}

/// One page of the files of a message.
#[derive(Debug)]
pub struct ListMessageFile {
    /// The kind of object, `list`.
    pub object: String,
    /// The files of the page.
    pub data: Vec<MessageFileObject>,
    /// The identifier of the first of them.
    pub first_id: String,
    /// The identifier of the last of them.
    pub last_id: String,
    /// Whether more follow.
    pub has_more: bool,
    /// The headers of the response that carried this object.
    pub headers: Option<StringMap>,
}

impl Decode for ListMessageFile {
    open spec fn decoded_from(&self, j: JsonValue) -> bool {
        &&& j is Object
        &&& text_field(j, "object"@) == Some(self.object@)
        &&& list_from(self.data@, j, "data"@)
        &&& text_field(j, "first_id"@) == Some(self.first_id@)
        &&& text_field(j, "last_id"@) == Some(self.last_id@)
        &&& bool_field(j, "has_more"@) == Some(self.has_more)
    }

    fn from_json(j: &Json) -> (r: Result<ListMessageFile, APIError>)
        ensures
            r matches Ok(value) ==> value.headers is None,
    {
        expect_object(j, "ListMessageFile")?;
        let object = read_text(j, "object")?;
        let data = read_nested_list::<MessageFileObject>(j, "data")?;
        let first_id = read_text(j, "first_id")?;
        let last_id = read_text(j, "last_id")?;
        let has_more = read_bool(j, "has_more")?;
        Ok(ListMessageFile { object, data, first_id, last_id, has_more, headers: None })
    }
}

impl Enveloped for ListMessageFile {
    open spec fn envelope(&self) -> Option<Map<Seq<char>, Seq<char>>> {
        self.headers.deep_view()
    }

    fn with_headers(self, headers: StringMap) -> (r: ListMessageFile)
        ensures
            r == (ListMessageFile { headers: Some(headers), ..self }),
    {
        let mut r = self;
        r.headers = Some(headers);
        r
    }
}

} // verus!
