//! Threads: the durable containers of messages that runs operate on.

use crate::common::MessageRole;
use crate::error::APIError;
use crate::fields::{
    expect_object, int_field, lemma_map_reads_back, lemma_member_after_write,
    lemma_no_null_after_write, map_field, no_members, no_null_member, object, opt_map_field,
    opt_map_json, opt_map_value, opt_text_field, opt_text_json, opt_text_value, put, read_int,
    read_map, read_opt_map, read_opt_text, read_text, text_field, text_json, with_member,
};
use crate::json::{Json, JsonValue};
use crate::resource::{
    lemma_list_round_trip, nested_from, opt_list_from, opt_list_json, opt_list_value,
    read_nested, read_opt_nested_list, Decode, Encode, Enveloped, RoundTrip,
};
use crate::string_map::StringMap;
use vstd::prelude::*;
use vstd::string::*;

verus! {

/// A message given to a thread when the thread is created.
#[derive(Debug, Clone)]
pub struct Message {
    /// Who speaks.
    pub role: MessageRole,
    /// What is said.
    pub content: String,
    /// A file that goes with the message.
    pub file_ids: Option<String>,
    /// Free-form metadata.
    pub metadata: Option<StringMap>,
}

impl Encode for Message {
    open spec fn encoding(&self) -> JsonValue {
        JsonValue::Object(
            with_member(
                with_member(
                    with_member(
                        with_member(
                            Seq::empty(),
                            "role"@,
                            Some(self.role.encoding()),
                        ),
                        "content"@,
                        Some(JsonValue::Text(self.content@)),
                    ),
                    "file_ids"@,
                    opt_text_value(self.file_ids.deep_view()),
                ),
                "metadata"@,
                opt_map_value(self.metadata),
            ),
        )
    }

    fn to_json(&self) -> (r: Json) {
        let mut members = no_members();
        put(&mut members, "role", Some(self.role.to_json()));
        put(&mut members, "content", text_json(&self.content));
        put(&mut members, "file_ids", opt_text_json(&self.file_ids));
        put(&mut members, "metadata", opt_map_json(&self.metadata));
        object(members)
    }
}

impl Decode for Message {
    open spec fn decoded_from(&self, j: JsonValue) -> bool {
        &&& j is Object
        &&& nested_from(self.role, j, "role"@)
        &&& text_field(j, "content"@) == Some(self.content@)
        &&& opt_text_field(j, "file_ids"@) == Some(self.file_ids.deep_view())
        &&& opt_map_field(j, "metadata"@) == Some(self.metadata.deep_view())
    }

    fn from_json(j: &Json) -> (r: Result<Message, APIError>) {
        expect_object(j, "Message")?;
        let role = read_nested::<MessageRole>(j, "role")?;
        let content = read_text(j, "content")?;
        let file_ids = read_opt_text(j, "file_ids")?;
        let metadata = read_opt_map(j, "metadata")?;
        Ok(Message { role, content, file_ids, metadata })
    }
}

impl RoundTrip for Message {
    proof fn lemma_round_trip(&self) {
        broadcast use lemma_member_after_write;

        reveal_strlit("role");
        reveal_strlit("content");
        reveal_strlit("file_ids");
        reveal_strlit("metadata");
        assert("role"@.len() == 4);
        assert("content"@.len() == 7);
        assert("file_ids"@.len() == 8);
        assert("metadata"@.len() == 8);
        assert("file_ids"@[0] != "metadata"@[0]);
        self.role.lemma_round_trip();
        if self.metadata is Some {
            lemma_map_reads_back(self.metadata->Some_0.pairs());
            self.metadata->Some_0.lemma_pairs();
        }
    }
}

impl Message {
    /// On the wire a field that is set is a member of the object, a field
    /// that is not set is no member at all, and no member is `null`.
    pub proof fn lemma_unset_fields_are_omitted(&self)
        ensures
            no_null_member(self.encoding()->Object_0),
            self.encoding().member("role"@) is Some,
            self.encoding().member("content"@) is Some,
            self.encoding().member("file_ids"@) is Some <==> self.file_ids is Some,
            self.encoding().member("metadata"@) is Some <==> self.metadata is Some,
    {
        broadcast use {lemma_member_after_write, lemma_no_null_after_write};

        reveal_strlit("role");
        reveal_strlit("content");
        reveal_strlit("file_ids");
        reveal_strlit("metadata");
        assert("role"@.len() == 4);
        assert("content"@.len() == 7);
        assert("file_ids"@.len() == 8);
        assert("metadata"@.len() == 8);
        assert("file_ids"@[0] != "metadata"@[0]);
        self.role.lemma_round_trip();
    }
}

/// The request that creates a thread.
#[derive(Debug, Clone)]
pub struct CreateThreadRequest {
    /// Messages to start the thread with.
    pub messages: Option<Vec<Message>>,
    /// Free-form metadata.
    pub metadata: Option<StringMap>,
}

impl CreateThreadRequest {
    /// A request with no option set.
    pub fn new() -> (r: CreateThreadRequest)
        ensures
            r == (CreateThreadRequest { messages: None, metadata: None }),
    {
        CreateThreadRequest { messages: None, metadata: None }
    }

    /// Sets `messages`.
    pub fn messages(self, messages: Vec<Message>) -> (r: CreateThreadRequest)
        ensures
            r == (CreateThreadRequest { messages: Some(messages), ..self }),
    {
        let mut r = self;
        r.messages = Some(messages);
        r
    }

    /// Sets `metadata`.
    pub fn metadata(self, metadata: StringMap) -> (r: CreateThreadRequest)
        ensures
            r == (CreateThreadRequest { metadata: Some(metadata), ..self }),
    {
        let mut r = self;
        r.metadata = Some(metadata);
        r
    }
}

impl Default for CreateThreadRequest {
    fn default() -> (r: CreateThreadRequest)
        ensures
            r == (CreateThreadRequest { messages: None, metadata: None }),
    {
        CreateThreadRequest::new()
    }
}

impl Encode for CreateThreadRequest {
    open spec fn encoding(&self) -> JsonValue {
        JsonValue::Object(
            with_member(
                with_member(
                    Seq::empty(),
                    "messages"@,
                    opt_list_value(self.messages),
                ),
                "metadata"@,
                opt_map_value(self.metadata),
            ),
        )
    }

    fn to_json(&self) -> (r: Json) {
        let mut members = no_members();
        put(&mut members, "messages", opt_list_json(&self.messages));
        put(&mut members, "metadata", opt_map_json(&self.metadata));
        object(members)
    }
}

impl Decode for CreateThreadRequest {
    open spec fn decoded_from(&self, j: JsonValue) -> bool {
        &&& j is Object
        &&& opt_list_from(self.messages, j, "messages"@)
        &&& opt_map_field(j, "metadata"@) == Some(self.metadata.deep_view())
    }

    fn from_json(j: &Json) -> (r: Result<CreateThreadRequest, APIError>) {
        expect_object(j, "CreateThreadRequest")?;
        let messages = read_opt_nested_list::<Message>(j, "messages")?;
        let metadata = read_opt_map(j, "metadata")?;
        Ok(CreateThreadRequest { messages, metadata })
    }
}

impl RoundTrip for CreateThreadRequest {
    proof fn lemma_round_trip(&self) {
        broadcast use lemma_member_after_write;

        reveal_strlit("messages");
        reveal_strlit("metadata");
        assert("messages"@.len() == 8);
        assert("metadata"@.len() == 8);
        assert("messages"@[2] != "metadata"@[2]);
        if self.messages is Some {
            lemma_list_round_trip(self.messages->Some_0@);
        }
        if self.metadata is Some {
            lemma_map_reads_back(self.metadata->Some_0.pairs());
            self.metadata->Some_0.lemma_pairs();
        }
    }
}

impl CreateThreadRequest {
    /// On the wire a field that is set is a member of the object, a field
    /// that is not set is no member at all, and no member is `null`.
    pub proof fn lemma_unset_fields_are_omitted(&self)
        ensures
            no_null_member(self.encoding()->Object_0),
            self.encoding().member("messages"@) is Some <==> self.messages is Some,
            self.encoding().member("metadata"@) is Some <==> self.metadata is Some,
    {
        broadcast use {lemma_member_after_write, lemma_no_null_after_write};

        reveal_strlit("messages");
        reveal_strlit("metadata");
        assert("messages"@.len() == 8);
        assert("metadata"@.len() == 8);
        assert("messages"@[2] != "metadata"@[2]);
    }
}

/// The request that changes the metadata of a thread.
#[derive(Debug, Clone)]
pub struct ModifyThreadRequest {
    /// The new metadata.
    pub metadata: Option<StringMap>,
}

impl ModifyThreadRequest {
    /// A request with no option set.
    pub fn new() -> (r: ModifyThreadRequest)
        ensures
            r == (ModifyThreadRequest { metadata: None }),
    {
        ModifyThreadRequest { metadata: None }
    }

    /// Sets `metadata`.
    pub fn metadata(self, metadata: StringMap) -> (r: ModifyThreadRequest)
        ensures
            r == (ModifyThreadRequest { metadata: Some(metadata) }),
    {
        ModifyThreadRequest { metadata: Some(metadata) }
    }
}

impl Default for ModifyThreadRequest {
    fn default() -> (r: ModifyThreadRequest)
        ensures
            r == (ModifyThreadRequest { metadata: None }),
    {
        ModifyThreadRequest::new()
    }
}

impl Encode for ModifyThreadRequest {
    open spec fn encoding(&self) -> JsonValue {
        JsonValue::Object(
            with_member(
                Seq::empty(),
                "metadata"@,
                opt_map_value(self.metadata),
            ),
        )
    }

    fn to_json(&self) -> (r: Json) {
        let mut members = no_members();
        put(&mut members, "metadata", opt_map_json(&self.metadata));
        object(members)
    }
}

impl Decode for ModifyThreadRequest {
    open spec fn decoded_from(&self, j: JsonValue) -> bool {
        &&& j is Object
        &&& opt_map_field(j, "metadata"@) == Some(self.metadata.deep_view())
    }

    fn from_json(j: &Json) -> (r: Result<ModifyThreadRequest, APIError>) {
        expect_object(j, "ModifyThreadRequest")?;
        let metadata = read_opt_map(j, "metadata")?;
        Ok(ModifyThreadRequest { metadata })
    }
}

impl RoundTrip for ModifyThreadRequest {
    proof fn lemma_round_trip(&self) {
        broadcast use lemma_member_after_write;

        reveal_strlit("metadata");
        assert("metadata"@.len() == 8);
        if self.metadata is Some {
            lemma_map_reads_back(self.metadata->Some_0.pairs());
            self.metadata->Some_0.lemma_pairs();
        }
    }
}

impl ModifyThreadRequest {
    /// On the wire a field that is set is a member of the object, a field
    /// that is not set is no member at all, and no member is `null`.
    pub proof fn lemma_unset_fields_are_omitted(&self)
        ensures
            no_null_member(self.encoding()->Object_0),
            self.encoding().member("metadata"@) is Some <==> self.metadata is Some,
    {
        broadcast use {lemma_member_after_write, lemma_no_null_after_write};

        reveal_strlit("metadata");
        assert("metadata"@.len() == 8);
    }
}

/// A thread, as the service describes it.
#[derive(Debug)]
pub struct ThreadObject {
    /// The identifier that the service gave the thread.
    pub id: String,
    /// The kind of object, `thread`.
    pub object: String,
    /// When the thread was created, in seconds since the epoch.
    pub created_at: i64,
    /// Free-form metadata.
    pub metadata: StringMap,
    /// The headers of the response that carried this object.
    pub headers: Option<StringMap>,
}

impl Decode for ThreadObject {
    open spec fn decoded_from(&self, j: JsonValue) -> bool {
        &&& j is Object
        &&& text_field(j, "id"@) == Some(self.id@)
        &&& text_field(j, "object"@) == Some(self.object@)
        &&& int_field(j, "created_at"@) == Some(self.created_at as int)
        &&& map_field(j, "metadata"@) == Some(self.metadata@)
    }

    fn from_json(j: &Json) -> (r: Result<ThreadObject, APIError>)
        ensures
            r matches Ok(value) ==> value.headers is None,
    {
        expect_object(j, "ThreadObject")?;
        let id = read_text(j, "id")?;
        let object = read_text(j, "object")?;
        let created_at = read_int(j, "created_at")?;
        let metadata = read_map(j, "metadata")?;
        Ok(ThreadObject { id, object, created_at, metadata, headers: None })
    }
}

impl Enveloped for ThreadObject {
    open spec fn envelope(&self) -> Option<Map<Seq<char>, Seq<char>>> {
        self.headers.deep_view()
    }

    fn with_headers(self, headers: StringMap) -> (r: ThreadObject)
        ensures
            r == (ThreadObject { headers: Some(headers), ..self }),
    {
        let mut r = self;
        r.headers = Some(headers);
        r
    }
}

} // verus!
