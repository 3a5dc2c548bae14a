//! Assistants: the configured agents that execute runs, and the files attached
//! to them.

use crate::error::APIError;
use crate::fields::{
    bool_field, expect_object, int_field, lemma_map_list_reads_back, lemma_map_reads_back,
    lemma_member_after_write, lemma_no_null_after_write, lemma_text_list_reads_back, map_field,
    map_list_field, no_members, no_null_member, object, opt_map_field, opt_map_json,
    opt_map_list_field, opt_map_list_json, opt_map_list_value, opt_map_value, opt_text_field,
    opt_text_json, opt_text_list_field, opt_text_list_json, opt_text_list_value,
    opt_text_value, put, read_bool, read_int, read_map, read_map_list, read_opt_map,
    read_opt_map_list, read_opt_text, read_opt_text_list, read_text, read_text_list,
    text_field, text_json, text_list_field, with_member,
};
use crate::json::{Json, JsonValue};
use crate::models::Model;
use crate::resource::{
    list_from, nested_from, read_nested, read_nested_list, Decode, Encode, Enveloped, RoundTrip,
};
use crate::string_map::StringMap;
use vstd::prelude::*;
use vstd::string::*;

verus! {

/// The request that creates or changes an assistant.
#[derive(Debug, Clone)]
pub struct AssistantRequest {
    /// The model that the assistant uses.
    pub model: Model,
    /// The name of the assistant.
    pub name: Option<String>,
    /// A description of the assistant.
    pub description: Option<String>,
    /// The system instructions of the assistant.
    pub instructions: Option<String>,
    /// The tools that the assistant may use.
    pub tools: Option<Vec<StringMap>>,
    /// The files that the assistant may read.
    pub file_ids: Option<Vec<String>>,
    /// Free-form metadata.
    pub metadata: Option<StringMap>,
}

impl AssistantRequest {
    /// A request for an assistant on the given model with no option set.
    pub fn new(model: Model) -> (r: AssistantRequest)
        ensures
            r == (AssistantRequest { 
                model,
                name: None,
                description: None,
                instructions: None,
                tools: None,
                file_ids: None,
                metadata: None,
             }),
    {
        AssistantRequest { 
            model,
            name: None,
            description: None,
            instructions: None,
            tools: None,
            file_ids: None,
            metadata: None,
         }
    }

    /// Sets `name`.
    pub fn name(self, name: String) -> (r: AssistantRequest)
        ensures
            r == (AssistantRequest { name: Some(name), ..self }),
    {
        let mut r = self;
        r.name = Some(name);
        r
    }

    /// Sets `description`.
    pub fn description(self, description: String) -> (r: AssistantRequest)
        ensures
            r == (AssistantRequest { description: Some(description), ..self }),
    {
        let mut r = self;
        r.description = Some(description);
        r
    }

    /// Sets `instructions`.
    pub fn instructions(self, instructions: String) -> (r: AssistantRequest)
        ensures
            r == (AssistantRequest { instructions: Some(instructions), ..self }),
    {
        let mut r = self;
        r.instructions = Some(instructions);
        r
    }

    /// Sets `tools`.
    pub fn tools(self, tools: Vec<StringMap>) -> (r: AssistantRequest)
        ensures
            r == (AssistantRequest { tools: Some(tools), ..self }),
    {
        let mut r = self;
        r.tools = Some(tools);
        r
    }

    /// Sets `file_ids`.
    pub fn file_ids(self, file_ids: Vec<String>) -> (r: AssistantRequest)
        ensures
            r == (AssistantRequest { file_ids: Some(file_ids), ..self }),
    {
        let mut r = self;
        r.file_ids = Some(file_ids);
        r
    }

    /// Sets `metadata`.
    pub fn metadata(self, metadata: StringMap) -> (r: AssistantRequest)
        ensures
            r == (AssistantRequest { metadata: Some(metadata), ..self }),
    {
        let mut r = self;
        r.metadata = Some(metadata);
        r
    }
}

impl Encode for AssistantRequest {
    open spec fn encoding(&self) -> JsonValue {
        JsonValue::Object(
            with_member(
                with_member(
                    with_member(
                        with_member(
                            with_member(
                                with_member(
                                    with_member(
                                        Seq::empty(),
                                        "model"@,
                                        Some(self.model.encoding()),
                                    ),
                                    "name"@,
                                    opt_text_value(self.name.deep_view()),
                                ),
                                "description"@,
                                opt_text_value(self.description.deep_view()),
                            ),
                            "instructions"@,
                            opt_text_value(self.instructions.deep_view()),
                        ),
                        "tools"@,
                        opt_map_list_value(self.tools),
                    ),
                    "file_ids"@,
                    opt_text_list_value(self.file_ids.deep_view()),
                ),
                "metadata"@,
                opt_map_value(self.metadata),
            ),
        )
    }

    fn to_json(&self) -> (r: Json) {
        let mut members = no_members();
        put(&mut members, "model", Some(self.model.to_json()));
        put(&mut members, "name", opt_text_json(&self.name));
        put(&mut members, "description", opt_text_json(&self.description));
        put(&mut members, "instructions", opt_text_json(&self.instructions));
        put(&mut members, "tools", opt_map_list_json(&self.tools));
        put(&mut members, "file_ids", opt_text_list_json(&self.file_ids));
        put(&mut members, "metadata", opt_map_json(&self.metadata));
        object(members)
    }
}

impl Decode for AssistantRequest {
    open spec fn decoded_from(&self, j: JsonValue) -> bool {
        &&& j is Object
        &&& nested_from(self.model, j, "model"@)
        &&& opt_text_field(j, "name"@) == Some(self.name.deep_view())
        &&& opt_text_field(j, "description"@) == Some(self.description.deep_view())
        &&& opt_text_field(j, "instructions"@) == Some(self.instructions.deep_view())
        &&& opt_map_list_field(j, "tools"@) == Some(self.tools.deep_view())
        &&& opt_text_list_field(j, "file_ids"@) == Some(self.file_ids.deep_view())
        &&& opt_map_field(j, "metadata"@) == Some(self.metadata.deep_view())
    }

    fn from_json(j: &Json) -> (r: Result<AssistantRequest, APIError>) {
        expect_object(j, "AssistantRequest")?;
        let model = read_nested::<Model>(j, "model")?;
        let name = read_opt_text(j, "name")?;
        let description = read_opt_text(j, "description")?;
        let instructions = read_opt_text(j, "instructions")?;
        let tools = read_opt_map_list(j, "tools")?;
        let file_ids = read_opt_text_list(j, "file_ids")?;
        let metadata = read_opt_map(j, "metadata")?;
        Ok(
            AssistantRequest {
                model,
                name,
                description,
                instructions,
                tools,
                file_ids,
                metadata,
            },
        )
    }
}

impl RoundTrip for AssistantRequest {
    proof fn lemma_round_trip(&self) {
        broadcast use lemma_member_after_write;

        reveal_strlit("model");
        reveal_strlit("name");
        reveal_strlit("description");
        reveal_strlit("instructions");
        reveal_strlit("tools");
        reveal_strlit("file_ids");
        reveal_strlit("metadata");
        assert("model"@.len() == 5);
        assert("name"@.len() == 4);
        assert("description"@.len() == 11);
        assert("instructions"@.len() == 12);
        assert("tools"@.len() == 5);
        assert("file_ids"@.len() == 8);
        assert("metadata"@.len() == 8);
        assert("model"@[0] != "tools"@[0]);
        assert("file_ids"@[0] != "metadata"@[0]);
        self.model.lemma_round_trip();
        if self.tools is Some {
            lemma_map_list_reads_back(self.tools->Some_0@);
        }
        if self.file_ids is Some {
            lemma_text_list_reads_back(self.file_ids->Some_0.deep_view());
        }
        if self.metadata is Some {
            lemma_map_reads_back(self.metadata->Some_0.pairs());
            self.metadata->Some_0.lemma_pairs();
        }
    }
}

impl AssistantRequest {
    /// On the wire a field that is set is a member of the object, a field
    /// that is not set is no member at all, and no member is `null`.
    pub proof fn lemma_unset_fields_are_omitted(&self)
        ensures
            no_null_member(self.encoding()->Object_0),
            self.encoding().member("model"@) is Some,
            self.encoding().member("name"@) is Some <==> self.name is Some,
            self.encoding().member("description"@) is Some <==> self.description is Some,
            self.encoding().member("instructions"@) is Some <==> self.instructions is Some,
            self.encoding().member("tools"@) is Some <==> self.tools is Some,
            self.encoding().member("file_ids"@) is Some <==> self.file_ids is Some,
            self.encoding().member("metadata"@) is Some <==> self.metadata is Some,
    {
        broadcast use {lemma_member_after_write, lemma_no_null_after_write};

        reveal_strlit("model");
        reveal_strlit("name");
        reveal_strlit("description");
        reveal_strlit("instructions");
        reveal_strlit("tools");
        reveal_strlit("file_ids");
        reveal_strlit("metadata");
        assert("model"@.len() == 5);
        assert("name"@.len() == 4);
        assert("description"@.len() == 11);
        assert("instructions"@.len() == 12);
        assert("tools"@.len() == 5);
        assert("file_ids"@.len() == 8);
        assert("metadata"@.len() == 8);
        assert("model"@[0] != "tools"@[0]);
        assert("file_ids"@[0] != "metadata"@[0]);
        self.model.lemma_round_trip();
    }
}

/// An assistant, as the service describes it.
#[derive(Debug)]
pub struct AssistantObject {
    /// The identifier that the service gave the assistant.
    pub id: String,
    /// The kind of object, `assistant`.
    pub object: String,
    /// When the assistant was created, in seconds since the epoch.
    pub created_at: i64,
    /// The name of the assistant.
    pub name: Option<String>,
    /// A description of the assistant.
    pub description: Option<String>,
    /// The model that the assistant uses.
    pub model: Model,
    /// The system instructions of the assistant.
    pub instructions: Option<String>,
    /// The tools that the assistant may use.
    pub tools: Vec<StringMap>,
    /// The files that the assistant may read.
    pub file_ids: Vec<String>,
    /// Free-form metadata.
    pub metadata: StringMap,
    /// The headers of the response that carried this object.
    pub headers: Option<StringMap>,
}

impl Decode for AssistantObject {
    open spec fn decoded_from(&self, j: JsonValue) -> bool {
        &&& j is Object
        &&& text_field(j, "id"@) == Some(self.id@)
        &&& text_field(j, "object"@) == Some(self.object@)
        &&& int_field(j, "created_at"@) == Some(self.created_at as int)
        &&& opt_text_field(j, "name"@) == Some(self.name.deep_view())
        &&& opt_text_field(j, "description"@) == Some(self.description.deep_view())
        &&& nested_from(self.model, j, "model"@)
        &&& opt_text_field(j, "instructions"@) == Some(self.instructions.deep_view())
        &&& map_list_field(j, "tools"@) == Some(self.tools.deep_view())
        &&& text_list_field(j, "file_ids"@) == Some(self.file_ids.deep_view())
        &&& map_field(j, "metadata"@) == Some(self.metadata@)
    }

    fn from_json(j: &Json) -> (r: Result<AssistantObject, APIError>)
        ensures
            r matches Ok(value) ==> value.headers is None,
    {
        expect_object(j, "AssistantObject")?;
        let id = read_text(j, "id")?;
        let object = read_text(j, "object")?;
        let created_at = read_int(j, "created_at")?;
        let name = read_opt_text(j, "name")?;
        let description = read_opt_text(j, "description")?;
        let model = read_nested::<Model>(j, "model")?;
        let instructions = read_opt_text(j, "instructions")?;
        let tools = read_map_list(j, "tools")?;
        let file_ids = read_text_list(j, "file_ids")?;
        let metadata = read_map(j, "metadata")?;
        Ok(
            AssistantObject {
                id,
                object,
                created_at,
                name,
                description,
                model,
                instructions,
                tools,
                file_ids,
                metadata,
                headers: None,
            },
        )
    }
}

impl Enveloped for AssistantObject {
    open spec fn envelope(&self) -> Option<Map<Seq<char>, Seq<char>>> {
        self.headers.deep_view()
    }

    fn with_headers(self, headers: StringMap) -> (r: AssistantObject)
        ensures
            r == (AssistantObject { headers: Some(headers), ..self }),
    {
        let mut r = self;
        r.headers = Some(headers);
        r
    }
}

/// The answer to a deletion.
#[derive(Debug)]
pub struct DeletionStatus {
    /// The identifier of the object.
    pub id: String,
    /// The kind of object.
    pub object: String,
    /// Whether the object was deleted.
    pub deleted: bool,
    /// The headers of the response that carried this object.
    pub headers: Option<StringMap>,
}

impl Decode for DeletionStatus {
    open spec fn decoded_from(&self, j: JsonValue) -> bool {
        &&& j is Object
        &&& text_field(j, "id"@) == Some(self.id@)
        &&& text_field(j, "object"@) == Some(self.object@)
        &&& bool_field(j, "deleted"@) == Some(self.deleted)
    }

    fn from_json(j: &Json) -> (r: Result<DeletionStatus, APIError>)
        ensures
            r matches Ok(value) ==> value.headers is None,
    {
        expect_object(j, "DeletionStatus")?;
        let id = read_text(j, "id")?;
        let object = read_text(j, "object")?;
        let deleted = read_bool(j, "deleted")?;
        Ok(DeletionStatus { id, object, deleted, headers: None })
    }
}

impl Enveloped for DeletionStatus {
    open spec fn envelope(&self) -> Option<Map<Seq<char>, Seq<char>>> {
        self.headers.deep_view()
    }

    fn with_headers(self, headers: StringMap) -> (r: DeletionStatus)
        ensures
            r == (DeletionStatus { headers: Some(headers), ..self }),
    {
        let mut r = self;
        r.headers = Some(headers);
        r
    }
}

/// A list of assistants.
#[derive(Debug)]
pub struct ListAssistant {
    /// The kind of object, `list`.
    pub object: String,
    /// The assistants.
    pub data: Vec<AssistantObject>,
    /// The headers of the response that carried this object.
    pub headers: Option<StringMap>,
}

impl Decode for ListAssistant {
    open spec fn decoded_from(&self, j: JsonValue) -> bool {
        &&& j is Object
        &&& text_field(j, "object"@) == Some(self.object@)
        &&& list_from(self.data@, j, "data"@)
    }

    fn from_json(j: &Json) -> (r: Result<ListAssistant, APIError>)
        ensures
            r matches Ok(value) ==> value.headers is None,
    {
        expect_object(j, "ListAssistant")?;
        let object = read_text(j, "object")?;
        let data = read_nested_list::<AssistantObject>(j, "data")?;
        Ok(ListAssistant { object, data, headers: None })
    }
}

impl Enveloped for ListAssistant {
    open spec fn envelope(&self) -> Option<Map<Seq<char>, Seq<char>>> {
        self.headers.deep_view()
    }

    fn with_headers(self, headers: StringMap) -> (r: ListAssistant)
        ensures
            r == (ListAssistant { headers: Some(headers), ..self }),
    {
        let mut r = self;
        r.headers = Some(headers);
        r
    }
}

/// The request that attaches a file to an assistant.
#[derive(Debug, Clone)]
pub struct AssistantFileRequest {
    /// The identifier of the file.
    pub file_id: String,
}

impl Encode for AssistantFileRequest {
    open spec fn encoding(&self) -> JsonValue {
        JsonValue::Object(
            with_member(
                Seq::empty(),
                "file_id"@,
                Some(JsonValue::Text(self.file_id@)),
            ),
        )
    }

    fn to_json(&self) -> (r: Json) {
        let mut members = no_members();
        put(&mut members, "file_id", text_json(&self.file_id));
        object(members)
    }
}

impl Decode for AssistantFileRequest {
    open spec fn decoded_from(&self, j: JsonValue) -> bool {
        &&& j is Object
        &&& text_field(j, "file_id"@) == Some(self.file_id@)
    }

    fn from_json(j: &Json) -> (r: Result<AssistantFileRequest, APIError>) {
        expect_object(j, "AssistantFileRequest")?;
        let file_id = read_text(j, "file_id")?;
        Ok(AssistantFileRequest { file_id })
    }
}

impl RoundTrip for AssistantFileRequest {
    proof fn lemma_round_trip(&self) {
        broadcast use lemma_member_after_write;

        reveal_strlit("file_id");
        assert("file_id"@.len() == 7);
    }
}

impl AssistantFileRequest {
    /// On the wire a field that is set is a member of the object, a field
    /// that is not set is no member at all, and no member is `null`.
    pub proof fn lemma_unset_fields_are_omitted(&self)
        ensures
            no_null_member(self.encoding()->Object_0),
            self.encoding().member("file_id"@) is Some,
    {
        broadcast use {lemma_member_after_write, lemma_no_null_after_write};

        reveal_strlit("file_id");
        assert("file_id"@.len() == 7);
    }
}

/// A file of an assistant, as the service describes it.
#[derive(Debug)]
pub struct AssistantFileObject {
    /// The identifier of the file.
    pub id: String,
    /// The kind of object, `assistant.file`.
    pub object: String,
    /// When the file was attached, in seconds since the epoch.
    pub created_at: i64,
    /// The assistant that the file belongs to.
    pub assistant_id: String,
    /// The headers of the response that carried this object.
    pub headers: Option<StringMap>,
}

impl Decode for AssistantFileObject {
    open spec fn decoded_from(&self, j: JsonValue) -> bool {
        &&& j is Object
        &&& text_field(j, "id"@) == Some(self.id@)
        &&& text_field(j, "object"@) == Some(self.object@)
        &&& int_field(j, "created_at"@) == Some(self.created_at as int)
        &&& text_field(j, "assistant_id"@) == Some(self.assistant_id@)
    }

    fn from_json(j: &Json) -> (r: Result<AssistantFileObject, APIError>)
        ensures
            r matches Ok(value) ==> value.headers is None,
    {
        expect_object(j, "AssistantFileObject")?;
        let id = read_text(j, "id")?;
        let object = read_text(j, "object")?;
        let created_at = read_int(j, "created_at")?;
        let assistant_id = read_text(j, "assistant_id")?;
        Ok(AssistantFileObject { id, object, created_at, assistant_id, headers: None })
    }
}

impl Enveloped for AssistantFileObject {
    open spec fn envelope(&self) -> Option<Map<Seq<char>, Seq<char>>> {
        self.headers.deep_view()
    }

    fn with_headers(self, headers: StringMap) -> (r: AssistantFileObject)
        ensures
            r == (AssistantFileObject { headers: Some(headers), ..self }),
    {
        let mut r = self;
        r.headers = Some(headers);
        r
    }
}

/// A list of the files of an assistant.
#[derive(Debug)]
pub struct ListAssistantFile {
    /// The kind of object, `list`.
    pub object: String,
    /// The files.
    pub data: Vec<AssistantFileObject>,
    /// The headers of the response that carried this object.
    pub headers: Option<StringMap>,
}

impl Decode for ListAssistantFile {
    open spec fn decoded_from(&self, j: JsonValue) -> bool {
        &&& j is Object
        &&& text_field(j, "object"@) == Some(self.object@)
        &&& list_from(self.data@, j, "data"@)
    }

    fn from_json(j: &Json) -> (r: Result<ListAssistantFile, APIError>)
        ensures
            r matches Ok(value) ==> value.headers is None,
    {
        expect_object(j, "ListAssistantFile")?;
        let object = read_text(j, "object")?;
        let data = read_nested_list::<AssistantFileObject>(j, "data")?;
        Ok(ListAssistantFile { object, data, headers: None })
    }
}

impl Enveloped for ListAssistantFile {
    open spec fn envelope(&self) -> Option<Map<Seq<char>, Seq<char>>> {
        self.headers.deep_view()
    }

    fn with_headers(self, headers: StringMap) -> (r: ListAssistantFile)
        ensures
            r == (ListAssistantFile { headers: Some(headers), ..self }),
    {
        let mut r = self;
        r.headers = Some(headers);
        r
    }
}

} // verus!
