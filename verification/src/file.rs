//! Files: uploading, listing, retrieving and deleting them.

use crate::error::APIError;
use crate::fields::{
    bool_field, expect_object, i32_field, int_field, lemma_member_after_write,
    lemma_no_null_after_write, no_members, no_null_member, object, put, read_bool, read_i32,
    read_int, read_text, text_field, text_json, with_member,
};
use crate::json::{Json, JsonValue};
use crate::resource::{list_from, read_nested_list, Decode, Encode, Enveloped, RoundTrip};
use crate::string_map::StringMap;
use vstd::prelude::*;
use vstd::string::*;

verus! {

/// A file, as a list of files describes it.
#[derive(Debug)]
pub struct FileData {
    /// The identifier of the file.
    pub id: String,
    /// The kind of object, `file`.
    pub object: String,
    /// The size of the file in bytes.
    pub bytes: i32,
    /// When the file was created, in seconds since the epoch.
    pub created_at: i64,
    /// The name of the file.
    pub filename: String,
    /// What the file is for.
    pub purpose: String,
}

impl Decode for FileData {
    open spec fn decoded_from(&self, j: JsonValue) -> bool {
        &&& j is Object
        &&& text_field(j, "id"@) == Some(self.id@)
        &&& text_field(j, "object"@) == Some(self.object@)
        &&& i32_field(j, "bytes"@) == Some(self.bytes as int)
        &&& int_field(j, "created_at"@) == Some(self.created_at as int)
        &&& text_field(j, "filename"@) == Some(self.filename@)
        &&& text_field(j, "purpose"@) == Some(self.purpose@)
    }

    fn from_json(j: &Json) -> (r: Result<FileData, APIError>) {
        expect_object(j, "FileData")?;
        let id = read_text(j, "id")?;
        let object = read_text(j, "object")?;
        let bytes = read_i32(j, "bytes")?;
        let created_at = read_int(j, "created_at")?;
        let filename = read_text(j, "filename")?;
        let purpose = read_text(j, "purpose")?;
        Ok(FileData { id, object, bytes, created_at, filename, purpose })
    }
}

/// The answer to a listing of files.
#[derive(Debug)]
pub struct FileListResponse {
    /// The kind of object, `list`.
    pub object: String,
    /// The files.
    pub data: Vec<FileData>,
    /// The headers of the response that carried this object.
    pub headers: Option<StringMap>,
}

impl Decode for FileListResponse {
    open spec fn decoded_from(&self, j: JsonValue) -> bool {
        &&& j is Object
        &&& text_field(j, "object"@) == Some(self.object@)
        &&& list_from(self.data@, j, "data"@)
    }

    fn from_json(j: &Json) -> (r: Result<FileListResponse, APIError>)
        ensures
            r matches Ok(value) ==> value.headers is None,
    {
        expect_object(j, "FileListResponse")?;
        let object = read_text(j, "object")?;
        let data = read_nested_list::<FileData>(j, "data")?;
        Ok(FileListResponse { object, data, headers: None })
    }
}

impl Enveloped for FileListResponse {
    open spec fn envelope(&self) -> Option<Map<Seq<char>, Seq<char>>> {
        self.headers.deep_view()
    }

    fn with_headers(self, headers: StringMap) -> (r: FileListResponse)
        ensures
            r == (FileListResponse { headers: Some(headers), ..self }),
    {
        let mut r = self;
        r.headers = Some(headers);
        r
    }
}

/// The request that uploads a file.
#[derive(Debug)]
pub struct FileUploadRequest {
    /// The path of the file.
    pub file: String,
    /// What the file is for.
    pub purpose: String,
}

impl FileUploadRequest {
    /// A request to upload `file` for `purpose`.
    pub fn new(file: String, purpose: String) -> (r: FileUploadRequest)
        ensures
            r == (FileUploadRequest { file, purpose }),
    {
        FileUploadRequest { file, purpose }
    }
}

impl Encode for FileUploadRequest {
    open spec fn encoding(&self) -> JsonValue {
        JsonValue::Object(
            with_member(
                with_member(
                    Seq::empty(),
                    "file"@,
                    Some(JsonValue::Text(self.file@)),
                ),
                "purpose"@,
                Some(JsonValue::Text(self.purpose@)),
            ),
        )
    }

    fn to_json(&self) -> (r: Json) {
        let mut members = no_members();
        put(&mut members, "file", text_json(&self.file));
        put(&mut members, "purpose", text_json(&self.purpose));
        object(members)
    }
}

impl Decode for FileUploadRequest {
    open spec fn decoded_from(&self, j: JsonValue) -> bool {
        &&& j is Object
        &&& text_field(j, "file"@) == Some(self.file@)
        &&& text_field(j, "purpose"@) == Some(self.purpose@)
    }

    fn from_json(j: &Json) -> (r: Result<FileUploadRequest, APIError>) {
        expect_object(j, "FileUploadRequest")?;
        let file = read_text(j, "file")?;
        let purpose = read_text(j, "purpose")?;
        Ok(FileUploadRequest { file, purpose })
    }
}

impl RoundTrip for FileUploadRequest {
    proof fn lemma_round_trip(&self) {
        broadcast use lemma_member_after_write;

        reveal_strlit("file");
        reveal_strlit("purpose");
        assert("file"@.len() == 4);
        assert("purpose"@.len() == 7);
    }
}

impl FileUploadRequest {
    /// On the wire a field that is set is a member of the object, a field
    /// that is not set is no member at all, and no member is `null`.
    pub proof fn lemma_unset_fields_are_omitted(&self)
        ensures
            no_null_member(self.encoding()->Object_0),
            self.encoding().member("file"@) is Some,
            self.encoding().member("purpose"@) is Some,
    {
        broadcast use {lemma_member_after_write, lemma_no_null_after_write};

        reveal_strlit("file");
        reveal_strlit("purpose");
        assert("file"@.len() == 4);
        assert("purpose"@.len() == 7);
    }
}

/// The answer to an upload.
#[derive(Debug)]
pub struct FileUploadResponse {
    /// The identifier of the file.
    pub id: String,
    /// The kind of object, `file`.
    pub object: String,
    /// The size of the file in bytes.
    pub bytes: i32,
    /// When the file was created, in seconds since the epoch.
    pub created_at: i64,
    /// The name of the file.
    pub filename: String,
    /// What the file is for.
    pub purpose: String,
    /// The headers of the response that carried this object.
    pub headers: Option<StringMap>,
}

impl Decode for FileUploadResponse {
    open spec fn decoded_from(&self, j: JsonValue) -> bool {
        &&& j is Object
        &&& text_field(j, "id"@) == Some(self.id@)
        &&& text_field(j, "object"@) == Some(self.object@)
        &&& i32_field(j, "bytes"@) == Some(self.bytes as int)
        &&& int_field(j, "created_at"@) == Some(self.created_at as int)
        &&& text_field(j, "filename"@) == Some(self.filename@)
        &&& text_field(j, "purpose"@) == Some(self.purpose@)
    }

    fn from_json(j: &Json) -> (r: Result<FileUploadResponse, APIError>)
        ensures
            r matches Ok(value) ==> value.headers is None,
    {
        expect_object(j, "FileUploadResponse")?;
        let id = read_text(j, "id")?;
        let object = read_text(j, "object")?;
        let bytes = read_i32(j, "bytes")?;
        let created_at = read_int(j, "created_at")?;
        let filename = read_text(j, "filename")?;
        let purpose = read_text(j, "purpose")?;
        Ok(
            FileUploadResponse {
                id,
                object,
                bytes,
                created_at,
                filename,
                purpose,
                headers: None,
            },
        )
    }
}

impl Enveloped for FileUploadResponse {
    open spec fn envelope(&self) -> Option<Map<Seq<char>, Seq<char>>> {
        self.headers.deep_view()
    }

    fn with_headers(self, headers: StringMap) -> (r: FileUploadResponse)
        ensures
            r == (FileUploadResponse { headers: Some(headers), ..self }),
    {
        let mut r = self;
        r.headers = Some(headers);
        r
    }
}

/// The request that deletes a file.
#[derive(Debug)]
pub struct FileDeleteRequest {
    /// The identifier of the file.
    pub file_id: String,
}

impl FileDeleteRequest {
    /// A request to delete the file `file_id`.
    pub fn new(file_id: String) -> (r: FileDeleteRequest)
        ensures
            r == (FileDeleteRequest { file_id }),
    {
        FileDeleteRequest { file_id }
    }
}

impl Encode for FileDeleteRequest {
    open spec fn encoding(&self) -> JsonValue {
        JsonValue::Object(
            with_member(
                Seq::empty(),
                "file_id"@,
                Some(JsonValue::Text(self.file_id@)),
            ),
        )
    }

    fn to_json(&self) -> (r: Json) {
        let mut members = no_members();
        put(&mut members, "file_id", text_json(&self.file_id));
        object(members)
    }
}

impl Decode for FileDeleteRequest {
    open spec fn decoded_from(&self, j: JsonValue) -> bool {
        &&& j is Object
        &&& text_field(j, "file_id"@) == Some(self.file_id@)
    }

    fn from_json(j: &Json) -> (r: Result<FileDeleteRequest, APIError>) {
        expect_object(j, "FileDeleteRequest")?;
        let file_id = read_text(j, "file_id")?;
        Ok(FileDeleteRequest { file_id })
    }
}

impl RoundTrip for FileDeleteRequest {
    proof fn lemma_round_trip(&self) {
        broadcast use lemma_member_after_write;

        reveal_strlit("file_id");
        assert("file_id"@.len() == 7);
    }
}

impl FileDeleteRequest {
    /// On the wire a field that is set is a member of the object, a field
    /// that is not set is no member at all, and no member is `null`.
    pub proof fn lemma_unset_fields_are_omitted(&self)
        ensures
            no_null_member(self.encoding()->Object_0),
            self.encoding().member("file_id"@) is Some,
    {
        broadcast use {lemma_member_after_write, lemma_no_null_after_write};

        reveal_strlit("file_id");
        assert("file_id"@.len() == 7);
    }
}

/// The answer to a deletion of a file.
#[derive(Debug)]
pub struct FileDeleteResponse {
    /// The identifier of the file.
    pub id: String,
    /// The kind of object, `file`.
    pub object: String,
    /// Whether the file was deleted.
    pub delete: bool,
    /// The headers of the response that carried this object.
    pub headers: Option<StringMap>,
}

impl Decode for FileDeleteResponse {
    open spec fn decoded_from(&self, j: JsonValue) -> bool {
        &&& j is Object
        &&& text_field(j, "id"@) == Some(self.id@)
        &&& text_field(j, "object"@) == Some(self.object@)
        &&& bool_field(j, "delete"@) == Some(self.delete)
    }

    fn from_json(j: &Json) -> (r: Result<FileDeleteResponse, APIError>)
        ensures
            r matches Ok(value) ==> value.headers is None,
    {
        expect_object(j, "FileDeleteResponse")?;
        let id = read_text(j, "id")?;
        let object = read_text(j, "object")?;
        let delete = read_bool(j, "delete")?;
        Ok(FileDeleteResponse { id, object, delete, headers: None })
    }
}

impl Enveloped for FileDeleteResponse {
    open spec fn envelope(&self) -> Option<Map<Seq<char>, Seq<char>>> {
        self.headers.deep_view()
    }

    fn with_headers(self, headers: StringMap) -> (r: FileDeleteResponse)
        ensures
            r == (FileDeleteResponse { headers: Some(headers), ..self }),
    {
        let mut r = self;
        r.headers = Some(headers);
        r
    }
}

/// The request that retrieves the description of a file.
#[derive(Debug)]
pub struct FileRetrieveRequest {
    /// The identifier of the file.
    pub file_id: String,
}

impl FileRetrieveRequest {
    /// A request for the description of the file `file_id`.
    pub fn new(file_id: String) -> (r: FileRetrieveRequest)
        ensures
            r == (FileRetrieveRequest { file_id }),
    {
        FileRetrieveRequest { file_id }
    }
}

impl Encode for FileRetrieveRequest {
    open spec fn encoding(&self) -> JsonValue {
        JsonValue::Object(
            with_member(
                Seq::empty(),
                "file_id"@,
                Some(JsonValue::Text(self.file_id@)),
            ),
        )
    }

    fn to_json(&self) -> (r: Json) {
        let mut members = no_members();
        put(&mut members, "file_id", text_json(&self.file_id));
        object(members)
    }
}

impl Decode for FileRetrieveRequest {
    open spec fn decoded_from(&self, j: JsonValue) -> bool {
        &&& j is Object
        &&& text_field(j, "file_id"@) == Some(self.file_id@)
    }

    fn from_json(j: &Json) -> (r: Result<FileRetrieveRequest, APIError>) {
        expect_object(j, "FileRetrieveRequest")?;
        let file_id = read_text(j, "file_id")?;
        Ok(FileRetrieveRequest { file_id })
    }
}

impl RoundTrip for FileRetrieveRequest {
    proof fn lemma_round_trip(&self) {
        broadcast use lemma_member_after_write;

        reveal_strlit("file_id");
        assert("file_id"@.len() == 7);
    }
}

impl FileRetrieveRequest {
    /// On the wire a field that is set is a member of the object, a field
    /// that is not set is no member at all, and no member is `null`.
    pub proof fn lemma_unset_fields_are_omitted(&self)
        ensures
            no_null_member(self.encoding()->Object_0),
            self.encoding().member("file_id"@) is Some,
    {
        broadcast use {lemma_member_after_write, lemma_no_null_after_write};

        reveal_strlit("file_id");
        assert("file_id"@.len() == 7);
    }
}

/// The description of a file.
#[derive(Debug)]
pub struct FileRetrieveResponse {
    /// The identifier of the file.
    pub id: String,
    /// The kind of object, `file`.
    pub object: String,
    /// The size of the file in bytes.
    pub bytes: i32,
    /// When the file was created, in seconds since the epoch.
    pub created_at: i64,
    /// The name of the file.
    pub filename: String,
    /// What the file is for.
    pub purpose: String,
    /// The headers of the response that carried this object.
    pub headers: Option<StringMap>,
}

impl Decode for FileRetrieveResponse {
    open spec fn decoded_from(&self, j: JsonValue) -> bool {
        &&& j is Object
        &&& text_field(j, "id"@) == Some(self.id@)
        &&& text_field(j, "object"@) == Some(self.object@)
        &&& i32_field(j, "bytes"@) == Some(self.bytes as int)
        &&& int_field(j, "created_at"@) == Some(self.created_at as int)
        &&& text_field(j, "filename"@) == Some(self.filename@)
        &&& text_field(j, "purpose"@) == Some(self.purpose@)
    }

    fn from_json(j: &Json) -> (r: Result<FileRetrieveResponse, APIError>)
        ensures
            r matches Ok(value) ==> value.headers is None,
    {
        expect_object(j, "FileRetrieveResponse")?;
        let id = read_text(j, "id")?;
        let object = read_text(j, "object")?;
        let bytes = read_i32(j, "bytes")?;
        let created_at = read_int(j, "created_at")?;
        let filename = read_text(j, "filename")?;
        let purpose = read_text(j, "purpose")?;
        Ok(
            FileRetrieveResponse {
                id,
                object,
                bytes,
                created_at,
                filename,
                purpose,
                headers: None,
            },
        )
    }
}

impl Enveloped for FileRetrieveResponse {
    open spec fn envelope(&self) -> Option<Map<Seq<char>, Seq<char>>> {
        self.headers.deep_view()
    }

    fn with_headers(self, headers: StringMap) -> (r: FileRetrieveResponse)
        ensures
            r == (FileRetrieveResponse { headers: Some(headers), ..self }),
    {
        let mut r = self;
        r.headers = Some(headers);
        r
    }
}

/// The request that retrieves the content of a file.
#[derive(Debug)]
pub struct FileRetrieveContentRequest {
    /// The identifier of the file.
    pub file_id: String,
}

impl FileRetrieveContentRequest {
    /// A request for the content of the file `file_id`.
    pub fn new(file_id: String) -> (r: FileRetrieveContentRequest)
        ensures
            r == (FileRetrieveContentRequest { file_id }),
    {
        FileRetrieveContentRequest { file_id }
    }
}

impl Encode for FileRetrieveContentRequest {
    open spec fn encoding(&self) -> JsonValue {
        JsonValue::Object(
            with_member(
                Seq::empty(),
                "file_id"@,
                Some(JsonValue::Text(self.file_id@)),
            ),
        )
    }

    fn to_json(&self) -> (r: Json) {
        let mut members = no_members();
        put(&mut members, "file_id", text_json(&self.file_id));
        object(members)
    }
}

impl Decode for FileRetrieveContentRequest {
    open spec fn decoded_from(&self, j: JsonValue) -> bool {
        &&& j is Object
        &&& text_field(j, "file_id"@) == Some(self.file_id@)
    }

    fn from_json(j: &Json) -> (r: Result<FileRetrieveContentRequest, APIError>) {
        expect_object(j, "FileRetrieveContentRequest")?;
        let file_id = read_text(j, "file_id")?;
        Ok(FileRetrieveContentRequest { file_id })
    }
}

impl RoundTrip for FileRetrieveContentRequest {
    proof fn lemma_round_trip(&self) {
        broadcast use lemma_member_after_write;

        reveal_strlit("file_id");
        assert("file_id"@.len() == 7);
    }
}

impl FileRetrieveContentRequest {
    /// On the wire a field that is set is a member of the object, a field
    /// that is not set is no member at all, and no member is `null`.
    pub proof fn lemma_unset_fields_are_omitted(&self)
        ensures
            no_null_member(self.encoding()->Object_0),
            self.encoding().member("file_id"@) is Some,
    {
        broadcast use {lemma_member_after_write, lemma_no_null_after_write};

        reveal_strlit("file_id");
        assert("file_id"@.len() == 7);
    }
}

/// The answer to a request for the content of a file.
#[derive(Debug)]
pub struct FileRetrieveContentResponse {
    /// The identifier of the file.
    pub id: String,
    /// The kind of object, `file`.
    pub object: String,
    /// The size of the file in bytes.
    pub bytes: i32,
    /// When the file was created, in seconds since the epoch.
    pub created_at: i64,
    /// The name of the file.
    pub filename: String,
    /// What the file is for.
    pub purpose: String,
    /// The headers of the response that carried this object.
    pub headers: Option<StringMap>,
}

impl Decode for FileRetrieveContentResponse {
    open spec fn decoded_from(&self, j: JsonValue) -> bool {
        &&& j is Object
        &&& text_field(j, "id"@) == Some(self.id@)
        &&& text_field(j, "object"@) == Some(self.object@)
        &&& i32_field(j, "bytes"@) == Some(self.bytes as int)
        &&& int_field(j, "created_at"@) == Some(self.created_at as int)
        &&& text_field(j, "filename"@) == Some(self.filename@)
        &&& text_field(j, "purpose"@) == Some(self.purpose@)
    }

    fn from_json(j: &Json) -> (r: Result<FileRetrieveContentResponse, APIError>)
        ensures
            r matches Ok(value) ==> value.headers is None,
    {
        expect_object(j, "FileRetrieveContentResponse")?;
        let id = read_text(j, "id")?;
        let object = read_text(j, "object")?;
        let bytes = read_i32(j, "bytes")?;
        let created_at = read_int(j, "created_at")?;
        let filename = read_text(j, "filename")?;
        let purpose = read_text(j, "purpose")?;
        Ok(
            FileRetrieveContentResponse {
                id,
                object,
                bytes,
                created_at,
                filename,
                purpose,
                headers: None,
            },
        )
    }
}

impl Enveloped for FileRetrieveContentResponse {
    open spec fn envelope(&self) -> Option<Map<Seq<char>, Seq<char>>> {
        self.headers.deep_view()
    }

    fn with_headers(self, headers: StringMap) -> (r: FileRetrieveContentResponse)
        ensures
            r == (FileRetrieveContentResponse { headers: Some(headers), ..self }),
    {
        let mut r = self;
        r.headers = Some(headers);
        r
    }
}

} // verus!
