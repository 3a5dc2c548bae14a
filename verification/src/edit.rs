//! Edits: the answers to edit requests. The request itself carries a sampling
//! temperature and is kept by the caller of this library.

use crate::common::Usage;
use crate::error::APIError;
use crate::fields::{
    expect_object, i32_field, int_field, object, read_i32, read_int, read_text, text_field,
};
use crate::json::{Json, JsonValue};
use crate::resource::{list_from, nested_from, read_nested, read_nested_list, Decode, Enveloped};
use crate::string_map::StringMap;
use vstd::prelude::*;

verus! {

/// One edit that the service proposes.
#[derive(Debug)]
pub struct EditChoice {
    /// The edited text.
    pub text: String,
    /// The position of the edit among the choices.
    pub index: i32,
}

impl Decode for EditChoice {
    open spec fn decoded_from(&self, j: JsonValue) -> bool {
        &&& j is Object
        &&& text_field(j, "text"@) == Some(self.text@)
        &&& i32_field(j, "index"@) == Some(self.index as int)
    }

    fn from_json(j: &Json) -> (r: Result<EditChoice, APIError>) {
        expect_object(j, "EditChoice")?;
        let text = read_text(j, "text")?;
        let index = read_i32(j, "index")?;
        Ok(EditChoice { text, index })
    }
}

/// The answer to an edit request.
#[derive(Debug)]
pub struct EditResponse {
    /// The kind of object, `edit`.
    pub object: String,
    /// When the answer was created, in seconds since the epoch.
    pub created: i64,
    /// The tokens that the edit used.
    pub usage: Usage,
    /// The proposed edits.
    pub choices: Vec<EditChoice>,
    /// The headers of the response that carried this object.
    pub headers: Option<StringMap>,
}

impl Decode for EditResponse {
    open spec fn decoded_from(&self, j: JsonValue) -> bool {
        &&& j is Object
        &&& text_field(j, "object"@) == Some(self.object@)
        &&& int_field(j, "created"@) == Some(self.created as int)
        &&& nested_from(self.usage, j, "usage"@)
        &&& list_from(self.choices@, j, "choices"@)
    }

    fn from_json(j: &Json) -> (r: Result<EditResponse, APIError>)
        ensures
            r matches Ok(value) ==> value.headers is None,
    {
        expect_object(j, "EditResponse")?;
        let object = read_text(j, "object")?;
        let created = read_int(j, "created")?;
        let usage = read_nested::<Usage>(j, "usage")?;
        let choices = read_nested_list::<EditChoice>(j, "choices")?;
        Ok(EditResponse { object, created, usage, choices, headers: None })
    }
}

impl Enveloped for EditResponse {
    open spec fn envelope(&self) -> Option<Map<Seq<char>, Seq<char>>> {
        self.headers.deep_view()
    }

    fn with_headers(self, headers: StringMap) -> (r: EditResponse)
        ensures
            r == (EditResponse { headers: Some(headers), ..self }),
    {
        let mut r = self;
        r.headers = Some(headers);
        r
    }
}

} // verus!
