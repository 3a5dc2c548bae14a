//! Chat completions: the messages, tools and answers of a chat. The request
//! itself carries sampling temperatures and is kept by the caller of this
//! library; its parts are here.

use crate::common::{MessageRole, Usage};
use crate::error::APIError;
use crate::fields::{
    expect_object, int_field, lemma_member_after_write, lemma_no_null_after_write, no_members,
    no_null_member, object, opt_text_field, opt_text_json, opt_text_list_json,
    opt_text_list_value, opt_text_value, put, read_int, read_opt_text, read_text, text_field,
    text_json, with_member,
};
use crate::json::{bad_value, member_views, Json, JsonValue};
use crate::resource::{
    encodings, list_from, list_json, nested_from, opt_json, opt_list_from, opt_nested_from,
    opt_value, read_nested, read_nested_list, read_opt_nested, read_opt_nested_list, Decode,
    Encode, Enveloped, RoundTrip,
};
use crate::string_map::StringMap;
use crate::text::{copy_opt_text, copy_opt_texts, same_text};
use vstd::prelude::*;
use vstd::string::*;

verus! {

/// The kinds of tool. There is one.
#[derive(Debug, Clone, Copy, PartialEq, Eq, Structural)]
pub enum ToolType {
    /// A function that the model may call.
    Function,
}

impl ToolType {
    /// The name of a kind of tool.
    pub open spec fn name(self) -> Seq<char> {
        match self {
            ToolType::Function => "function"@,
        }
    }

    /// The kind of tool with the given name, if there is one.
    pub open spec fn named(text: Seq<char>) -> Option<ToolType> {
        if text == "function"@ {
            Some(ToolType::Function)
        } else {
            None
        }
    }

    /// The name of this kind of tool.
    pub fn as_str(&self) -> (r: &'static str)
        ensures
            r@ == self.name(),
    {
        match self {
            ToolType::Function => "function",
        }
    }

    /// The name of this kind of tool as an owned string.
    pub fn to_string(&self) -> (r: String)
        ensures
            r@ == self.name(),
    {
        String::from_str(self.as_str())
    }

    /// The kind of tool with the given name; `None` for any other text.
    pub fn from_str(text: &str) -> (r: Option<ToolType>)
        ensures
            r == ToolType::named(text@),
    {
        if same_text(text, "function") {
            Some(ToolType::Function)
        } else {
            None
        }
    }
}

impl Encode for ToolType {
    open spec fn encoding(&self) -> JsonValue {
        JsonValue::Text(self.name())
    }

    fn to_json(&self) -> (r: Json) {
        Json::text(self.as_str())
    }
}

impl Decode for ToolType {
    open spec fn decoded_from(&self, j: JsonValue) -> bool {
        j.as_text() is Some && ToolType::named(j.as_text()->Some_0) == Some(*self)
    }

    fn from_json(j: &Json) -> (r: Result<ToolType, APIError>) {
        match j.as_text() {
            Some(text) => match ToolType::from_str(text.as_str()) {
                Some(value) => Ok(value),
                None => Err(bad_value("ToolType")),
            },
            None => Err(bad_value("ToolType")),
        }
    }
}

impl RoundTrip for ToolType {
    proof fn lemma_round_trip(&self) {
        reveal_strlit("function");
        assert("function"@.len() == 8);
    }
}

/// The types of JSON Schema.
#[derive(Debug, Clone, Copy, PartialEq, Eq, Structural)]
pub enum JSONSchemaType {
    /// An object.
    Object,
    /// A number.
    Number,
    /// A string.
    String,
    /// An array.
    Array,
    /// Null.
    Null,
    /// A truth value.
    Boolean,
}

impl JSONSchemaType {
    /// The name of a type.
    pub open spec fn name(self) -> Seq<char> {
        match self {
            JSONSchemaType::Object => "object"@,
            JSONSchemaType::Number => "number"@,
            JSONSchemaType::String => "string"@,
            JSONSchemaType::Array => "array"@,
            JSONSchemaType::Null => "null"@,
            JSONSchemaType::Boolean => "boolean"@,
        }
    }

    /// The type with the given name, if there is one.
    pub open spec fn named(text: Seq<char>) -> Option<JSONSchemaType> {
        if text == "object"@ {
            Some(JSONSchemaType::Object)
        }         else if text == "number"@ {
            Some(JSONSchemaType::Number)
        }         else if text == "string"@ {
            Some(JSONSchemaType::String)
        }         else if text == "array"@ {
            Some(JSONSchemaType::Array)
        }         else if text == "null"@ {
            Some(JSONSchemaType::Null)
        }         else if text == "boolean"@ {
            Some(JSONSchemaType::Boolean)
        } else {
            None
        }
    }

    /// The name of this type.
    pub fn as_str(&self) -> (r: &'static str)
        ensures
            r@ == self.name(),
    {
        match self {
            JSONSchemaType::Object => "object",
            JSONSchemaType::Number => "number",
            JSONSchemaType::String => "string",
            JSONSchemaType::Array => "array",
            JSONSchemaType::Null => "null",
            JSONSchemaType::Boolean => "boolean",
        }
    }

    /// The name of this type as an owned string.
    pub fn to_string(&self) -> (r: String)
        ensures
            r@ == self.name(),
    {
        String::from_str(self.as_str())
    }

    /// The type with the given name; `None` for any other text.
    pub fn from_str(text: &str) -> (r: Option<JSONSchemaType>)
        ensures
            r == JSONSchemaType::named(text@),
    {
        if same_text(text, "object") {
            Some(JSONSchemaType::Object)
        }         else if same_text(text, "number") {
            Some(JSONSchemaType::Number)
        }         else if same_text(text, "string") {
            Some(JSONSchemaType::String)
        }         else if same_text(text, "array") {
            Some(JSONSchemaType::Array)
        }         else if same_text(text, "null") {
            Some(JSONSchemaType::Null)
        }         else if same_text(text, "boolean") {
            Some(JSONSchemaType::Boolean)
        } else {
            None
        }
    }
}

impl Encode for JSONSchemaType {
    open spec fn encoding(&self) -> JsonValue {
        JsonValue::Text(self.name())
    }

    fn to_json(&self) -> (r: Json) {
        Json::text(self.as_str())
    }
}

impl Decode for JSONSchemaType {
    open spec fn decoded_from(&self, j: JsonValue) -> bool {
        j.as_text() is Some && JSONSchemaType::named(j.as_text()->Some_0) == Some(*self)
    }

    fn from_json(j: &Json) -> (r: Result<JSONSchemaType, APIError>) {
        match j.as_text() {
            Some(text) => match JSONSchemaType::from_str(text.as_str()) {
                Some(value) => Ok(value),
                None => Err(bad_value("JSONSchemaType")),
            },
            None => Err(bad_value("JSONSchemaType")),
        }
    }
}

impl RoundTrip for JSONSchemaType {
    proof fn lemma_round_trip(&self) {
        reveal_strlit("object");
        reveal_strlit("number");
        reveal_strlit("string");
        reveal_strlit("array");
        reveal_strlit("null");
        reveal_strlit("boolean");
        assert("object"@.len() == 6);
        assert("number"@.len() == 6);
        assert("string"@.len() == 6);
        assert("array"@.len() == 5);
        assert("null"@.len() == 4);
        assert("boolean"@.len() == 7);
        assert("object"@[0] != "number"@[0]);
        assert("object"@[0] != "string"@[0]);
        assert("number"@[0] != "string"@[0]);
    }
}

/// Why the model stopped.
#[derive(Debug, Clone, Copy, PartialEq, Eq, Structural)]
#[allow(non_camel_case_types)]
pub enum FinishReason {
    /// A stop condition was reached.
    stop,
    /// The maximum length was reached.
    length,
    /// The content was filtered.
    content_filter,
    /// The model called tools.
    tool_calls,
    /// No reason was given.
    null,
}

impl FinishReason {
    /// The name of a reason.
    pub open spec fn name(self) -> Seq<char> {
        match self {
            FinishReason::stop => "stop"@,
            FinishReason::length => "length"@,
            FinishReason::content_filter => "content_filter"@,
            FinishReason::tool_calls => "tool_calls"@,
            FinishReason::null => "null"@,
        }
    }

    /// The reason with the given name, if there is one.
    pub open spec fn named(text: Seq<char>) -> Option<FinishReason> {
        if text == "stop"@ {
            Some(FinishReason::stop)
        }         else if text == "length"@ {
            Some(FinishReason::length)
        }         else if text == "content_filter"@ {
            Some(FinishReason::content_filter)
        }         else if text == "tool_calls"@ {
            Some(FinishReason::tool_calls)
        }         else if text == "null"@ {
            Some(FinishReason::null)
        } else {
            None
        }
    }

    /// The name of this reason.
    pub fn as_str(&self) -> (r: &'static str)
        ensures
            r@ == self.name(),
    {
        match self {
            FinishReason::stop => "stop",
            FinishReason::length => "length",
            FinishReason::content_filter => "content_filter",
            FinishReason::tool_calls => "tool_calls",
            FinishReason::null => "null",
        }
    }

    /// The name of this reason as an owned string.
    pub fn to_string(&self) -> (r: String)
        ensures
            r@ == self.name(),
    {
        String::from_str(self.as_str())
    }

    /// The reason with the given name; `None` for any other text.
    pub fn from_str(text: &str) -> (r: Option<FinishReason>)
        ensures
            r == FinishReason::named(text@),
    {
        if same_text(text, "stop") {
            Some(FinishReason::stop)
        }         else if same_text(text, "length") {
            Some(FinishReason::length)
        }         else if same_text(text, "content_filter") {
            Some(FinishReason::content_filter)
        }         else if same_text(text, "tool_calls") {
            Some(FinishReason::tool_calls)
        }         else if same_text(text, "null") {
            Some(FinishReason::null)
        } else {
            None
        }
    }
}

impl Encode for FinishReason {
    open spec fn encoding(&self) -> JsonValue {
        JsonValue::Text(self.name())
    }

    fn to_json(&self) -> (r: Json) {
        Json::text(self.as_str())
    }
}

impl Decode for FinishReason {
    open spec fn decoded_from(&self, j: JsonValue) -> bool {
        j.as_text() is Some && FinishReason::named(j.as_text()->Some_0) == Some(*self)
    }

    fn from_json(j: &Json) -> (r: Result<FinishReason, APIError>) {
        match j.as_text() {
            Some(text) => match FinishReason::from_str(text.as_str()) {
                Some(value) => Ok(value),
                None => Err(bad_value("FinishReason")),
            },
            None => Err(bad_value("FinishReason")),
        }
    }
}

impl RoundTrip for FinishReason {
    proof fn lemma_round_trip(&self) {
        reveal_strlit("stop");
        reveal_strlit("length");
        reveal_strlit("content_filter");
        reveal_strlit("tool_calls");
        reveal_strlit("null");
        assert("stop"@.len() == 4);
        assert("length"@.len() == 6);
        assert("content_filter"@.len() == 14);
        assert("tool_calls"@.len() == 10);
        assert("null"@.len() == 4);
        assert("stop"@[0] != "null"@[0]);
    }
}

/// The kinds of part that the content of a message is made of.
#[derive(Debug, Clone, Copy, PartialEq, Eq, Structural)]
#[allow(non_camel_case_types)]
pub enum ContentType {
    /// A text.
    text,
    /// The address of an image.
    image_url,
}

impl ContentType {
    /// The name of a kind of part.
    pub open spec fn name(self) -> Seq<char> {
        match self {
            ContentType::text => "text"@,
            ContentType::image_url => "image_url"@,
        }
    }

    /// The kind of part with the given name, if there is one.
    pub open spec fn named(text: Seq<char>) -> Option<ContentType> {
        if text == "text"@ {
            Some(ContentType::text)
        }         else if text == "image_url"@ {
            Some(ContentType::image_url)
        } else {
            None
        }
    }

    /// The name of this kind of part.
    pub fn as_str(&self) -> (r: &'static str)
        ensures
            r@ == self.name(),
    {
        match self {
            ContentType::text => "text",
            ContentType::image_url => "image_url",
        }
    }

    /// The name of this kind of part as an owned string.
    pub fn to_string(&self) -> (r: String)
        ensures
            r@ == self.name(),
    {
        String::from_str(self.as_str())
    }

    /// The kind of part with the given name; `None` for any other text.
    pub fn from_str(text: &str) -> (r: Option<ContentType>)
        ensures
            r == ContentType::named(text@),
    {
        if same_text(text, "text") {
            Some(ContentType::text)
        }         else if same_text(text, "image_url") {
            Some(ContentType::image_url)
        } else {
            None
        }
    }
}

impl Encode for ContentType {
    open spec fn encoding(&self) -> JsonValue {
        JsonValue::Text(self.name())
    }

    fn to_json(&self) -> (r: Json) {
        Json::text(self.as_str())
    }
}

impl Decode for ContentType {
    open spec fn decoded_from(&self, j: JsonValue) -> bool {
        j.as_text() is Some && ContentType::named(j.as_text()->Some_0) == Some(*self)
    }

    fn from_json(j: &Json) -> (r: Result<ContentType, APIError>) {
        match j.as_text() {
            Some(text) => match ContentType::from_str(text.as_str()) {
                Some(value) => Ok(value),
                None => Err(bad_value("ContentType")),
            },
            None => Err(bad_value("ContentType")),
        }
    }
}

impl RoundTrip for ContentType {
    proof fn lemma_round_trip(&self) {
        reveal_strlit("text");
        reveal_strlit("image_url");
        assert("text"@.len() == 4);
        assert("image_url"@.len() == 9);
    }
}

/// The address of an image.
#[derive(Debug, Clone, PartialEq, Eq)]
pub struct ImageUrlType {
    /// The address.
    pub url: String,
}

impl Encode for ImageUrlType {
    open spec fn encoding(&self) -> JsonValue {
        JsonValue::Object(
            with_member(
                Seq::empty(),
                "url"@,
                Some(JsonValue::Text(self.url@)),
            ),
        )
    }

    fn to_json(&self) -> (r: Json) {
        let mut members = no_members();
        put(&mut members, "url", text_json(&self.url));
        object(members)
    }
}

impl Decode for ImageUrlType {
    open spec fn decoded_from(&self, j: JsonValue) -> bool {
        &&& j is Object
        &&& text_field(j, "url"@) == Some(self.url@)
    }

    fn from_json(j: &Json) -> (r: Result<ImageUrlType, APIError>) {
        expect_object(j, "ImageUrlType")?;
        let url = read_text(j, "url")?;
        Ok(ImageUrlType { url })
    }
}

impl RoundTrip for ImageUrlType {
    proof fn lemma_round_trip(&self) {
        broadcast use lemma_member_after_write;

        reveal_strlit("url");
        assert("url"@.len() == 3);
    }
}

impl ImageUrlType {
    /// On the wire a field that is set is a member of the object, a field
    /// that is not set is no member at all, and no member is `null`.
    pub proof fn lemma_unset_fields_are_omitted(&self)
        ensures
            no_null_member(self.encoding()->Object_0),
            self.encoding().member("url"@) is Some,
    {
        broadcast use {lemma_member_after_write, lemma_no_null_after_write};

        reveal_strlit("url");
        assert("url"@.len() == 3);
    }
}

/// One part of the content of a message: a text or the address of an image.
#[derive(Debug, Clone, PartialEq, Eq)]
pub struct ImageUrl {
    /// The kind of part; `type` on the wire.
    pub content_type: ContentType,
    /// The text, for a part that is a text.
    pub text: Option<String>,
    /// The address, for a part that is an image.
    pub image_url: Option<ImageUrlType>,
}

impl Encode for ImageUrl {
    open spec fn encoding(&self) -> JsonValue {
        JsonValue::Object(
            with_member(
                with_member(
                    with_member(
                        Seq::empty(),
                        "type"@,
                        Some(self.content_type.encoding()),
                    ),
                    "text"@,
                    opt_text_value(self.text.deep_view()),
                ),
                "image_url"@,
                opt_value(self.image_url),
            ),
        )
    }

    fn to_json(&self) -> (r: Json) {
        let mut members = no_members();
        put(&mut members, "type", Some(self.content_type.to_json()));
        put(&mut members, "text", opt_text_json(&self.text));
        put(&mut members, "image_url", opt_json(&self.image_url));
        object(members)
    }
}

impl Decode for ImageUrl {
    open spec fn decoded_from(&self, j: JsonValue) -> bool {
        &&& j is Object
        &&& nested_from(self.content_type, j, "type"@)
        &&& opt_text_field(j, "text"@) == Some(self.text.deep_view())
        &&& opt_nested_from(self.image_url, j, "image_url"@)
    }

    fn from_json(j: &Json) -> (r: Result<ImageUrl, APIError>) {
        expect_object(j, "ImageUrl")?;
        let content_type = read_nested::<ContentType>(j, "type")?;
        let text = read_opt_text(j, "text")?;
        let image_url = read_opt_nested::<ImageUrlType>(j, "image_url")?;
        Ok(ImageUrl { content_type, text, image_url })
    }
}

impl RoundTrip for ImageUrl {
    proof fn lemma_round_trip(&self) {
        broadcast use lemma_member_after_write;

        reveal_strlit("type");
        reveal_strlit("text");
        reveal_strlit("image_url");
        assert("type"@.len() == 4);
        assert("text"@.len() == 4);
        assert("image_url"@.len() == 9);
        assert("type"@[1] != "text"@[1]);
        self.content_type.lemma_round_trip();
        if self.image_url is Some {
            self.image_url->Some_0.lemma_round_trip();
        }
    }
}

impl ImageUrl {
    /// On the wire a field that is set is a member of the object, a field
    /// that is not set is no member at all, and no member is `null`.
    pub proof fn lemma_unset_fields_are_omitted(&self)
        ensures
            no_null_member(self.encoding()->Object_0),
            self.encoding().member("type"@) is Some,
            self.encoding().member("text"@) is Some <==> self.text is Some,
            self.encoding().member("image_url"@) is Some <==> self.image_url is Some,
    {
        broadcast use {lemma_member_after_write, lemma_no_null_after_write};

        reveal_strlit("type");
        reveal_strlit("text");
        reveal_strlit("image_url");
        assert("type"@.len() == 4);
        assert("text"@.len() == 4);
        assert("image_url"@.len() == 9);
        assert("type"@[1] != "text"@[1]);
        self.content_type.lemma_round_trip();
        if self.image_url is Some {
            self.image_url->Some_0.lemma_round_trip();
        }
    }
}

/// What a message of a chat says: a text, or parts that may be images.
///
/// On the wire a text is a string and parts are an array.
#[derive(Debug, Clone, PartialEq, Eq)]
pub enum Content {
    /// A text.
    Text(String),
    /// Parts, each a text or the address of an image.
    ImageUrl(Vec<ImageUrl>),
}

impl Encode for Content {
    open spec fn encoding(&self) -> JsonValue {
        match self {
            Content::Text(text) => JsonValue::Text(text@),
            Content::ImageUrl(parts) => JsonValue::List(encodings(parts@)),
        }
    }

    fn to_json(&self) -> (r: Json) {
        match self {
            Content::Text(text) => Json::Text(text.clone()),
            Content::ImageUrl(parts) => list_json(parts),
        }
    }
}

/// The part that shows the image at `url`.
pub open spec fn is_image_part(part: ImageUrl, url: Seq<char>) -> bool {
    &&& part.content_type == ContentType::image_url
    &&& part.text is None
    &&& part.image_url matches Some(address)
    &&& address.url@ == url
}

impl From<&str> for Content {
    /// The content that is the text `text`.
    fn from(text: &str) -> (r: Content)
        ensures
            r matches Content::Text(s) && s@ == text@,
    {
        Content::Text(String::from_str(text))
    }
}

impl vstd::std_specs::convert::FromSpecImpl<&str> for Content {
    open spec fn obeys_from_spec() -> bool {
        false
    }

    open spec fn from_spec(text: &str) -> Content {
        arbitrary()
    }
}

impl From<Vec<&str>> for Content {
    /// The content that shows the images at the given addresses, in order.
    fn from(texts: Vec<&str>) -> (r: Content)
        ensures
            r matches Content::ImageUrl(parts) && parts@.len() == texts@.len() && forall|i: int|
                0 <= i < parts@.len() ==> is_image_part(#[trigger] parts@[i], texts@[i]@),
    {
        let mut parts: Vec<ImageUrl> = Vec::new();
        let mut i: usize = 0;
        while i < texts.len()
            invariant
                i <= texts@.len(),
                parts@.len() == i,
                forall|k: int| 0 <= k < i ==> is_image_part(#[trigger] parts@[k], texts@[k]@),
            decreases texts@.len() - i,
        {
            parts.push(
                ImageUrl {
                    content_type: ContentType::image_url,
                    text: None,
                    image_url: Some(ImageUrlType { url: String::from_str(texts[i]) }),
                },
            );
            i += 1;
        }
        Content::ImageUrl(parts)
    }
}

impl vstd::std_specs::convert::FromSpecImpl<Vec<&str>> for Content {
    open spec fn obeys_from_spec() -> bool {
        false
    }

    open spec fn from_spec(texts: Vec<&str>) -> Content {
        arbitrary()
    }
}

/// A message of a chat, as a request carries it.
#[derive(Debug, Clone)]
pub struct ChatCompletionMessage {
    /// Who speaks.
    pub role: MessageRole,
    /// What is said.
    pub content: Content,
    /// The name of the speaker.
    pub name: Option<String>,
}

impl Encode for ChatCompletionMessage {
    open spec fn encoding(&self) -> JsonValue {
        JsonValue::Object(
            with_member(
                with_member(
                    with_member(
                        Seq::empty(),
                        "role"@,
                        Some(self.role.encoding()),
                    ),
                    "content"@,
                    Some(self.content.encoding()),
                ),
                "name"@,
                opt_text_value(self.name.deep_view()),
            ),
        )
    }

    fn to_json(&self) -> (r: Json) {
        let mut members = no_members();
        put(&mut members, "role", Some(self.role.to_json()));
        put(&mut members, "content", Some(self.content.to_json()));
        put(&mut members, "name", opt_text_json(&self.name));
        object(members)
    }
}

impl From<&str> for ChatCompletionMessage {
    /// The message in which the user says `text`.
    fn from(text: &str) -> (r: ChatCompletionMessage)
        ensures
            r.role == MessageRole::User,
            r.content matches Content::Text(s) && s@ == text@,
            r.name is None,
    {
        ChatCompletionMessage {
            role: MessageRole::User,
            content: Content::Text(String::from_str(text)),
            name: None,
        }
    }
}

impl vstd::std_specs::convert::FromSpecImpl<&str> for ChatCompletionMessage {
    open spec fn obeys_from_spec() -> bool {
        false
    }

    open spec fn from_spec(text: &str) -> ChatCompletionMessage {
        arbitrary()
    }
}

/// The function that a tool call names, and its arguments.
#[derive(Debug, Clone)]
pub struct ToolCallFunction {
    /// The name of the function.
    pub name: Option<String>,
    /// The arguments, as the text of a JSON document.
    pub arguments: Option<String>,
}

impl Encode for ToolCallFunction {
    open spec fn encoding(&self) -> JsonValue {
        JsonValue::Object(
            with_member(
                with_member(
                    Seq::empty(),
                    "name"@,
                    opt_text_value(self.name.deep_view()),
                ),
                "arguments"@,
                opt_text_value(self.arguments.deep_view()),
            ),
        )
    }

    fn to_json(&self) -> (r: Json) {
        let mut members = no_members();
        put(&mut members, "name", opt_text_json(&self.name));
        put(&mut members, "arguments", opt_text_json(&self.arguments));
        object(members)
    }
}

impl Decode for ToolCallFunction {
    open spec fn decoded_from(&self, j: JsonValue) -> bool {
        &&& j is Object
        &&& opt_text_field(j, "name"@) == Some(self.name.deep_view())
        &&& opt_text_field(j, "arguments"@) == Some(self.arguments.deep_view())
    }

    fn from_json(j: &Json) -> (r: Result<ToolCallFunction, APIError>) {
        expect_object(j, "ToolCallFunction")?;
        let name = read_opt_text(j, "name")?;
        let arguments = read_opt_text(j, "arguments")?;
        Ok(ToolCallFunction { name, arguments })
    }
}

impl RoundTrip for ToolCallFunction {
    proof fn lemma_round_trip(&self) {
        broadcast use lemma_member_after_write;

        reveal_strlit("name");
        reveal_strlit("arguments");
        assert("name"@.len() == 4);
        assert("arguments"@.len() == 9);
    }
}

impl ToolCallFunction {
    /// On the wire a field that is set is a member of the object, a field
    /// that is not set is no member at all, and no member is `null`.
    pub proof fn lemma_unset_fields_are_omitted(&self)
        ensures
            no_null_member(self.encoding()->Object_0),
            self.encoding().member("name"@) is Some <==> self.name is Some,
            self.encoding().member("arguments"@) is Some <==> self.arguments is Some,
    {
        broadcast use {lemma_member_after_write, lemma_no_null_after_write};

        reveal_strlit("name");
        reveal_strlit("arguments");
        assert("name"@.len() == 4);
        assert("arguments"@.len() == 9);
    }
}

/// A call of a tool that the model asks for.
#[derive(Debug, Clone)]
pub struct ToolCall {
    /// The identifier of the call.
    pub id: String,
    /// The kind of call; `type` on the wire.
    pub call_type: String,
    /// The function to call.
    pub function: ToolCallFunction,
}

impl Encode for ToolCall {
    open spec fn encoding(&self) -> JsonValue {
        JsonValue::Object(
            with_member(
                with_member(
                    with_member(
                        Seq::empty(),
                        "id"@,
                        Some(JsonValue::Text(self.id@)),
                    ),
                    "type"@,
                    Some(JsonValue::Text(self.call_type@)),
                ),
                "function"@,
                Some(self.function.encoding()),
            ),
        )
    }

    fn to_json(&self) -> (r: Json) {
        let mut members = no_members();
        put(&mut members, "id", text_json(&self.id));
        put(&mut members, "type", text_json(&self.call_type));
        put(&mut members, "function", Some(self.function.to_json()));
        object(members)
    }
}

impl Decode for ToolCall {
    open spec fn decoded_from(&self, j: JsonValue) -> bool {
        &&& j is Object
        &&& text_field(j, "id"@) == Some(self.id@)
        &&& text_field(j, "type"@) == Some(self.call_type@)
        &&& nested_from(self.function, j, "function"@)
    }

    fn from_json(j: &Json) -> (r: Result<ToolCall, APIError>) {
        expect_object(j, "ToolCall")?;
        let id = read_text(j, "id")?;
        let call_type = read_text(j, "type")?;
        let function = read_nested::<ToolCallFunction>(j, "function")?;
        Ok(ToolCall { id, call_type, function })
    }
}

impl RoundTrip for ToolCall {
    proof fn lemma_round_trip(&self) {
        broadcast use lemma_member_after_write;

        reveal_strlit("id");
        reveal_strlit("type");
        reveal_strlit("function");
        assert("id"@.len() == 2);
        assert("type"@.len() == 4);
        assert("function"@.len() == 8);
        self.function.lemma_round_trip();
    }
}

impl ToolCall {
    /// On the wire a field that is set is a member of the object, a field
    /// that is not set is no member at all, and no member is `null`.
    pub proof fn lemma_unset_fields_are_omitted(&self)
        ensures
            no_null_member(self.encoding()->Object_0),
            self.encoding().member("id"@) is Some,
            self.encoding().member("type"@) is Some,
            self.encoding().member("function"@) is Some,
    {
        broadcast use {lemma_member_after_write, lemma_no_null_after_write};

        reveal_strlit("id");
        reveal_strlit("type");
        reveal_strlit("function");
        assert("id"@.len() == 2);
        assert("type"@.len() == 4);
        assert("function"@.len() == 8);
        self.function.lemma_round_trip();
    }
}

/// A message of a chat, as an answer carries it.
#[derive(Debug)]
pub struct ChatCompletionMessageForResponse {
    /// Who speaks.
    pub role: MessageRole,
    /// What is said.
    pub content: Option<String>,
    /// The name of the speaker.
    pub name: Option<String>,
    /// The tool calls that the model asks for.
    pub tool_calls: Option<Vec<ToolCall>>,
}

impl Decode for ChatCompletionMessageForResponse {
    open spec fn decoded_from(&self, j: JsonValue) -> bool {
        &&& j is Object
        &&& nested_from(self.role, j, "role"@)
        &&& opt_text_field(j, "content"@) == Some(self.content.deep_view())
        &&& opt_text_field(j, "name"@) == Some(self.name.deep_view())
        &&& opt_list_from(self.tool_calls, j, "tool_calls"@)
    }

    fn from_json(j: &Json) -> (r: Result<ChatCompletionMessageForResponse, APIError>) {
        expect_object(j, "ChatCompletionMessageForResponse")?;
        let role = read_nested::<MessageRole>(j, "role")?;
        let content = read_opt_text(j, "content")?;
        let name = read_opt_text(j, "name")?;
        let tool_calls = read_opt_nested_list::<ToolCall>(j, "tool_calls")?;
        Ok(ChatCompletionMessageForResponse { role, content, name, tool_calls })
    }
}

/// The details of why the model stopped.
#[derive(Debug)]
pub struct FinishDetails {
    /// Why the model stopped; `type` on the wire.
    pub reason: FinishReason,
    /// The stop condition.
    pub stop: String,
}

impl Decode for FinishDetails {
    open spec fn decoded_from(&self, j: JsonValue) -> bool {
        &&& j is Object
        &&& nested_from(self.reason, j, "type"@)
        &&& text_field(j, "stop"@) == Some(self.stop@)
    }

    fn from_json(j: &Json) -> (r: Result<FinishDetails, APIError>) {
        expect_object(j, "FinishDetails")?;
        let reason = read_nested::<FinishReason>(j, "type")?;
        let stop = read_text(j, "stop")?;
        Ok(FinishDetails { reason, stop })
    }
}

/// One continuation that the model proposes.
#[derive(Debug)]
pub struct ChatCompletionChoice {
    /// The position among the choices.
    pub index: i64,
    /// The message that the model wrote.
    pub message: ChatCompletionMessageForResponse,
    /// Why the model stopped.
    pub finish_reason: Option<FinishReason>,
    /// The details of why the model stopped.
    pub finish_details: Option<FinishDetails>,
}

impl Decode for ChatCompletionChoice {
    open spec fn decoded_from(&self, j: JsonValue) -> bool {
        &&& j is Object
        &&& int_field(j, "index"@) == Some(self.index as int)
        &&& nested_from(self.message, j, "message"@)
        &&& opt_nested_from(self.finish_reason, j, "finish_reason"@)
        &&& opt_nested_from(self.finish_details, j, "finish_details"@)
    }

    fn from_json(j: &Json) -> (r: Result<ChatCompletionChoice, APIError>) {
        expect_object(j, "ChatCompletionChoice")?;
        let index = read_int(j, "index")?;
        let message = read_nested::<ChatCompletionMessageForResponse>(j, "message")?;
        let finish_reason = read_opt_nested::<FinishReason>(j, "finish_reason")?;
        let finish_details = read_opt_nested::<FinishDetails>(j, "finish_details")?;
        Ok(ChatCompletionChoice { index, message, finish_reason, finish_details })
    }
}

/// The answer to a chat completion.
#[derive(Debug)]
pub struct ChatCompletionResponse {
    /// The identifier of the answer.
    pub id: String,
    /// The kind of object, `chat.completion`.
    pub object: String,
    /// When the answer was created, in seconds since the epoch.
    pub created: i64,
    /// The model that answered.
    pub model: String,
    /// The continuations that the model proposes.
    pub choices: Vec<ChatCompletionChoice>,
    /// The tokens that the answer used.
    pub usage: Usage,
    /// The fingerprint of the system that answered.
    pub system_fingerprint: Option<String>,
    /// The headers of the response that carried this object.
    pub headers: Option<StringMap>,
}

impl ChatCompletionResponse {
    /// The text of the first choice; the empty text where that choice has
    /// none. The answer must have a choice.
    pub fn get_choice(&self) -> (r: String)
        requires
            self.choices@.len() > 0,
        ensures
            r@ == match self.choices@[0].message.content {
                Some(text) => text@,
                None => Seq::empty(),
            },
    {
        match &self.choices[0].message.content {
            Some(text) => text.clone(),
            None => String::new(),
        }
    }
}

impl Decode for ChatCompletionResponse {
    open spec fn decoded_from(&self, j: JsonValue) -> bool {
        &&& j is Object
        &&& text_field(j, "id"@) == Some(self.id@)
        &&& text_field(j, "object"@) == Some(self.object@)
        &&& int_field(j, "created"@) == Some(self.created as int)
        &&& text_field(j, "model"@) == Some(self.model@)
        &&& list_from(self.choices@, j, "choices"@)
        &&& nested_from(self.usage, j, "usage"@)
        &&& opt_text_field(j, "system_fingerprint"@) == Some(self.system_fingerprint.deep_view())
    }

    fn from_json(j: &Json) -> (r: Result<ChatCompletionResponse, APIError>)
        ensures
            r matches Ok(value) ==> value.headers is None,
    {
        expect_object(j, "ChatCompletionResponse")?;
        let id = read_text(j, "id")?;
        let object = read_text(j, "object")?;
        let created = read_int(j, "created")?;
        let model = read_text(j, "model")?;
        let choices = read_nested_list::<ChatCompletionChoice>(j, "choices")?;
        let usage = read_nested::<Usage>(j, "usage")?;
        let system_fingerprint = read_opt_text(j, "system_fingerprint")?;
        Ok(
            ChatCompletionResponse {
                id,
                object,
                created,
                model,
                choices,
                usage,
                system_fingerprint,
                headers: None,
            },
        )
    }
}

impl Enveloped for ChatCompletionResponse {
    open spec fn envelope(&self) -> Option<Map<Seq<char>, Seq<char>>> {
        self.headers.deep_view()
    }

    fn with_headers(self, headers: StringMap) -> (r: ChatCompletionResponse)
        ensures
            r == (ChatCompletionResponse { headers: Some(headers), ..self }),
    {
        let mut r = self;
        r.headers = Some(headers);
        r
    }
}

/// A JSON Schema, as far as the parameters of functions need it.
#[derive(Debug, PartialEq, Eq)]
pub struct JSONSchemaDefine {
    /// The type of the value; `type` on the wire.
    pub schema_type: Option<JSONSchemaType>,
    /// A description of the value.
    pub description: Option<String>,
    /// The values that are allowed.
    pub enum_values: Option<Vec<String>>,
    /// The properties of an object, each with its name. Names are distinct.
    pub properties: Option<Vec<(String, JSONSchemaDefine)>>,
    /// The names of the properties that must be present.
    pub required: Option<Vec<String>>,
    /// The schema of the items of an array.
    pub items: Option<Box<JSONSchemaDefine>>,
}

/// The document of a schema.
pub open spec fn schema_value(schema: JSONSchemaDefine) -> JsonValue
    decreases schema,
{
    JsonValue::Object(
        with_member(
            with_member(
                with_member(
                    with_member(
                        with_member(
                            with_member(Seq::empty(), "type"@, opt_value(schema.schema_type)),
                            "description"@,
                            opt_text_value(schema.description.deep_view()),
                        ),
                        "enum_values"@,
                        opt_text_list_value(schema.enum_values.deep_view()),
                    ),
                    "properties"@,
                    opt_properties_value(schema.properties),
                ),
                "required"@,
                opt_text_list_value(schema.required.deep_view()),
            ),
            "items"@,
            match schema.items {
                Some(inner) => Some(schema_value(*inner)),
                None => None,
            },
        ),
    )
}

/// The document of optional properties.
pub open spec fn opt_properties_value(list: Option<Vec<(String, JSONSchemaDefine)>>) -> Option<
    JsonValue,
>
    decreases list,
{
    match list {
        Some(l) => Some(properties_value(l)),
        None => None,
    }
}

/// The document of the properties of an object: an object with one member
/// for each property, its schema under its name.
pub open spec fn properties_value(list: Vec<(String, JSONSchemaDefine)>) -> JsonValue
    decreases list,
{
    JsonValue::Object(
        Seq::new(
            list@.len(),
            |i: int|
                if 0 <= i < list@.len() {
                    (list@[i].0@, schema_value(list@[i].1))
                } else {
                    (Seq::empty(), JsonValue::Null)
                },
        ),
    )
}

/// Writes a schema as a document.
pub fn schema_json(schema: &JSONSchemaDefine) -> (r: Json)
    ensures
        r@ == schema_value(*schema),
    decreases schema,
{
    let mut members = no_members();
    put(&mut members, "type", opt_json(&schema.schema_type));
    put(&mut members, "description", opt_text_json(&schema.description));
    put(&mut members, "enum_values", opt_text_list_json(&schema.enum_values));
    let properties = match &schema.properties {
        Some(list) => {
            let mut inner: Vec<(String, Json)> = Vec::new();
            let mut i: usize = 0;
            while i < list.len()
                invariant
                    i <= list@.len(),
                    inner@.len() == i,
                    schema.properties == Some(*list),
                    forall|k: int|
                        0 <= k < i ==> (#[trigger] member_views(inner@)[k]) == (
                            list@[k].0@,
                            schema_value(list@[k].1),
                        ),
                decreases list@.len() - i,
            {
                let ghost before = member_views(inner@);
                assert(decreases_to!(*schema => schema.properties));
                assert(decreases_to!(schema.properties => schema.properties->Some_0));
                assert(decreases_to!(*list => list@));
                assert(decreases_to!(list@ => list@[i as int]));
                assert(decreases_to!(list@[i as int] => list@[i as int].1));
                let value = schema_json(&list[i].1);
                inner.push((list[i].0.clone(), value));
                assert(member_views(inner@) =~= before.push(
                    (list@[i as int].0@, schema_value(list@[i as int].1)),
                ));
                i += 1;
            }
            let document = object(inner);
            assert(document@->Object_0 =~= properties_value(*list)->Object_0);
            assert(opt_properties_value(schema.properties) == Some(document@));
            Some(document)
        },
        None => None,
    };
    put(&mut members, "properties", properties);
    put(&mut members, "required", opt_text_list_json(&schema.required));
    let items = match &schema.items {
        Some(inner) => Some(schema_json(inner)),
        None => None,
    };
    put(&mut members, "items", items);
    object(members)
}

impl JSONSchemaDefine {
    /// A copy of the schema: it has the same document.
    pub fn duplicate(&self) -> (r: JSONSchemaDefine)
        ensures
            schema_value(r) == schema_value(*self),
        decreases self,
    {
        let properties = match &self.properties {
            Some(list) => {
                let mut copies: Vec<(String, JSONSchemaDefine)> = Vec::new();
                let mut i: usize = 0;
                while i < list.len()
                    invariant
                        i <= list@.len(),
                        copies@.len() == i,
                        self.properties == Some(*list),
                        forall|k: int|
                            0 <= k < i ==> (#[trigger] copies@[k]).0@ == list@[k].0@
                                && schema_value(copies@[k].1) == schema_value(list@[k].1),
                    decreases list@.len() - i,
                {
                    assert(decreases_to!(*self => self.properties));
                    assert(decreases_to!(self.properties => self.properties->Some_0));
                    assert(decreases_to!(*list => list@));
                    assert(decreases_to!(list@ => list@[i as int]));
                    assert(decreases_to!(list@[i as int] => list@[i as int].1));
                    let copy = list[i].1.duplicate();
                    copies.push((list[i].0.clone(), copy));
                    i += 1;
                }
                assert(properties_value(copies)->Object_0 =~= properties_value(*list)->Object_0);
                assert(opt_properties_value(Some(copies)) == opt_properties_value(self.properties));
                Some(copies)
            },
            None => None,
        };
        assert(opt_properties_value(properties) == opt_properties_value(self.properties));
        let items = match &self.items {
            Some(inner) => Some(Box::new(inner.duplicate())),
            None => None,
        };
        let r = JSONSchemaDefine {
            schema_type: self.schema_type,
            description: copy_opt_text(&self.description),
            enum_values: copy_opt_texts(&self.enum_values),
            properties,
            required: copy_opt_texts(&self.required),
            items,
        };
        assert(schema_value(r)->Object_0 =~= schema_value(*self)->Object_0);
        r
    }
}

impl Clone for JSONSchemaDefine {
    fn clone(&self) -> (r: JSONSchemaDefine)
        ensures
            schema_value(r) == schema_value(*self),
    {
        self.duplicate()
    }
}

impl Encode for JSONSchemaDefine {
    open spec fn encoding(&self) -> JsonValue {
        schema_value(*self)
    }

    fn to_json(&self) -> (r: Json) {
        schema_json(self)
    }
}

impl Default for JSONSchemaDefine {
    fn default() -> (r: JSONSchemaDefine)
        ensures
            r == (JSONSchemaDefine {
                schema_type: None,
                description: None,
                enum_values: None,
                properties: None,
                required: None,
                items: None,
            }),
    {
        JSONSchemaDefine {
            schema_type: None,
            description: None,
            enum_values: None,
            properties: None,
            required: None,
            items: None,
        }
    }
}

/// The parameters of a function, as a JSON Schema.
#[derive(Debug, Clone, PartialEq, Eq)]
pub struct FunctionParameters {
    /// The type of the parameters; `type` on the wire.
    pub schema_type: JSONSchemaType,
    /// The parameters, each with its name. Names are distinct.
    pub properties: Option<Vec<(String, JSONSchemaDefine)>>,
    /// The names of the parameters that must be given.
    pub required: Option<Vec<String>>,
}

/// Writes the properties of an object as a document.
pub fn properties_json(list: &Vec<(String, JSONSchemaDefine)>) -> (r: Json)
    ensures
        r@ == properties_value(*list),
{
    let mut inner: Vec<(String, Json)> = Vec::new();
    let mut i: usize = 0;
    while i < list.len()
        invariant
            i <= list@.len(),
            inner@.len() == i,
            forall|k: int|
                0 <= k < i ==> (#[trigger] member_views(inner@)[k]) == (
                    list@[k].0@,
                    schema_value(list@[k].1),
                ),
        decreases list@.len() - i,
    {
        let ghost before = member_views(inner@);
        let value = schema_json(&list[i].1);
        inner.push((list[i].0.clone(), value));
        assert(member_views(inner@) =~= before.push(
            (list@[i as int].0@, schema_value(list@[i as int].1)),
        ));
        i += 1;
    }
    let document = object(inner);
    assert(document@->Object_0 =~= properties_value(*list)->Object_0);
    document
}

impl Encode for FunctionParameters {
    open spec fn encoding(&self) -> JsonValue {
        JsonValue::Object(
            with_member(
                with_member(
                    with_member(Seq::empty(), "type"@, Some(self.schema_type.encoding())),
                    "properties"@,
                    opt_properties_value(self.properties),
                ),
                "required"@,
                opt_text_list_value(self.required.deep_view()),
            ),
        )
    }

    fn to_json(&self) -> (r: Json) {
        let mut members = no_members();
        put(&mut members, "type", Some(self.schema_type.to_json()));
        let properties = match &self.properties {
            Some(list) => Some(properties_json(list)),
            None => None,
        };
        put(&mut members, "properties", properties);
        put(&mut members, "required", opt_text_list_json(&self.required));
        object(members)
    }
}

/// A function that the model may call.
#[derive(Debug, Clone, PartialEq, Eq)]
pub struct Function {
    /// The name of the function.
    pub name: String,
    /// What the function does.
    pub description: Option<String>,
    /// The parameters of the function.
    pub parameters: FunctionParameters,
}

impl Encode for Function {
    open spec fn encoding(&self) -> JsonValue {
        JsonValue::Object(
            with_member(
                with_member(
                    with_member(
                        Seq::empty(),
                        "name"@,
                        Some(JsonValue::Text(self.name@)),
                    ),
                    "description"@,
                    opt_text_value(self.description.deep_view()),
                ),
                "parameters"@,
                Some(self.parameters.encoding()),
            ),
        )
    }

    fn to_json(&self) -> (r: Json) {
        let mut members = no_members();
        put(&mut members, "name", text_json(&self.name));
        put(&mut members, "description", opt_text_json(&self.description));
        put(&mut members, "parameters", Some(self.parameters.to_json()));
        object(members)
    }
}

/// A tool that the model may use.
#[derive(Debug, Clone, PartialEq, Eq)]
pub struct Tool {
    /// The kind of tool; `type` on the wire.
    pub tool_type: ToolType,
    /// The function behind the tool.
    pub function: Function,
}

impl Encode for Tool {
    open spec fn encoding(&self) -> JsonValue {
        JsonValue::Object(
            with_member(
                with_member(
                    Seq::empty(),
                    "type"@,
                    Some(self.tool_type.encoding()),
                ),
                "function"@,
                Some(self.function.encoding()),
            ),
        )
    }

    fn to_json(&self) -> (r: Json) {
        let mut members = no_members();
        put(&mut members, "type", Some(self.tool_type.to_json()));
        put(&mut members, "function", Some(self.function.to_json()));
        object(members)
    }
}

/// Which tool the model is to use.
#[derive(Debug, Clone, PartialEq, Eq)]
pub enum ToolChoiceType {
    /// No tool.
    NoTool,
    /// The tool that the model picks.
    Auto,
    /// This tool.
    ToolChoice {
        /// The tool to use.
        tool: Tool,
    },
}

/// The document of a choice of tool: `none` and `auto` are strings, a
/// given tool is an object with its kind and its function, and no choice
/// at all is `null`.
pub open spec fn tool_choice_value(value: Option<ToolChoiceType>) -> JsonValue {
    match value {
        Some(ToolChoiceType::NoTool) => JsonValue::Text("none"@),
        Some(ToolChoiceType::Auto) => JsonValue::Text("auto"@),
        Some(ToolChoiceType::ToolChoice { tool }) => tool.encoding(),
        None => JsonValue::Null,
    }
}

/// Writes a choice of tool as a document.
pub fn serialize_tool_choice(value: &Option<ToolChoiceType>) -> (r: Json)
    ensures
        r@ == tool_choice_value(*value),
{
    match value {
        Some(ToolChoiceType::NoTool) => Json::text("none"),
        Some(ToolChoiceType::Auto) => Json::text("auto"),
        Some(ToolChoiceType::ToolChoice { tool }) => tool.to_json(),
        None => Json::Null,
    }
}

} // verus!
