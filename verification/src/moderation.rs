//! Moderation: the request and the categories of its answer. The scores of the
//! answer are numbers with a fraction and are kept by the caller of this
//! library.

use crate::error::APIError;
use crate::fields::{
    bool_field, expect_object, lemma_member_after_write, lemma_no_null_after_write, no_members,
    no_null_member, object, opt_text_field, opt_text_json, opt_text_value, put, read_bool,
    read_opt_text, read_text, text_field, text_json, with_member,
};
use crate::json::{Json, JsonValue};
use crate::resource::{Decode, Encode, RoundTrip};
use vstd::prelude::*;
use vstd::string::*;

verus! {

/// The request that classifies a text.
#[derive(Debug, Clone)]
pub struct CreateModerationRequest {
    /// The text to classify.
    pub input: String,
    /// The model to use.
    pub model: Option<String>,
}

impl CreateModerationRequest {
    /// A request to classify `input` with the default model.
    pub fn new(input: String) -> (r: CreateModerationRequest)
        ensures
            r == (CreateModerationRequest { input, model: None }),
    {
        CreateModerationRequest { input, model: None }
    }

    /// Sets `model`.
    pub fn model(self, model: String) -> (r: CreateModerationRequest)
        ensures
            r == (CreateModerationRequest { model: Some(model), ..self }),
    {
        let mut r = self;
        r.model = Some(model);
        r
    }
}

impl Encode for CreateModerationRequest {
    open spec fn encoding(&self) -> JsonValue {
        JsonValue::Object(
            with_member(
                with_member(
                    Seq::empty(),
                    "input"@,
                    Some(JsonValue::Text(self.input@)),
                ),
                "model"@,
                opt_text_value(self.model.deep_view()),
            ),
        )
    }

    fn to_json(&self) -> (r: Json) {
        let mut members = no_members();
        put(&mut members, "input", text_json(&self.input));
        put(&mut members, "model", opt_text_json(&self.model));
        object(members)
    }
}

impl Decode for CreateModerationRequest {
    open spec fn decoded_from(&self, j: JsonValue) -> bool {
        &&& j is Object
        &&& text_field(j, "input"@) == Some(self.input@)
        &&& opt_text_field(j, "model"@) == Some(self.model.deep_view())
    }

    fn from_json(j: &Json) -> (r: Result<CreateModerationRequest, APIError>) {
        expect_object(j, "CreateModerationRequest")?;
        let input = read_text(j, "input")?;
        let model = read_opt_text(j, "model")?;
        Ok(CreateModerationRequest { input, model })
    }
}

impl RoundTrip for CreateModerationRequest {
    proof fn lemma_round_trip(&self) {
        broadcast use lemma_member_after_write;

        reveal_strlit("input");
        reveal_strlit("model");
        assert("input"@.len() == 5);
        assert("model"@.len() == 5);
        assert("input"@[0] != "model"@[0]);
    }
}

impl CreateModerationRequest {
    /// On the wire a field that is set is a member of the object, a field
    /// that is not set is no member at all, and no member is `null`.
    pub proof fn lemma_unset_fields_are_omitted(&self)
        ensures
            no_null_member(self.encoding()->Object_0),
            self.encoding().member("input"@) is Some,
            self.encoding().member("model"@) is Some <==> self.model is Some,
    {
        broadcast use {lemma_member_after_write, lemma_no_null_after_write};

        reveal_strlit("input");
        reveal_strlit("model");
        assert("input"@.len() == 5);
        assert("model"@.len() == 5);
        assert("input"@[0] != "model"@[0]);
    }
}

/// The categories that a text was found to fall under.
#[derive(Debug)]
pub struct ModerationCategories {
    /// Hate; `hate` on the wire.
    pub is_hate: bool,
    /// Hate with threats; `hate/threatening` on the wire.
    pub is_hate_threatening: bool,
    /// Self-harm; `self-harm` on the wire.
    pub is_self_harm: bool,
    /// Sexual content.
    pub sexual: bool,
    /// Sexual content with minors; `sexual/minors` on the wire.
    pub is_sexual_minors: bool,
    /// Violence.
    pub violence: bool,
    /// Graphic violence; `violence/graphic` on the wire.
    pub is_violence_graphic: bool,
}

impl Decode for ModerationCategories {
    open spec fn decoded_from(&self, j: JsonValue) -> bool {
        &&& j is Object
        &&& bool_field(j, "hate"@) == Some(self.is_hate)
        &&& bool_field(j, "hate/threatening"@) == Some(self.is_hate_threatening)
        &&& bool_field(j, "self-harm"@) == Some(self.is_self_harm)
        &&& bool_field(j, "sexual"@) == Some(self.sexual)
        &&& bool_field(j, "sexual/minors"@) == Some(self.is_sexual_minors)
        &&& bool_field(j, "violence"@) == Some(self.violence)
        &&& bool_field(j, "violence/graphic"@) == Some(self.is_violence_graphic)
    }

    fn from_json(j: &Json) -> (r: Result<ModerationCategories, APIError>) {
        expect_object(j, "ModerationCategories")?;
        let is_hate = read_bool(j, "hate")?;
        let is_hate_threatening = read_bool(j, "hate/threatening")?;
        let is_self_harm = read_bool(j, "self-harm")?;
        let sexual = read_bool(j, "sexual")?;
        let is_sexual_minors = read_bool(j, "sexual/minors")?;
        let violence = read_bool(j, "violence")?;
        let is_violence_graphic = read_bool(j, "violence/graphic")?;
        Ok(
            ModerationCategories {
                is_hate,
                is_hate_threatening,
                is_self_harm,
                sexual,
                is_sexual_minors,
                violence,
                is_violence_graphic,
            },
        )
    }
}

} // verus!
