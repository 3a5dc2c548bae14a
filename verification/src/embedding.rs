//! Embeddings: the request and the token usage of its answer. The embedding
//! vectors themselves are numbers with a fraction and are kept by the caller
//! of this library.

use crate::error::APIError;
use crate::fields::{
    expect_object, i32_field, lemma_member_after_write, lemma_no_null_after_write, no_members,
    no_null_member, object, opt_i32_field, opt_i32_json, opt_i32_view, opt_int_value,
    opt_text_field, opt_text_json, opt_text_value, put, read_i32, read_opt_i32, read_opt_text,
    read_text, text_field, text_json, with_member,
};
use crate::json::{Json, JsonValue};
use crate::models::Model;
use crate::resource::{nested_from, read_nested, Decode, Encode, RoundTrip};
use vstd::prelude::*;
use vstd::string::*;

verus! {

/// The request that embeds a text.
#[derive(Debug, Clone)]
pub struct EmbeddingRequest {
    /// The model to use.
    pub model: Model,
    /// The text to embed.
    pub input: String,
    /// The number of dimensions of the embedding.
    pub dimensions: Option<i32>,
    /// An identifier of the end user.
    pub user: Option<String>,
}

impl EmbeddingRequest {
    /// A request to embed `input` with `model`.
    pub fn new(model: Model, input: String) -> (r: EmbeddingRequest)
        ensures
            r == (EmbeddingRequest { model, input, dimensions: None, user: None }),
    {
        EmbeddingRequest { model, input, dimensions: None, user: None }
    }

    /// Sets `user`.
    pub fn user(self, user: String) -> (r: EmbeddingRequest)
        ensures
            r == (EmbeddingRequest { user: Some(user), ..self }),
    {
        let mut r = self;
        r.user = Some(user);
        r
    }
}

impl Encode for EmbeddingRequest {
    open spec fn encoding(&self) -> JsonValue {
        JsonValue::Object(
            with_member(
                with_member(
                    with_member(
                        with_member(
                            Seq::empty(),
                            "model"@,
                            Some(self.model.encoding()),
                        ),
                        "input"@,
                        Some(JsonValue::Text(self.input@)),
                    ),
                    "dimensions"@,
                    opt_int_value(opt_i32_view(self.dimensions)),
                ),
                "user"@,
                opt_text_value(self.user.deep_view()),
            ),
        )
    }

    fn to_json(&self) -> (r: Json) {
        let mut members = no_members();
        put(&mut members, "model", Some(self.model.to_json()));
        put(&mut members, "input", text_json(&self.input));
        put(&mut members, "dimensions", opt_i32_json(self.dimensions));
        put(&mut members, "user", opt_text_json(&self.user));
        object(members)
    }
}

impl Decode for EmbeddingRequest {
    open spec fn decoded_from(&self, j: JsonValue) -> bool {
        &&& j is Object
        &&& nested_from(self.model, j, "model"@)
        &&& text_field(j, "input"@) == Some(self.input@)
        &&& opt_i32_field(j, "dimensions"@) == Some(opt_i32_view(self.dimensions))
        &&& opt_text_field(j, "user"@) == Some(self.user.deep_view())
    }

    fn from_json(j: &Json) -> (r: Result<EmbeddingRequest, APIError>) {
        expect_object(j, "EmbeddingRequest")?;
        let model = read_nested::<Model>(j, "model")?;
        let input = read_text(j, "input")?;
        let dimensions = read_opt_i32(j, "dimensions")?;
        let user = read_opt_text(j, "user")?;
        Ok(EmbeddingRequest { model, input, dimensions, user })
    }
}

impl RoundTrip for EmbeddingRequest {
    proof fn lemma_round_trip(&self) {
        broadcast use lemma_member_after_write;

        reveal_strlit("model");
        reveal_strlit("input");
        reveal_strlit("dimensions");
        reveal_strlit("user");
        assert("model"@.len() == 5);
        assert("input"@.len() == 5);
        assert("dimensions"@.len() == 10);
        assert("user"@.len() == 4);
        assert("model"@[0] != "input"@[0]);
        self.model.lemma_round_trip();
    }
}

impl EmbeddingRequest {
    /// On the wire a field that is set is a member of the object, a field
    /// that is not set is no member at all, and no member is `null`.
    pub proof fn lemma_unset_fields_are_omitted(&self)
        ensures
            no_null_member(self.encoding()->Object_0),
            self.encoding().member("model"@) is Some,
            self.encoding().member("input"@) is Some,
            self.encoding().member("dimensions"@) is Some <==> self.dimensions is Some,
            self.encoding().member("user"@) is Some <==> self.user is Some,
    {
        broadcast use {lemma_member_after_write, lemma_no_null_after_write};

        reveal_strlit("model");
        reveal_strlit("input");
        reveal_strlit("dimensions");
        reveal_strlit("user");
        assert("model"@.len() == 5);
        assert("input"@.len() == 5);
        assert("dimensions"@.len() == 10);
        assert("user"@.len() == 4);
        assert("model"@[0] != "input"@[0]);
        self.model.lemma_round_trip();
    }
}

/// How many tokens an embedding used.
#[derive(Debug)]
pub struct Usage {
    /// Tokens of the input.
    pub prompt_tokens: i32,
    /// All tokens.
    pub total_tokens: i32,
}

impl Decode for Usage {
    open spec fn decoded_from(&self, j: JsonValue) -> bool {
        &&& j is Object
        &&& i32_field(j, "prompt_tokens"@) == Some(self.prompt_tokens as int)
        &&& i32_field(j, "total_tokens"@) == Some(self.total_tokens as int)
    }

    fn from_json(j: &Json) -> (r: Result<Usage, APIError>) {
        expect_object(j, "Usage")?;
        let prompt_tokens = read_i32(j, "prompt_tokens")?;
        let total_tokens = read_i32(j, "total_tokens")?;
        Ok(Usage { prompt_tokens, total_tokens })
    }
}

} // verus!
