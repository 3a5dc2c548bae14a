//! Images: generating, editing and varying them.

use crate::error::APIError;
use crate::fields::{
    expect_object, int_field, lemma_member_after_write, lemma_no_null_after_write, no_members,
    no_null_member, object, opt_i32_field, opt_i32_json, opt_i32_view, opt_int_value,
    opt_text_field, opt_text_json, opt_text_value, put, read_int, read_opt_i32, read_opt_text,
    read_text, text_field, text_json, with_member,
};
use crate::json::{Json, JsonValue};
use crate::resource::{list_from, read_nested_list, Decode, Encode, Enveloped, RoundTrip};
use crate::string_map::StringMap;
use vstd::prelude::*;
use vstd::string::*;

verus! {

/// One image of an answer.
#[derive(Debug)]
pub struct ImageData {
    /// The address of the image.
    pub url: String,
}

impl Decode for ImageData {
    open spec fn decoded_from(&self, j: JsonValue) -> bool {
        &&& j is Object
        &&& text_field(j, "url"@) == Some(self.url@)
    }

    fn from_json(j: &Json) -> (r: Result<ImageData, APIError>) {
        expect_object(j, "ImageData")?;
        let url = read_text(j, "url")?;
        Ok(ImageData { url })
    }
}

/// The request that makes images from a prompt.
#[derive(Debug, Clone)]
pub struct ImageGenerationRequest {
    /// The description of the images.
    pub prompt: String,
    /// The model to use.
    pub model: Option<String>,
    /// The number of images to make.
    pub n: Option<i32>,
    /// The size of the images.
    pub size: Option<String>,
    /// The format in which the images are returned.
    pub response_format: Option<String>,
    /// An identifier of the end user.
    pub user: Option<String>,
}

impl ImageGenerationRequest {
    /// A request for images of `prompt` with no option set.
    pub fn new(prompt: String) -> (r: ImageGenerationRequest)
        ensures
            r == (ImageGenerationRequest { 
                prompt,
                model: None,
                n: None,
                size: None,
                response_format: None,
                user: None,
             }),
    {
        ImageGenerationRequest { 
            prompt,
            model: None,
            n: None,
            size: None,
            response_format: None,
            user: None,
         }
    }

    /// Sets `model`.
    pub fn model(self, model: String) -> (r: ImageGenerationRequest)
        ensures
            r == (ImageGenerationRequest { model: Some(model), ..self }),
    {
        let mut r = self;
        r.model = Some(model);
        r
    }

    /// Sets `n`.
    pub fn n(self, n: i32) -> (r: ImageGenerationRequest)
        ensures
            r == (ImageGenerationRequest { n: Some(n), ..self }),
    {
        let mut r = self;
        r.n = Some(n);
        r
    }

    /// Sets `size`.
    pub fn size(self, size: String) -> (r: ImageGenerationRequest)
        ensures
            r == (ImageGenerationRequest { size: Some(size), ..self }),
    {
        let mut r = self;
        r.size = Some(size);
        r
    }

    /// Sets `response_format`.
    pub fn response_format(self, response_format: String) -> (r: ImageGenerationRequest)
        ensures
            r == (ImageGenerationRequest { response_format: Some(response_format), ..self }),
    {
        let mut r = self;
        r.response_format = Some(response_format);
        r
    }

    /// Sets `user`.
    pub fn user(self, user: String) -> (r: ImageGenerationRequest)
        ensures
            r == (ImageGenerationRequest { user: Some(user), ..self }),
    {
        let mut r = self;
        r.user = Some(user);
        r
    }
}

impl Encode for ImageGenerationRequest {
    open spec fn encoding(&self) -> JsonValue {
        JsonValue::Object(
            with_member(
                with_member(
                    with_member(
                        with_member(
                            with_member(
                                with_member(
                                    Seq::empty(),
                                    "prompt"@,
                                    Some(JsonValue::Text(self.prompt@)),
                                ),
                                "model"@,
                                opt_text_value(self.model.deep_view()),
                            ),
                            "n"@,
                            opt_int_value(opt_i32_view(self.n)),
                        ),
                        "size"@,
                        opt_text_value(self.size.deep_view()),
                    ),
                    "response_format"@,
                    opt_text_value(self.response_format.deep_view()),
                ),
                "user"@,
                opt_text_value(self.user.deep_view()),
            ),
        )
    }

    fn to_json(&self) -> (r: Json) {
        let mut members = no_members();
        put(&mut members, "prompt", text_json(&self.prompt));
        put(&mut members, "model", opt_text_json(&self.model));
        put(&mut members, "n", opt_i32_json(self.n));
        put(&mut members, "size", opt_text_json(&self.size));
        put(&mut members, "response_format", opt_text_json(&self.response_format));
        put(&mut members, "user", opt_text_json(&self.user));
        object(members)
    }
}

impl Decode for ImageGenerationRequest {
    open spec fn decoded_from(&self, j: JsonValue) -> bool {
        &&& j is Object
        &&& text_field(j, "prompt"@) == Some(self.prompt@)
        &&& opt_text_field(j, "model"@) == Some(self.model.deep_view())
        &&& opt_i32_field(j, "n"@) == Some(opt_i32_view(self.n))
        &&& opt_text_field(j, "size"@) == Some(self.size.deep_view())
        &&& opt_text_field(j, "response_format"@) == Some(self.response_format.deep_view())
        &&& opt_text_field(j, "user"@) == Some(self.user.deep_view())
    }

    fn from_json(j: &Json) -> (r: Result<ImageGenerationRequest, APIError>) {
        expect_object(j, "ImageGenerationRequest")?;
        let prompt = read_text(j, "prompt")?;
        let model = read_opt_text(j, "model")?;
        let n = read_opt_i32(j, "n")?;
        let size = read_opt_text(j, "size")?;
        let response_format = read_opt_text(j, "response_format")?;
        let user = read_opt_text(j, "user")?;
        Ok(ImageGenerationRequest { prompt, model, n, size, response_format, user })
    }
}

impl RoundTrip for ImageGenerationRequest {
    proof fn lemma_round_trip(&self) {
        broadcast use lemma_member_after_write;

        reveal_strlit("prompt");
        reveal_strlit("model");
        reveal_strlit("n");
        reveal_strlit("size");
        reveal_strlit("response_format");
        reveal_strlit("user");
        assert("prompt"@.len() == 6);
        assert("model"@.len() == 5);
        assert("n"@.len() == 1);
        assert("size"@.len() == 4);
        assert("response_format"@.len() == 15);
        assert("user"@.len() == 4);
        assert("size"@[0] != "user"@[0]);
    }
}

impl ImageGenerationRequest {
    /// On the wire a field that is set is a member of the object, a field
    /// that is not set is no member at all, and no member is `null`.
    pub proof fn lemma_unset_fields_are_omitted(&self)
        ensures
            no_null_member(self.encoding()->Object_0),
            self.encoding().member("prompt"@) is Some,
            self.encoding().member("model"@) is Some <==> self.model is Some,
            self.encoding().member("n"@) is Some <==> self.n is Some,
            self.encoding().member("size"@) is Some <==> self.size is Some,
            self.encoding().member("response_format"@) is Some <==> self.response_format is Some,
            self.encoding().member("user"@) is Some <==> self.user is Some,
    {
        broadcast use {lemma_member_after_write, lemma_no_null_after_write};

        reveal_strlit("prompt");
        reveal_strlit("model");
        reveal_strlit("n");
        reveal_strlit("size");
        reveal_strlit("response_format");
        reveal_strlit("user");
        assert("prompt"@.len() == 6);
        assert("model"@.len() == 5);
        assert("n"@.len() == 1);
        assert("size"@.len() == 4);
        assert("response_format"@.len() == 15);
        assert("user"@.len() == 4);
        assert("size"@[0] != "user"@[0]);
    }
}

/// The answer to an image generation.
#[derive(Debug)]
pub struct ImageGenerationResponse {
    /// When the images were made, in seconds since the epoch.
    pub created: i64,
    /// The images.
    pub data: Vec<ImageData>,
    /// The headers of the response that carried this object.
    pub headers: Option<StringMap>,
}

impl Decode for ImageGenerationResponse {
    open spec fn decoded_from(&self, j: JsonValue) -> bool {
        &&& j is Object
        &&& int_field(j, "created"@) == Some(self.created as int)
        &&& list_from(self.data@, j, "data"@)
    }

    fn from_json(j: &Json) -> (r: Result<ImageGenerationResponse, APIError>)
        ensures
            r matches Ok(value) ==> value.headers is None,
    {
        expect_object(j, "ImageGenerationResponse")?;
        let created = read_int(j, "created")?;
        let data = read_nested_list::<ImageData>(j, "data")?;
        Ok(ImageGenerationResponse { created, data, headers: None })
    }
}

impl Enveloped for ImageGenerationResponse {
    open spec fn envelope(&self) -> Option<Map<Seq<char>, Seq<char>>> {
        self.headers.deep_view()
    }

    fn with_headers(self, headers: StringMap) -> (r: ImageGenerationResponse)
        ensures
            r == (ImageGenerationResponse { headers: Some(headers), ..self }),
    {
        let mut r = self;
        r.headers = Some(headers);
        r
    }
}

/// The request that edits an image after a prompt.
#[derive(Debug, Clone)]
pub struct ImageEditRequest {
    /// The image to edit.
    pub image: String,
    /// The mask that marks where to edit.
    pub mask: Option<String>,
    /// The description of the result.
    pub prompt: String,
    /// The model to use.
    pub model: Option<String>,
    /// The number of images to make.
    pub n: Option<i32>,
    /// The size of the images.
    pub size: Option<String>,
    /// The format in which the images are returned.
    pub response_format: Option<String>,
    /// An identifier of the end user.
    pub user: Option<String>,
}

impl ImageEditRequest {
    /// A request to edit `image` after `prompt` with no option set.
    pub fn new(image: String, prompt: String) -> (r: ImageEditRequest)
        ensures
            r == (ImageEditRequest { 
                image,
                mask: None,
                prompt,
                model: None,
                n: None,
                size: None,
                response_format: None,
                user: None,
             }),
    {
        ImageEditRequest { 
            image,
            mask: None,
            prompt,
            model: None,
            n: None,
            size: None,
            response_format: None,
            user: None,
         }
    }

    /// Sets `mask`.
    pub fn mask(self, mask: String) -> (r: ImageEditRequest)
        ensures
            r == (ImageEditRequest { mask: Some(mask), ..self }),
    {
        let mut r = self;
        r.mask = Some(mask);
        r
    }

    /// Sets `model`.
    pub fn model(self, model: String) -> (r: ImageEditRequest)
        ensures
            r == (ImageEditRequest { model: Some(model), ..self }),
    {
        let mut r = self;
        r.model = Some(model);
        r
    }

    /// Sets `n`.
    pub fn n(self, n: i32) -> (r: ImageEditRequest)
        ensures
            r == (ImageEditRequest { n: Some(n), ..self }),
    {
        let mut r = self;
        r.n = Some(n);
        r
    }

    /// Sets `size`.
    pub fn size(self, size: String) -> (r: ImageEditRequest)
        ensures
            r == (ImageEditRequest { size: Some(size), ..self }),
    {
        let mut r = self;
        r.size = Some(size);
        r
    }

    /// Sets `response_format`.
    pub fn response_format(self, response_format: String) -> (r: ImageEditRequest)
        ensures
            r == (ImageEditRequest { response_format: Some(response_format), ..self }),
    {
        let mut r = self;
        r.response_format = Some(response_format);
        r
    }

    /// Sets `user`.
    pub fn user(self, user: String) -> (r: ImageEditRequest)
        ensures
            r == (ImageEditRequest { user: Some(user), ..self }),
    {
        let mut r = self;
        r.user = Some(user);
        r
    }
}

impl Encode for ImageEditRequest {
    open spec fn encoding(&self) -> JsonValue {
        JsonValue::Object(
            with_member(
                with_member(
                    with_member(
                        with_member(
                            with_member(
                                with_member(
                                    with_member(
                                        with_member(
                                            Seq::empty(),
                                            "image"@,
                                            Some(JsonValue::Text(self.image@)),
                                        ),
                                        "mask"@,
                                        opt_text_value(self.mask.deep_view()),
                                    ),
                                    "prompt"@,
                                    Some(JsonValue::Text(self.prompt@)),
                                ),
                                "model"@,
                                opt_text_value(self.model.deep_view()),
                            ),
                            "n"@,
                            opt_int_value(opt_i32_view(self.n)),
                        ),
                        "size"@,
                        opt_text_value(self.size.deep_view()),
                    ),
                    "response_format"@,
                    opt_text_value(self.response_format.deep_view()),
                ),
                "user"@,
                opt_text_value(self.user.deep_view()),
            ),
        )
    }

    fn to_json(&self) -> (r: Json) {
        let mut members = no_members();
        put(&mut members, "image", text_json(&self.image));
        put(&mut members, "mask", opt_text_json(&self.mask));
        put(&mut members, "prompt", text_json(&self.prompt));
        put(&mut members, "model", opt_text_json(&self.model));
        put(&mut members, "n", opt_i32_json(self.n));
        put(&mut members, "size", opt_text_json(&self.size));
        put(&mut members, "response_format", opt_text_json(&self.response_format));
        put(&mut members, "user", opt_text_json(&self.user));
        object(members)
    }
}

impl Decode for ImageEditRequest {
    open spec fn decoded_from(&self, j: JsonValue) -> bool {
        &&& j is Object
        &&& text_field(j, "image"@) == Some(self.image@)
        &&& opt_text_field(j, "mask"@) == Some(self.mask.deep_view())
        &&& text_field(j, "prompt"@) == Some(self.prompt@)
        &&& opt_text_field(j, "model"@) == Some(self.model.deep_view())
        &&& opt_i32_field(j, "n"@) == Some(opt_i32_view(self.n))
        &&& opt_text_field(j, "size"@) == Some(self.size.deep_view())
        &&& opt_text_field(j, "response_format"@) == Some(self.response_format.deep_view())
        &&& opt_text_field(j, "user"@) == Some(self.user.deep_view())
    }

    fn from_json(j: &Json) -> (r: Result<ImageEditRequest, APIError>) {
        expect_object(j, "ImageEditRequest")?;
        let image = read_text(j, "image")?;
        let mask = read_opt_text(j, "mask")?;
        let prompt = read_text(j, "prompt")?;
        let model = read_opt_text(j, "model")?;
        let n = read_opt_i32(j, "n")?;
        let size = read_opt_text(j, "size")?;
        let response_format = read_opt_text(j, "response_format")?;
        let user = read_opt_text(j, "user")?;
        Ok(ImageEditRequest { image, mask, prompt, model, n, size, response_format, user })
    }
}

impl RoundTrip for ImageEditRequest {
    proof fn lemma_round_trip(&self) {
        broadcast use lemma_member_after_write;

        reveal_strlit("image");
        reveal_strlit("mask");
        reveal_strlit("prompt");
        reveal_strlit("model");
        reveal_strlit("n");
        reveal_strlit("size");
        reveal_strlit("response_format");
        reveal_strlit("user");
        assert("image"@.len() == 5);
        assert("mask"@.len() == 4);
        assert("prompt"@.len() == 6);
        assert("model"@.len() == 5);
        assert("n"@.len() == 1);
        assert("size"@.len() == 4);
        assert("response_format"@.len() == 15);
        assert("user"@.len() == 4);
        assert("image"@[0] != "model"@[0]);
        assert("mask"@[0] != "size"@[0]);
        assert("mask"@[0] != "user"@[0]);
        assert("size"@[0] != "user"@[0]);
    }
}

impl ImageEditRequest {
    /// On the wire a field that is set is a member of the object, a field
    /// that is not set is no member at all, and no member is `null`.
    pub proof fn lemma_unset_fields_are_omitted(&self)
        ensures
            no_null_member(self.encoding()->Object_0),
            self.encoding().member("image"@) is Some,
            self.encoding().member("mask"@) is Some <==> self.mask is Some,
            self.encoding().member("prompt"@) is Some,
            self.encoding().member("model"@) is Some <==> self.model is Some,
            self.encoding().member("n"@) is Some <==> self.n is Some,
            self.encoding().member("size"@) is Some <==> self.size is Some,
            self.encoding().member("response_format"@) is Some <==> self.response_format is Some,
            self.encoding().member("user"@) is Some <==> self.user is Some,
    {
        broadcast use {lemma_member_after_write, lemma_no_null_after_write};

        reveal_strlit("image");
        reveal_strlit("mask");
        reveal_strlit("prompt");
        reveal_strlit("model");
        reveal_strlit("n");
        reveal_strlit("size");
        reveal_strlit("response_format");
        reveal_strlit("user");
        assert("image"@.len() == 5);
        assert("mask"@.len() == 4);
        assert("prompt"@.len() == 6);
        assert("model"@.len() == 5);
        assert("n"@.len() == 1);
        assert("size"@.len() == 4);
        assert("response_format"@.len() == 15);
        assert("user"@.len() == 4);
        assert("image"@[0] != "model"@[0]);
        assert("mask"@[0] != "size"@[0]);
        assert("mask"@[0] != "user"@[0]);
        assert("size"@[0] != "user"@[0]);
    }
}

/// The answer to an image edit.
#[derive(Debug)]
pub struct ImageEditResponse {
    /// When the images were made, in seconds since the epoch.
    pub created: i64,
    /// The images.
    pub data: Vec<ImageData>,
    /// The headers of the response that carried this object.
    pub headers: Option<StringMap>,
}

impl Decode for ImageEditResponse {
    open spec fn decoded_from(&self, j: JsonValue) -> bool {
        &&& j is Object
        &&& int_field(j, "created"@) == Some(self.created as int)
        &&& list_from(self.data@, j, "data"@)
    }

    fn from_json(j: &Json) -> (r: Result<ImageEditResponse, APIError>)
        ensures
            r matches Ok(value) ==> value.headers is None,
    {
        expect_object(j, "ImageEditResponse")?;
        let created = read_int(j, "created")?;
        let data = read_nested_list::<ImageData>(j, "data")?;
        Ok(ImageEditResponse { created, data, headers: None })
    }
}

impl Enveloped for ImageEditResponse {
    open spec fn envelope(&self) -> Option<Map<Seq<char>, Seq<char>>> {
        self.headers.deep_view()
    }

    fn with_headers(self, headers: StringMap) -> (r: ImageEditResponse)
        ensures
            r == (ImageEditResponse { headers: Some(headers), ..self }),
    {
        let mut r = self;
        r.headers = Some(headers);
        r
    }
}

/// The request that makes variations of an image.
#[derive(Debug, Clone)]
pub struct ImageVariationRequest {
    /// The image to vary.
    pub image: String,
    /// The number of images to make.
    pub n: Option<i32>,
    /// The model to use.
    pub model: Option<String>,
    /// The size of the images.
    pub size: Option<String>,
    /// The format in which the images are returned.
    pub response_format: Option<String>,
    /// An identifier of the end user.
    pub user: Option<String>,
}

impl ImageVariationRequest {
    /// A request for variations of `image` with no option set.
    pub fn new(image: String) -> (r: ImageVariationRequest)
        ensures
            r == (ImageVariationRequest { 
                image,
                n: None,
                model: None,
                size: None,
                response_format: None,
                user: None,
             }),
    {
        ImageVariationRequest { 
            image,
            n: None,
            model: None,
            size: None,
            response_format: None,
            user: None,
         }
    }

    /// Sets `model`.
    pub fn model(self, model: String) -> (r: ImageVariationRequest)
        ensures
            r == (ImageVariationRequest { model: Some(model), ..self }),
    {
        let mut r = self;
        r.model = Some(model);
        r
    }

    /// Sets `n`.
    pub fn n(self, n: i32) -> (r: ImageVariationRequest)
        ensures
            r == (ImageVariationRequest { n: Some(n), ..self }),
    {
        let mut r = self;
        r.n = Some(n);
        r
    }

    /// Sets `size`.
    pub fn size(self, size: String) -> (r: ImageVariationRequest)
        ensures
            r == (ImageVariationRequest { size: Some(size), ..self }),
    {
        let mut r = self;
        r.size = Some(size);
        r
    }

    /// Sets `response_format`.
    pub fn response_format(self, response_format: String) -> (r: ImageVariationRequest)
        ensures
            r == (ImageVariationRequest { response_format: Some(response_format), ..self }),
    {
        let mut r = self;
        r.response_format = Some(response_format);
        r
    }

    /// Sets `user`.
    pub fn user(self, user: String) -> (r: ImageVariationRequest)
        ensures
            r == (ImageVariationRequest { user: Some(user), ..self }),
    {
        let mut r = self;
        r.user = Some(user);
        r
    }
}

impl Encode for ImageVariationRequest {
    open spec fn encoding(&self) -> JsonValue {
        JsonValue::Object(
            with_member(
                with_member(
                    with_member(
                        with_member(
                            with_member(
                                with_member(
                                    Seq::empty(),
                                    "image"@,
                                    Some(JsonValue::Text(self.image@)),
                                ),
                                "n"@,
                                opt_int_value(opt_i32_view(self.n)),
                            ),
                            "model"@,
                            opt_text_value(self.model.deep_view()),
                        ),
                        "size"@,
                        opt_text_value(self.size.deep_view()),
                    ),
                    "response_format"@,
                    opt_text_value(self.response_format.deep_view()),
                ),
                "user"@,
                opt_text_value(self.user.deep_view()),
            ),
        )
    }

    fn to_json(&self) -> (r: Json) {
        let mut members = no_members();
        put(&mut members, "image", text_json(&self.image));
        put(&mut members, "n", opt_i32_json(self.n));
        put(&mut members, "model", opt_text_json(&self.model));
        put(&mut members, "size", opt_text_json(&self.size));
        put(&mut members, "response_format", opt_text_json(&self.response_format));
        put(&mut members, "user", opt_text_json(&self.user));
        object(members)
    }
}

impl Decode for ImageVariationRequest {
    open spec fn decoded_from(&self, j: JsonValue) -> bool {
        &&& j is Object
        &&& text_field(j, "image"@) == Some(self.image@)
        &&& opt_i32_field(j, "n"@) == Some(opt_i32_view(self.n))
        &&& opt_text_field(j, "model"@) == Some(self.model.deep_view())
        &&& opt_text_field(j, "size"@) == Some(self.size.deep_view())
        &&& opt_text_field(j, "response_format"@) == Some(self.response_format.deep_view())
        &&& opt_text_field(j, "user"@) == Some(self.user.deep_view())
    }

    fn from_json(j: &Json) -> (r: Result<ImageVariationRequest, APIError>) {
        expect_object(j, "ImageVariationRequest")?;
        let image = read_text(j, "image")?;
        let n = read_opt_i32(j, "n")?;
        let model = read_opt_text(j, "model")?;
        let size = read_opt_text(j, "size")?;
        let response_format = read_opt_text(j, "response_format")?;
        let user = read_opt_text(j, "user")?;
        Ok(ImageVariationRequest { image, n, model, size, response_format, user })
    }
}

impl RoundTrip for ImageVariationRequest {
    proof fn lemma_round_trip(&self) {
        broadcast use lemma_member_after_write;

        reveal_strlit("image");
        reveal_strlit("n");
        reveal_strlit("model");
        reveal_strlit("size");
        reveal_strlit("response_format");
        reveal_strlit("user");
        assert("image"@.len() == 5);
        assert("n"@.len() == 1);
        assert("model"@.len() == 5);
        assert("size"@.len() == 4);
        assert("response_format"@.len() == 15);
        assert("user"@.len() == 4);
        assert("image"@[0] != "model"@[0]);
        assert("size"@[0] != "user"@[0]);
    }
}

impl ImageVariationRequest {
    /// On the wire a field that is set is a member of the object, a field
    /// that is not set is no member at all, and no member is `null`.
    pub proof fn lemma_unset_fields_are_omitted(&self)
        ensures
            no_null_member(self.encoding()->Object_0),
            self.encoding().member("image"@) is Some,
            self.encoding().member("n"@) is Some <==> self.n is Some,
            self.encoding().member("model"@) is Some <==> self.model is Some,
            self.encoding().member("size"@) is Some <==> self.size is Some,
            self.encoding().member("response_format"@) is Some <==> self.response_format is Some,
            self.encoding().member("user"@) is Some <==> self.user is Some,
    {
        broadcast use {lemma_member_after_write, lemma_no_null_after_write};

        reveal_strlit("image");
        reveal_strlit("n");
        reveal_strlit("model");
        reveal_strlit("size");
        reveal_strlit("response_format");
        reveal_strlit("user");
        assert("image"@.len() == 5);
        assert("n"@.len() == 1);
        assert("model"@.len() == 5);
        assert("size"@.len() == 4);
        assert("response_format"@.len() == 15);
        assert("user"@.len() == 4);
        assert("image"@[0] != "model"@[0]);
        assert("size"@[0] != "user"@[0]);
    }
}

/// The answer to an image variation.
#[derive(Debug)]
pub struct ImageVariationResponse {
    /// When the images were made, in seconds since the epoch.
    pub created: i64,
    /// The images.
    pub data: Vec<ImageData>,
    /// The headers of the response that carried this object.
    pub headers: Option<StringMap>,
}

impl Decode for ImageVariationResponse {
    open spec fn decoded_from(&self, j: JsonValue) -> bool {
        &&& j is Object
        &&& int_field(j, "created"@) == Some(self.created as int)
        &&& list_from(self.data@, j, "data"@)
    }

    fn from_json(j: &Json) -> (r: Result<ImageVariationResponse, APIError>)
        ensures
            r matches Ok(value) ==> value.headers is None,
    {
        expect_object(j, "ImageVariationResponse")?;
        let created = read_int(j, "created")?;
        let data = read_nested_list::<ImageData>(j, "data")?;
        Ok(ImageVariationResponse { created, data, headers: None })
    }
}

impl Enveloped for ImageVariationResponse {
    open spec fn envelope(&self) -> Option<Map<Seq<char>, Seq<char>>> {
        self.headers.deep_view()
    }

    fn with_headers(self, headers: StringMap) -> (r: ImageVariationResponse)
        ensures
            r == (ImageVariationResponse { headers: Some(headers), ..self }),
    {
        let mut r = self;
        r.headers = Some(headers);
        r
    }
}

} // verus!
