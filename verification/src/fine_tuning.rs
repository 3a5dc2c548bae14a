//! Fine-tuning: jobs that tune a model on training data, and their events.

use crate::error::APIError;
use crate::fields::{
    bool_field, expect_object, int_field, lemma_member_after_write, lemma_no_null_after_write,
    no_members, no_null_member, object, opt_int_field, opt_int_json, opt_int_value,
    opt_int_view, opt_text_field, opt_text_json, opt_text_value, put, read_bool, read_int,
    read_opt_int, read_opt_text, read_text, read_text_list, text_field, text_json,
    text_list_field, with_member,
};
use crate::json::{Json, JsonValue};
use crate::resource::{
    list_from, nested_from, opt_json, opt_nested_from, opt_value, read_nested,
    read_nested_list, read_opt_nested, Decode, Encode, Enveloped, RoundTrip,
};
use crate::string_map::StringMap;
use vstd::prelude::*;
use vstd::string::*;

verus! {

/// The hyperparameters of a fine-tuning job.
#[derive(Clone, Debug)]
pub struct HyperParameters {
    /// The batch size.
    pub batch_size: Option<String>,
    /// The multiplier of the learning rate.
    pub learning_rate_multiplier: Option<String>,
    /// The number of epochs.
    pub n_epochs: Option<String>,
}

impl Encode for HyperParameters {
    open spec fn encoding(&self) -> JsonValue {
        JsonValue::Object(
            with_member(
                with_member(
                    with_member(
                        Seq::empty(),
                        "batch_size"@,
                        opt_text_value(self.batch_size.deep_view()),
                    ),
                    "learning_rate_multiplier"@,
                    opt_text_value(self.learning_rate_multiplier.deep_view()),
                ),
                "n_epochs"@,
                opt_text_value(self.n_epochs.deep_view()),
            ),
        )
    }

    fn to_json(&self) -> (r: Json) {
        let mut members = no_members();
        put(&mut members, "batch_size", opt_text_json(&self.batch_size));
        put(
            &mut members,
            "learning_rate_multiplier",
            opt_text_json(&self.learning_rate_multiplier),
        );
        put(&mut members, "n_epochs", opt_text_json(&self.n_epochs));
        object(members)
    }
}

impl Decode for HyperParameters {
    open spec fn decoded_from(&self, j: JsonValue) -> bool {
        &&& j is Object
        &&& opt_text_field(j, "batch_size"@) == Some(self.batch_size.deep_view())
        &&& opt_text_field(j, "learning_rate_multiplier"@)
            == Some(self.learning_rate_multiplier.deep_view())
        &&& opt_text_field(j, "n_epochs"@) == Some(self.n_epochs.deep_view())
    }

    fn from_json(j: &Json) -> (r: Result<HyperParameters, APIError>) {
        expect_object(j, "HyperParameters")?;
        let batch_size = read_opt_text(j, "batch_size")?;
        let learning_rate_multiplier = read_opt_text(j, "learning_rate_multiplier")?;
        let n_epochs = read_opt_text(j, "n_epochs")?;
        Ok(HyperParameters { batch_size, learning_rate_multiplier, n_epochs })
    }
}

impl RoundTrip for HyperParameters {
    proof fn lemma_round_trip(&self) {
        broadcast use lemma_member_after_write;

        reveal_strlit("batch_size");
        reveal_strlit("learning_rate_multiplier");
        reveal_strlit("n_epochs");
        assert("batch_size"@.len() == 10);
        assert("learning_rate_multiplier"@.len() == 24);
        assert("n_epochs"@.len() == 8);
    }
}

impl HyperParameters {
    /// On the wire a field that is set is a member of the object, a field
    /// that is not set is no member at all, and no member is `null`.
    pub proof fn lemma_unset_fields_are_omitted(&self)
        ensures
            no_null_member(self.encoding()->Object_0),
            self.encoding().member("batch_size"@) is Some <==> self.batch_size is Some,
            self.encoding().member("learning_rate_multiplier"@) is Some
                <==> self.learning_rate_multiplier is Some,
            self.encoding().member("n_epochs"@) is Some <==> self.n_epochs is Some,
    {
        broadcast use {lemma_member_after_write, lemma_no_null_after_write};

        reveal_strlit("batch_size");
        reveal_strlit("learning_rate_multiplier");
        reveal_strlit("n_epochs");
        assert("batch_size"@.len() == 10);
        assert("learning_rate_multiplier"@.len() == 24);
        assert("n_epochs"@.len() == 8);
    }
}

/// The request that creates a fine-tuning job.
#[derive(Debug, Clone)]
pub struct CreateFineTuningJobRequest {
    /// The model to tune.
    pub model: String,
    /// The identifier of the file with the training data.
    pub training_file: String,
    /// The hyperparameters of the job.
    pub hyperparameters: Option<HyperParameters>,
    /// A suffix for the name of the tuned model.
    pub suffix: Option<String>,
    /// The identifier of the file with the validation data.
    pub validation_file: Option<String>,
}

impl CreateFineTuningJobRequest {
    /// A request to tune `model` on `training_file`.
    pub fn new(model: String, training_file: String) -> (r: CreateFineTuningJobRequest)
        ensures
            r == (CreateFineTuningJobRequest { 
                model,
                training_file,
                hyperparameters: None,
                suffix: None,
                validation_file: None,
             }),
    {
        CreateFineTuningJobRequest { 
            model,
            training_file,
            hyperparameters: None,
            suffix: None,
            validation_file: None,
         }
    }

    /// Sets `hyperparameters`.
    pub fn hyperparameters(
        self,
        hyperparameters: HyperParameters,
    ) -> (r: CreateFineTuningJobRequest)
        ensures
            r == (CreateFineTuningJobRequest { hyperparameters: Some(hyperparameters), ..self }),
    {
        let mut r = self;
        r.hyperparameters = Some(hyperparameters);
        r
    }

    /// Sets `suffix`.
    pub fn suffix(self, suffix: String) -> (r: CreateFineTuningJobRequest)
        ensures
            r == (CreateFineTuningJobRequest { suffix: Some(suffix), ..self }),
    {
        let mut r = self;
        r.suffix = Some(suffix);
        r
    }

    /// Sets `validation_file`.
    pub fn validation_file(self, validation_file: String) -> (r: CreateFineTuningJobRequest)
        ensures
            r == (CreateFineTuningJobRequest { validation_file: Some(validation_file), ..self }),
    {
        let mut r = self;
        r.validation_file = Some(validation_file);
        r
    }
}

impl Encode for CreateFineTuningJobRequest {
    open spec fn encoding(&self) -> JsonValue {
        JsonValue::Object(
            with_member(
                with_member(
                    with_member(
                        with_member(
                            with_member(
                                Seq::empty(),
                                "model"@,
                                Some(JsonValue::Text(self.model@)),
                            ),
                            "training_file"@,
                            Some(JsonValue::Text(self.training_file@)),
                        ),
                        "hyperparameters"@,
                        opt_value(self.hyperparameters),
                    ),
                    "suffix"@,
                    opt_text_value(self.suffix.deep_view()),
                ),
                "validation_file"@,
                opt_text_value(self.validation_file.deep_view()),
            ),
        )
    }

    fn to_json(&self) -> (r: Json) {
        let mut members = no_members();
        put(&mut members, "model", text_json(&self.model));
        put(&mut members, "training_file", text_json(&self.training_file));
        put(&mut members, "hyperparameters", opt_json(&self.hyperparameters));
        put(&mut members, "suffix", opt_text_json(&self.suffix));
        put(&mut members, "validation_file", opt_text_json(&self.validation_file));
        object(members)
    }
}

impl Decode for CreateFineTuningJobRequest {
    open spec fn decoded_from(&self, j: JsonValue) -> bool {
        &&& j is Object
        &&& text_field(j, "model"@) == Some(self.model@)
        &&& text_field(j, "training_file"@) == Some(self.training_file@)
        &&& opt_nested_from(self.hyperparameters, j, "hyperparameters"@)
        &&& opt_text_field(j, "suffix"@) == Some(self.suffix.deep_view())
        &&& opt_text_field(j, "validation_file"@) == Some(self.validation_file.deep_view())
    }

    fn from_json(j: &Json) -> (r: Result<CreateFineTuningJobRequest, APIError>) {
        expect_object(j, "CreateFineTuningJobRequest")?;
        let model = read_text(j, "model")?;
        let training_file = read_text(j, "training_file")?;
        let hyperparameters = read_opt_nested::<HyperParameters>(j, "hyperparameters")?;
        let suffix = read_opt_text(j, "suffix")?;
        let validation_file = read_opt_text(j, "validation_file")?;
        Ok(
            CreateFineTuningJobRequest {
                model,
                training_file,
                hyperparameters,
                suffix,
                validation_file,
            },
        )
    }
}

impl RoundTrip for CreateFineTuningJobRequest {
    proof fn lemma_round_trip(&self) {
        broadcast use lemma_member_after_write;

        reveal_strlit("model");
        reveal_strlit("training_file");
        reveal_strlit("hyperparameters");
        reveal_strlit("suffix");
        reveal_strlit("validation_file");
        assert("model"@.len() == 5);
        assert("training_file"@.len() == 13);
        assert("hyperparameters"@.len() == 15);
        assert("suffix"@.len() == 6);
        assert("validation_file"@.len() == 15);
        assert("hyperparameters"@[0] != "validation_file"@[0]);
        if self.hyperparameters is Some {
            self.hyperparameters->Some_0.lemma_round_trip();
        }
    }
}

impl CreateFineTuningJobRequest {
    /// On the wire a field that is set is a member of the object, a field
    /// that is not set is no member at all, and no member is `null`.
    pub proof fn lemma_unset_fields_are_omitted(&self)
        ensures
            no_null_member(self.encoding()->Object_0),
            self.encoding().member("model"@) is Some,
            self.encoding().member("training_file"@) is Some,
            self.encoding().member("hyperparameters"@) is Some <==> self.hyperparameters is Some,
            self.encoding().member("suffix"@) is Some <==> self.suffix is Some,
            self.encoding().member("validation_file"@) is Some <==> self.validation_file is Some,
    {
        broadcast use {lemma_member_after_write, lemma_no_null_after_write};

        reveal_strlit("model");
        reveal_strlit("training_file");
        reveal_strlit("hyperparameters");
        reveal_strlit("suffix");
        reveal_strlit("validation_file");
        assert("model"@.len() == 5);
        assert("training_file"@.len() == 13);
        assert("hyperparameters"@.len() == 15);
        assert("suffix"@.len() == 6);
        assert("validation_file"@.len() == 15);
        assert("hyperparameters"@[0] != "validation_file"@[0]);
        if self.hyperparameters is Some {
            self.hyperparameters->Some_0.lemma_round_trip();
        }
    }
}

/// The request that lists fine-tuning jobs.
#[derive(Debug)]
pub struct ListFineTuningJobsRequest {
    /// The identifier of the job after which the list starts.
    pub after: Option<String>,
    /// The number of jobs to list.
    pub limit: Option<i64>,
}

impl ListFineTuningJobsRequest {
    /// A request with no option set.
    pub fn new() -> (r: ListFineTuningJobsRequest)
        ensures
            r == (ListFineTuningJobsRequest { after: None, limit: None }),
    {
        ListFineTuningJobsRequest { after: None, limit: None }
    }
}

impl Default for ListFineTuningJobsRequest {
    fn default() -> (r: ListFineTuningJobsRequest)
        ensures
            r == (ListFineTuningJobsRequest { after: None, limit: None }),
    {
        ListFineTuningJobsRequest::new()
    }
}

impl Encode for ListFineTuningJobsRequest {
    open spec fn encoding(&self) -> JsonValue {
        JsonValue::Object(
            with_member(
                with_member(
                    Seq::empty(),
                    "after"@,
                    opt_text_value(self.after.deep_view()),
                ),
                "limit"@,
                opt_int_value(opt_int_view(self.limit)),
            ),
        )
    }

    fn to_json(&self) -> (r: Json) {
        let mut members = no_members();
        put(&mut members, "after", opt_text_json(&self.after));
        put(&mut members, "limit", opt_int_json(self.limit));
        object(members)
    }
}

impl Decode for ListFineTuningJobsRequest {
    open spec fn decoded_from(&self, j: JsonValue) -> bool {
        &&& j is Object
        &&& opt_text_field(j, "after"@) == Some(self.after.deep_view())
        &&& opt_int_field(j, "limit"@) == Some(opt_int_view(self.limit))
    }

    fn from_json(j: &Json) -> (r: Result<ListFineTuningJobsRequest, APIError>) {
        expect_object(j, "ListFineTuningJobsRequest")?;
        let after = read_opt_text(j, "after")?;
        let limit = read_opt_int(j, "limit")?;
        Ok(ListFineTuningJobsRequest { after, limit })
    }
}

impl RoundTrip for ListFineTuningJobsRequest {
    proof fn lemma_round_trip(&self) {
        broadcast use lemma_member_after_write;

        reveal_strlit("after");
        reveal_strlit("limit");
        assert("after"@.len() == 5);
        assert("limit"@.len() == 5);
        assert("after"@[0] != "limit"@[0]);
    }
}

impl ListFineTuningJobsRequest {
    /// On the wire a field that is set is a member of the object, a field
    /// that is not set is no member at all, and no member is `null`.
    pub proof fn lemma_unset_fields_are_omitted(&self)
        ensures
            no_null_member(self.encoding()->Object_0),
            self.encoding().member("after"@) is Some <==> self.after is Some,
            self.encoding().member("limit"@) is Some <==> self.limit is Some,
    {
        broadcast use {lemma_member_after_write, lemma_no_null_after_write};

        reveal_strlit("after");
        reveal_strlit("limit");
        assert("after"@.len() == 5);
        assert("limit"@.len() == 5);
        assert("after"@[0] != "limit"@[0]);
    }
}

/// The request that lists the events of a fine-tuning job.
#[derive(Debug)]
pub struct ListFineTuningJobEventsRequest {
    /// The identifier of the job.
    pub fine_tuning_job_id: String,
    /// The identifier of the event after which the list starts.
    pub after: Option<String>,
    /// The number of events to list.
    pub limit: Option<i64>,
}

impl ListFineTuningJobEventsRequest {
    /// A request for the events of the job `fine_tuning_job_id`.
    pub fn new(fine_tuning_job_id: String) -> (r: ListFineTuningJobEventsRequest)
        ensures
            r == (ListFineTuningJobEventsRequest { 
                fine_tuning_job_id,
                after: None,
                limit: None,
             }),
    {
        ListFineTuningJobEventsRequest { fine_tuning_job_id, after: None, limit: None }
    }
}

impl Encode for ListFineTuningJobEventsRequest {
    open spec fn encoding(&self) -> JsonValue {
        JsonValue::Object(
            with_member(
                with_member(
                    with_member(
                        Seq::empty(),
                        "fine_tuning_job_id"@,
                        Some(JsonValue::Text(self.fine_tuning_job_id@)),
                    ),
                    "after"@,
                    opt_text_value(self.after.deep_view()),
                ),
                "limit"@,
                opt_int_value(opt_int_view(self.limit)),
            ),
        )
    }

    fn to_json(&self) -> (r: Json) {
        let mut members = no_members();
        put(&mut members, "fine_tuning_job_id", text_json(&self.fine_tuning_job_id));
        put(&mut members, "after", opt_text_json(&self.after));
        put(&mut members, "limit", opt_int_json(self.limit));
        object(members)
    }
}

impl Decode for ListFineTuningJobEventsRequest {
    open spec fn decoded_from(&self, j: JsonValue) -> bool {
        &&& j is Object
        &&& text_field(j, "fine_tuning_job_id"@) == Some(self.fine_tuning_job_id@)
        &&& opt_text_field(j, "after"@) == Some(self.after.deep_view())
        &&& opt_int_field(j, "limit"@) == Some(opt_int_view(self.limit))
    }

    fn from_json(j: &Json) -> (r: Result<ListFineTuningJobEventsRequest, APIError>) {
        expect_object(j, "ListFineTuningJobEventsRequest")?;
        let fine_tuning_job_id = read_text(j, "fine_tuning_job_id")?;
        let after = read_opt_text(j, "after")?;
        let limit = read_opt_int(j, "limit")?;
        Ok(ListFineTuningJobEventsRequest { fine_tuning_job_id, after, limit })
    }
}

impl RoundTrip for ListFineTuningJobEventsRequest {
    proof fn lemma_round_trip(&self) {
        broadcast use lemma_member_after_write;

        reveal_strlit("fine_tuning_job_id");
        reveal_strlit("after");
        reveal_strlit("limit");
        assert("fine_tuning_job_id"@.len() == 18);
        assert("after"@.len() == 5);
        assert("limit"@.len() == 5);
        assert("after"@[0] != "limit"@[0]);
    }
}

impl ListFineTuningJobEventsRequest {
    /// On the wire a field that is set is a member of the object, a field
    /// that is not set is no member at all, and no member is `null`.
    pub proof fn lemma_unset_fields_are_omitted(&self)
        ensures
            no_null_member(self.encoding()->Object_0),
            self.encoding().member("fine_tuning_job_id"@) is Some,
            self.encoding().member("after"@) is Some <==> self.after is Some,
            self.encoding().member("limit"@) is Some <==> self.limit is Some,
    {
        broadcast use {lemma_member_after_write, lemma_no_null_after_write};

        reveal_strlit("fine_tuning_job_id");
        reveal_strlit("after");
        reveal_strlit("limit");
        assert("fine_tuning_job_id"@.len() == 18);
        assert("after"@.len() == 5);
        assert("limit"@.len() == 5);
        assert("after"@[0] != "limit"@[0]);
    }
}

/// The request that retrieves a fine-tuning job.
#[derive(Debug)]
pub struct RetrieveFineTuningJobRequest {
    /// The identifier of the job.
    pub fine_tuning_job_id: String,
}

impl RetrieveFineTuningJobRequest {
    /// A request for the job `fine_tuning_job_id`.
    pub fn new(fine_tuning_job_id: String) -> (r: RetrieveFineTuningJobRequest)
        ensures
            r == (RetrieveFineTuningJobRequest { fine_tuning_job_id }),
    {
        RetrieveFineTuningJobRequest { fine_tuning_job_id }
    }
}

impl Encode for RetrieveFineTuningJobRequest {
    open spec fn encoding(&self) -> JsonValue {
        JsonValue::Object(
            with_member(
                Seq::empty(),
                "fine_tuning_job_id"@,
                Some(JsonValue::Text(self.fine_tuning_job_id@)),
            ),
        )
    }

    fn to_json(&self) -> (r: Json) {
        let mut members = no_members();
        put(&mut members, "fine_tuning_job_id", text_json(&self.fine_tuning_job_id));
        object(members)
    }
}

impl Decode for RetrieveFineTuningJobRequest {
    open spec fn decoded_from(&self, j: JsonValue) -> bool {
        &&& j is Object
        &&& text_field(j, "fine_tuning_job_id"@) == Some(self.fine_tuning_job_id@)
    }

    fn from_json(j: &Json) -> (r: Result<RetrieveFineTuningJobRequest, APIError>) {
        expect_object(j, "RetrieveFineTuningJobRequest")?;
        let fine_tuning_job_id = read_text(j, "fine_tuning_job_id")?;
        Ok(RetrieveFineTuningJobRequest { fine_tuning_job_id })
    }
}

impl RoundTrip for RetrieveFineTuningJobRequest {
    proof fn lemma_round_trip(&self) {
        broadcast use lemma_member_after_write;

        reveal_strlit("fine_tuning_job_id");
        assert("fine_tuning_job_id"@.len() == 18);
    }
}

impl RetrieveFineTuningJobRequest {
    /// On the wire a field that is set is a member of the object, a field
    /// that is not set is no member at all, and no member is `null`.
    pub proof fn lemma_unset_fields_are_omitted(&self)
        ensures
            no_null_member(self.encoding()->Object_0),
            self.encoding().member("fine_tuning_job_id"@) is Some,
    {
        broadcast use {lemma_member_after_write, lemma_no_null_after_write};

        reveal_strlit("fine_tuning_job_id");
        assert("fine_tuning_job_id"@.len() == 18);
    }
}

/// The request that cancels a fine-tuning job.
#[derive(Debug)]
pub struct CancelFineTuningJobRequest {
    /// The identifier of the job.
    pub fine_tuning_job_id: String,
}

impl CancelFineTuningJobRequest {
    /// A request to cancel the job `fine_tuning_job_id`.
    pub fn new(fine_tuning_job_id: String) -> (r: CancelFineTuningJobRequest)
        ensures
            r == (CancelFineTuningJobRequest { fine_tuning_job_id }),
    {
        CancelFineTuningJobRequest { fine_tuning_job_id }
    }
}

impl Encode for CancelFineTuningJobRequest {
    open spec fn encoding(&self) -> JsonValue {
        JsonValue::Object(
            with_member(
                Seq::empty(),
                "fine_tuning_job_id"@,
                Some(JsonValue::Text(self.fine_tuning_job_id@)),
            ),
        )
    }

    fn to_json(&self) -> (r: Json) {
        let mut members = no_members();
        put(&mut members, "fine_tuning_job_id", text_json(&self.fine_tuning_job_id));
        object(members)
    }
}

impl Decode for CancelFineTuningJobRequest {
    open spec fn decoded_from(&self, j: JsonValue) -> bool {
        &&& j is Object
        &&& text_field(j, "fine_tuning_job_id"@) == Some(self.fine_tuning_job_id@)
    }

    fn from_json(j: &Json) -> (r: Result<CancelFineTuningJobRequest, APIError>) {
        expect_object(j, "CancelFineTuningJobRequest")?;
        let fine_tuning_job_id = read_text(j, "fine_tuning_job_id")?;
        Ok(CancelFineTuningJobRequest { fine_tuning_job_id })
    }
}

impl RoundTrip for CancelFineTuningJobRequest {
    proof fn lemma_round_trip(&self) {
        broadcast use lemma_member_after_write;

        reveal_strlit("fine_tuning_job_id");
        assert("fine_tuning_job_id"@.len() == 18);
    }
}

impl CancelFineTuningJobRequest {
    /// On the wire a field that is set is a member of the object, a field
    /// that is not set is no member at all, and no member is `null`.
    pub proof fn lemma_unset_fields_are_omitted(&self)
        ensures
            no_null_member(self.encoding()->Object_0),
            self.encoding().member("fine_tuning_job_id"@) is Some,
    {
        broadcast use {lemma_member_after_write, lemma_no_null_after_write};

        reveal_strlit("fine_tuning_job_id");
        assert("fine_tuning_job_id"@.len() == 18);
    }
}

/// One page of a list of fine-tuning objects.
#[derive(Debug)]
pub struct FineTuningPagination<T> {
    /// The kind of object, `list`.
    pub object: String,
    /// The objects of the page.
    pub data: Vec<T>,
    /// Whether more objects follow.
    pub has_more: bool,
    /// The headers of the response that carried this object.
    pub headers: Option<StringMap>,
}

impl<T: Decode> Decode for FineTuningPagination<T> {
    open spec fn decoded_from(&self, j: JsonValue) -> bool {
        &&& j is Object
        &&& text_field(j, "object"@) == Some(self.object@)
        &&& list_from(self.data@, j, "data"@)
        &&& bool_field(j, "has_more"@) == Some(self.has_more)
    }

    fn from_json(j: &Json) -> (r: Result<FineTuningPagination<T>, APIError>)
        ensures
            r matches Ok(value) ==> value.headers is None,
    {
        expect_object(j, "FineTuningPagination")?;
        let object = read_text(j, "object")?;
        let data = read_nested_list::<T>(j, "data")?;
        let has_more = read_bool(j, "has_more")?;
        Ok(FineTuningPagination { object, data, has_more, headers: None })
    }
}

impl<T: Decode> Enveloped for FineTuningPagination<T> {
    open spec fn envelope(&self) -> Option<Map<Seq<char>, Seq<char>>> {
        self.headers.deep_view()
    }

    fn with_headers(self, headers: StringMap) -> (r: FineTuningPagination<T>)
        ensures
            r == (FineTuningPagination { headers: Some(headers), ..self }),
    {
        let mut r = self;
        r.headers = Some(headers);
        r
    }
}

/// Why a fine-tuning job failed.
#[derive(Debug)]
pub struct FineTuningJobError {
    /// The code of the error.
    pub code: String,
    /// The message of the error.
    pub message: String,
    /// The parameter that the error is about.
    pub param: Option<String>,
}

impl Decode for FineTuningJobError {
    open spec fn decoded_from(&self, j: JsonValue) -> bool {
        &&& j is Object
        &&& text_field(j, "code"@) == Some(self.code@)
        &&& text_field(j, "message"@) == Some(self.message@)
        &&& opt_text_field(j, "param"@) == Some(self.param.deep_view())
    }

    fn from_json(j: &Json) -> (r: Result<FineTuningJobError, APIError>) {
        expect_object(j, "FineTuningJobError")?;
        let code = read_text(j, "code")?;
        let message = read_text(j, "message")?;
        let param = read_opt_text(j, "param")?;
        Ok(FineTuningJobError { code, message, param })
    }
}

/// A fine-tuning job, as the service describes it.
#[derive(Debug)]
pub struct FineTuningJobObject {
    /// The identifier that the service gave the job.
    pub id: String,
    /// When the job was created, in seconds since the epoch.
    pub created_at: i64,
    /// Why the job failed.
    pub error: Option<FineTuningJobError>,
    /// The name of the tuned model.
    pub fine_tuned_model: Option<String>,
    /// When the job finished.
    pub finished_at: Option<String>,
    /// The hyperparameters of the job.
    pub hyperparameters: HyperParameters,
    /// The model that is tuned.
    pub model: String,
    /// The kind of object, `fine_tuning.job`.
    pub object: String,
    /// The organization that owns the job.
    pub organization_id: String,
    /// The identifiers of the files with the results.
    pub result_files: Vec<String>,
    /// The status of the job.
    pub status: String,
    /// The number of tokens that were trained on.
    pub trained_tokens: Option<i64>,
    /// The identifier of the file with the training data.
    pub training_file: String,
    /// The identifier of the file with the validation data.
    pub validation_file: Option<String>,
    /// The headers of the response that carried this object.
    pub headers: Option<StringMap>,
}

impl Decode for FineTuningJobObject {
    open spec fn decoded_from(&self, j: JsonValue) -> bool {
        &&& j is Object
        &&& text_field(j, "id"@) == Some(self.id@)
        &&& int_field(j, "created_at"@) == Some(self.created_at as int)
        &&& opt_nested_from(self.error, j, "error"@)
        &&& opt_text_field(j, "fine_tuned_model"@) == Some(self.fine_tuned_model.deep_view())
        &&& opt_text_field(j, "finished_at"@) == Some(self.finished_at.deep_view())
        &&& nested_from(self.hyperparameters, j, "hyperparameters"@)
        &&& text_field(j, "model"@) == Some(self.model@)
        &&& text_field(j, "object"@) == Some(self.object@)
        &&& text_field(j, "organization_id"@) == Some(self.organization_id@)
        &&& text_list_field(j, "result_files"@) == Some(self.result_files.deep_view())
        &&& text_field(j, "status"@) == Some(self.status@)
        &&& opt_int_field(j, "trained_tokens"@) == Some(opt_int_view(self.trained_tokens))
        &&& text_field(j, "training_file"@) == Some(self.training_file@)
        &&& opt_text_field(j, "validation_file"@) == Some(self.validation_file.deep_view())
    }

    fn from_json(j: &Json) -> (r: Result<FineTuningJobObject, APIError>)
        ensures
            r matches Ok(value) ==> value.headers is None,
    {
        expect_object(j, "FineTuningJobObject")?;
        let id = read_text(j, "id")?;
        let created_at = read_int(j, "created_at")?;
        let error = read_opt_nested::<FineTuningJobError>(j, "error")?;
        let fine_tuned_model = read_opt_text(j, "fine_tuned_model")?;
        let finished_at = read_opt_text(j, "finished_at")?;
        let hyperparameters = read_nested::<HyperParameters>(j, "hyperparameters")?;
        let model = read_text(j, "model")?;
        let object = read_text(j, "object")?;
        let organization_id = read_text(j, "organization_id")?;
        let result_files = read_text_list(j, "result_files")?;
        let status = read_text(j, "status")?;
        let trained_tokens = read_opt_int(j, "trained_tokens")?;
        let training_file = read_text(j, "training_file")?;
        let validation_file = read_opt_text(j, "validation_file")?;
        Ok(
            FineTuningJobObject {
                id,
                created_at,
                error,
                fine_tuned_model,
                finished_at,
                hyperparameters,
                model,
                object,
                organization_id,
                result_files,
                status,
                trained_tokens,
                training_file,
                validation_file,
                headers: None,
            },
        )
    }
}

impl Enveloped for FineTuningJobObject {
    open spec fn envelope(&self) -> Option<Map<Seq<char>, Seq<char>>> {
        self.headers.deep_view()
    }

    fn with_headers(self, headers: StringMap) -> (r: FineTuningJobObject)
        ensures
            r == (FineTuningJobObject { headers: Some(headers), ..self }),
    {
        let mut r = self;
        r.headers = Some(headers);
        r
    }
}

/// An event of a fine-tuning job.
#[derive(Debug)]
pub struct FineTuningJobEvent {
    /// The identifier of the event.
    pub id: String,
    /// When the event happened, in seconds since the epoch.
    pub created_at: i64,
    /// The level of the event.
    pub level: String,
    /// The message of the event.
    pub message: String,
    /// The kind of object, `fine_tuning.job.event`.
    pub object: String,
}

impl Decode for FineTuningJobEvent {
    open spec fn decoded_from(&self, j: JsonValue) -> bool {
        &&& j is Object
        &&& text_field(j, "id"@) == Some(self.id@)
        &&& int_field(j, "created_at"@) == Some(self.created_at as int)
        &&& text_field(j, "level"@) == Some(self.level@)
        &&& text_field(j, "message"@) == Some(self.message@)
        &&& text_field(j, "object"@) == Some(self.object@)
    }

    fn from_json(j: &Json) -> (r: Result<FineTuningJobEvent, APIError>) {
        expect_object(j, "FineTuningJobEvent")?;
        let id = read_text(j, "id")?;
        let created_at = read_int(j, "created_at")?;
        let level = read_text(j, "level")?;
        let message = read_text(j, "message")?;
        let object = read_text(j, "object")?;
        Ok(FineTuningJobEvent { id, created_at, level, message, object })
    }
}

} // verus!
