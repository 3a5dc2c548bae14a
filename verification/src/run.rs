//! Runs: one asynchronous execution of an assistant against a thread. This
//! module holds the status of a run with its state graph, the requests that
//! create and modify runs, and the objects that the service answers with, each
//! with its wire form.

use crate::error::APIError;
use crate::fields::{
    bool_field, expect_object, int_field, lemma_map_list_reads_back, lemma_map_reads_back,
    lemma_member_after_write, lemma_no_null_after_write, list_field, map_field, map_list_field,
    no_members, no_null_member, object, opt_int_field, opt_int_view, opt_map_field,
    opt_map_json, opt_map_list_field, opt_map_list_json, opt_map_list_value, opt_map_value,
    opt_text_field, opt_text_json, opt_text_value, put, read_bool, read_int, read_list,
    read_map, read_map_list, read_opt_int, read_opt_map, read_opt_map_list, read_opt_text,
    read_text, read_text_list, text_field, text_json, text_list_field, with_member,
};
use crate::json::{bad_field, Json, JsonValue};
use crate::resource::{
    all_decoded_from, opt_json, opt_nested_from, opt_value, read_items, read_opt_nested,
    Decode, Encode, Enveloped, RoundTrip,
};
use crate::string_map::StringMap;
use crate::text::same_text;
use crate::thread::CreateThreadRequest;
use vstd::prelude::*;
use vstd::string::*;

verus! {

/// The status of a run, as the remote service reports it.
#[derive(Debug, Clone, Copy, PartialEq, Eq, Structural)]
pub enum RunStatus {
    /// Created and waiting to be picked up. Every run starts here.
    Queued,
    /// Being executed.
    InProgress,
    /// Waiting for input of the caller (tool outputs); the service resumes
    /// once it has them.
    RequiresAction,
    /// A cancellation was requested and is being carried out.
    Cancelling,
    /// Cancelled. Terminal.
    Cancelled,
    /// Failed. Terminal.
    Failed,
    /// Completed. Terminal.
    Completed,
    /// Expired before it finished. Terminal.
    Expired,
}

impl RunStatus {
    /// The name of a status on the wire.
    pub open spec fn name(self) -> Seq<char> {
        match self {
            RunStatus::Queued => "queued"@,
            RunStatus::InProgress => "in_progress"@,
            RunStatus::RequiresAction => "requires_action"@,
            RunStatus::Cancelling => "cancelling"@,
            RunStatus::Cancelled => "cancelled"@,
            RunStatus::Failed => "failed"@,
            RunStatus::Completed => "completed"@,
            RunStatus::Expired => "expired"@,
        }
    }

    /// The status that a wire name stands for, if it is one of the eight.
    pub open spec fn named(text: Seq<char>) -> Option<RunStatus> {
        if text == "queued"@ {
            Some(RunStatus::Queued)
        } else if text == "in_progress"@ {
            Some(RunStatus::InProgress)
        } else if text == "requires_action"@ {
            Some(RunStatus::RequiresAction)
        } else if text == "cancelling"@ {
            Some(RunStatus::Cancelling)
        } else if text == "cancelled"@ {
            Some(RunStatus::Cancelled)
        } else if text == "failed"@ {
            Some(RunStatus::Failed)
        } else if text == "completed"@ {
            Some(RunStatus::Completed)
        } else if text == "expired"@ {
            Some(RunStatus::Expired)
        } else {
            None
        }
    }

    /// No transition leaves a terminal status.
    pub open spec fn terminal(self) -> bool {
        self is Cancelled || self is Failed || self is Completed || self is Expired
    }

    /// A wait ends on a settled status: a terminal one, or
    /// `requires_action`, which only the caller can resolve.
    pub open spec fn settled(self) -> bool {
        self.terminal() || self is RequiresAction
    }

    /// How far a status is along the life of a run: queued, running
    /// (in progress or waiting for the caller), being cancelled, over.
    pub open spec fn stage(self) -> nat {
        match self {
            RunStatus::Queued => 0,
            RunStatus::InProgress => 1,
            RunStatus::RequiresAction => 1,
            RunStatus::Cancelling => 2,
            _ => 3,
        }
    }

    /// The state graph: the single transitions that the service makes.
    pub open spec fn steps_to(self, next: RunStatus) -> bool {
        match self {
            RunStatus::Queued => next is InProgress || next is Cancelling || next is Failed
                || next is Expired,
            RunStatus::InProgress => next is RequiresAction || next is Cancelling
                || next is Completed || next is Failed || next is Expired,
            RunStatus::RequiresAction => next is InProgress || next is Cancelling
                || next is Failed || next is Expired,
            RunStatus::Cancelling => next is Cancelled || next is Completed || next is Failed
                || next is Expired,
            _ => false,
        }
    }

    /// `later` is reached from `self` by `n` transitions of the graph.
    pub open spec fn reaches_in(self, later: RunStatus, n: nat) -> bool
        decreases n,
    {
        if n == 0 {
            self == later
        } else {
            exists|mid: RunStatus| #[trigger]
                self.steps_to(mid) && mid.reaches_in(later, (n - 1) as nat)
        }
    }

    /// What two observations of one run, an earlier and a later one, can
    /// be: the same status, a later stage, or the two running statuses in
    /// either order.
    pub open spec fn forward_to(self, later: RunStatus) -> bool {
        self == later || self.stage() < later.stage() || (self.stage() == 1 && later.stage() == 1)
    }

    /// The name of this status on the wire.
    pub fn as_str(&self) -> (r: &'static str)
        ensures
            r@ == self.name(),
    {
        match self {
            RunStatus::Queued => "queued",
            RunStatus::InProgress => "in_progress",
            RunStatus::RequiresAction => "requires_action",
            RunStatus::Cancelling => "cancelling",
            RunStatus::Cancelled => "cancelled",
            RunStatus::Failed => "failed",
            RunStatus::Completed => "completed",
            RunStatus::Expired => "expired",
        }
    }

    /// The status with the given wire name; `None` for any other text.
    pub fn from_str(text: &str) -> (r: Option<RunStatus>)
        ensures
            r == RunStatus::named(text@),
    {
        if same_text(text, "queued") {
            Some(RunStatus::Queued)
        } else if same_text(text, "in_progress") {
            Some(RunStatus::InProgress)
        } else if same_text(text, "requires_action") {
            Some(RunStatus::RequiresAction)
        } else if same_text(text, "cancelling") {
            Some(RunStatus::Cancelling)
        } else if same_text(text, "cancelled") {
            Some(RunStatus::Cancelled)
        } else if same_text(text, "failed") {
            Some(RunStatus::Failed)
        } else if same_text(text, "completed") {
            Some(RunStatus::Completed)
        } else if same_text(text, "expired") {
            Some(RunStatus::Expired)
        } else {
            None
        }
    }

    /// Whether the run is over.
    pub fn is_terminal(&self) -> (r: bool)
        ensures
            r == self.terminal(),
    {
        match self {
            RunStatus::Cancelled
            | RunStatus::Failed
            | RunStatus::Completed
            | RunStatus::Expired => true,
            _ => false,
        }
    }

    /// Whether a wait for this run ends here.
    pub fn is_settled(&self) -> (r: bool)
        ensures
            r == self.settled(),
    {
        match self {
            RunStatus::RequiresAction => true,
            _ => self.is_terminal(),
        }
    }

    /// Whether `later` can be observed on a run after `self` was.
    pub fn can_be_followed_by(&self, later: RunStatus) -> (r: bool)
        ensures
            r == self.forward_to(later),
    {
        let a = self.stage_number();
        let b = later.stage_number();
        *self == later || a < b || (a == 1 && b == 1)
    }

    /// The stage of this status, as a number from 0 to 3.
    pub fn stage_number(&self) -> (r: u8)
        ensures
            r == self.stage(),
    {
        match self {
            RunStatus::Queued => 0,
            RunStatus::InProgress => 1,
            RunStatus::RequiresAction => 1,
            RunStatus::Cancelling => 2,
            _ => 3,
        }
    }
}

/// Every status is found again under its own name.
pub proof fn lemma_status_name_round_trip(status: RunStatus)
    ensures
        RunStatus::named(status.name()) == Some(status),
{
    reveal_strlit("queued");
    reveal_strlit("in_progress");
    reveal_strlit("requires_action");
    reveal_strlit("cancelling");
    reveal_strlit("cancelled");
    reveal_strlit("failed");
    reveal_strlit("completed");
    reveal_strlit("expired");
    assert("queued"@.len() == 6 && "in_progress"@.len() == 11);
    assert("requires_action"@.len() == 15 && "cancelling"@.len() == 10);
    assert("cancelled"@.len() == 9 && "failed"@.len() == 6);
    assert("completed"@.len() == 9 && "expired"@.len() == 7);
    assert("queued"@[0] != "failed"@[0]);
    assert("cancelled"@[1] != "completed"@[1]);
}

/// A chain of transitions only moves forward.
pub proof fn lemma_graph_moves_forward(from: RunStatus, to: RunStatus, n: nat)
    requires
        from.reaches_in(to, n),
    ensures
        from.forward_to(to),
        from.terminal() ==> to == from,
    decreases n,
{
    if n > 0 {
        let mid = choose|mid: RunStatus| #[trigger]
            from.steps_to(mid) && mid.reaches_in(to, (n - 1) as nat);
        lemma_graph_moves_forward(mid, to, (n - 1) as nat);
    }
}

/// Whatever moves forward is reached by a chain of transitions: by none,
/// by one, or by two through `in_progress` or `cancelling`.
pub proof fn lemma_forward_is_reachable(from: RunStatus, to: RunStatus)
    requires
        from.forward_to(to),
    ensures
        exists|n: nat| #[trigger] from.reaches_in(to, n),
{
    reveal_with_fuel(RunStatus::reaches_in, 3);
    if from == to {
        assert(from.reaches_in(to, 0));
    } else if from.steps_to(to) {
        assert(to.reaches_in(to, 0));
        assert(from.reaches_in(to, 1));
    } else {
        let mid = if to is Cancelled {
            RunStatus::Cancelling
        } else {
            RunStatus::InProgress
        };
        assert(to.reaches_in(to, 0));
        assert(mid.steps_to(to));
        assert(mid.reaches_in(to, 1));
        assert(from.steps_to(mid));
        assert(from.reaches_in(to, 2));
    }
}

/// Two observations of one run can follow each other exactly when the
/// graph leads from the first to the second.
pub proof fn lemma_forward_iff_reachable(from: RunStatus, to: RunStatus)
    ensures
        from.forward_to(to) <==> exists|n: nat| #[trigger] from.reaches_in(to, n),
{
    if from.forward_to(to) {
        lemma_forward_is_reachable(from, to);
    }
    if exists|n: nat| #[trigger] from.reaches_in(to, n) {
        let n = choose|n: nat| #[trigger] from.reaches_in(to, n);
        lemma_graph_moves_forward(from, to, n);
    }
}

/// A sequence of observations of one run is consistent when each follows
/// the one before by some chain of transitions of the graph.
pub open spec fn consistent_history(history: Seq<RunStatus>) -> bool {
    forall|i: int| 0 <= i < history.len() - 1 ==> #[trigger] linked(history, i)
}

/// The observation after position `i` follows the one at `i` by some chain
/// of transitions (possibly none).
pub open spec fn linked(history: Seq<RunStatus>, i: int) -> bool {
    exists|n: nat| #[trigger] history[i].reaches_in(history[i + 1], n)
}

/// In a consistent history the status only moves forward, and once it is
/// terminal every later observation shows the same status.
pub proof fn lemma_history_moves_forward(history: Seq<RunStatus>, i: int, j: int)
    requires
        consistent_history(history),
        0 <= i <= j < history.len(),
    ensures
        history[i].forward_to(history[j]),
        history[i].terminal() ==> history[j] == history[i],
    decreases j - i,
{
    if i < j {
        lemma_history_moves_forward(history, i, j - 1);
        assert(linked(history, j - 1));
        let n = choose|n: nat| #[trigger] history[j - 1].reaches_in(history[j - 1 + 1], n);
        lemma_graph_moves_forward(history[j - 1], history[j], n);
    }
}

/// The request that creates a run on a thread.
#[derive(Debug, Clone)]
pub struct CreateRunRequest {
    /// The assistant that is to execute the run.
    pub assistant_id: String,
    /// A model to use in place of the assistant's own.
    pub model: Option<String>,
    /// Instructions to use in place of the assistant's own.
    pub instructions: Option<String>,
    /// Tools to use in place of the assistant's own.
    pub tools: Option<Vec<StringMap>>,
    /// Free-form metadata.
    pub metadata: Option<StringMap>,
}

impl CreateRunRequest {
    /// A request for the given assistant with no option set.
    pub fn new(assistant_id: String) -> (r: CreateRunRequest)
        ensures
            r == (CreateRunRequest { 
                assistant_id,
                model: None,
                instructions: None,
                tools: None,
                metadata: None,
             }),
    {
        CreateRunRequest { 
            assistant_id,
            model: None,
            instructions: None,
            tools: None,
            metadata: None,
         }
    }

    /// Sets `model`.
    pub fn model(self, model: String) -> (r: CreateRunRequest)
        ensures
            r == (CreateRunRequest { model: Some(model), ..self }),
    {
        let mut r = self;
        r.model = Some(model);
        r
    }

    /// Sets `instructions`.
    pub fn instructions(self, instructions: String) -> (r: CreateRunRequest)
        ensures
            r == (CreateRunRequest { instructions: Some(instructions), ..self }),
    {
        let mut r = self;
        r.instructions = Some(instructions);
        r
    }

    /// Sets `tools`.
    pub fn tools(self, tools: Vec<StringMap>) -> (r: CreateRunRequest)
        ensures
            r == (CreateRunRequest { tools: Some(tools), ..self }),
    {
        let mut r = self;
        r.tools = Some(tools);
        r
    }

    /// Sets `metadata`.
    pub fn metadata(self, metadata: StringMap) -> (r: CreateRunRequest)
        ensures
            r == (CreateRunRequest { metadata: Some(metadata), ..self }),
    {
        let mut r = self;
        r.metadata = Some(metadata);
        r
    }
}

impl Encode for CreateRunRequest {
    open spec fn encoding(&self) -> JsonValue {
        JsonValue::Object(
            with_member(
                with_member(
                    with_member(
                        with_member(
                            with_member(
                                Seq::empty(),
                                "assistant_id"@,
                                Some(JsonValue::Text(self.assistant_id@)),
                            ),
                            "model"@,
                            opt_text_value(self.model.deep_view()),
                        ),
                        "instructions"@,
                        opt_text_value(self.instructions.deep_view()),
                    ),
                    "tools"@,
                    opt_map_list_value(self.tools),
                ),
                "metadata"@,
                opt_map_value(self.metadata),
            ),
        )
    }

    fn to_json(&self) -> (r: Json) {
        let mut members = no_members();
        put(&mut members, "assistant_id", text_json(&self.assistant_id));
        put(&mut members, "model", opt_text_json(&self.model));
        put(&mut members, "instructions", opt_text_json(&self.instructions));
        put(&mut members, "tools", opt_map_list_json(&self.tools));
        put(&mut members, "metadata", opt_map_json(&self.metadata));
        object(members)
    }
}

impl Decode for CreateRunRequest {
    open spec fn decoded_from(&self, j: JsonValue) -> bool {
        &&& j is Object
        &&& text_field(j, "assistant_id"@) == Some(self.assistant_id@)
        &&& opt_text_field(j, "model"@) == Some(self.model.deep_view())
        &&& opt_text_field(j, "instructions"@) == Some(self.instructions.deep_view())
        &&& opt_map_list_field(j, "tools"@) == Some(self.tools.deep_view())
        &&& opt_map_field(j, "metadata"@) == Some(self.metadata.deep_view())
    }

    fn from_json(j: &Json) -> (r: Result<CreateRunRequest, APIError>) {
        expect_object(j, "CreateRunRequest")?;
        let assistant_id = read_text(j, "assistant_id")?;
        let model = read_opt_text(j, "model")?;
        let instructions = read_opt_text(j, "instructions")?;
        let tools = read_opt_map_list(j, "tools")?;
        let metadata = read_opt_map(j, "metadata")?;
        Ok(CreateRunRequest { assistant_id, model, instructions, tools, metadata })
    }
}

impl RoundTrip for CreateRunRequest {
    proof fn lemma_round_trip(&self) {
        broadcast use lemma_member_after_write;

        reveal_strlit("assistant_id");
        reveal_strlit("model");
        reveal_strlit("instructions");
        reveal_strlit("tools");
        reveal_strlit("metadata");
        assert("assistant_id"@.len() == 12);
        assert("model"@.len() == 5);
        assert("instructions"@.len() == 12);
        assert("tools"@.len() == 5);
        assert("metadata"@.len() == 8);
        assert("assistant_id"@[0] != "instructions"@[0]);
        assert("model"@[0] != "tools"@[0]);
        if self.tools is Some {
            lemma_map_list_reads_back(self.tools->Some_0@);
        }
        if self.metadata is Some {
            lemma_map_reads_back(self.metadata->Some_0.pairs());
            self.metadata->Some_0.lemma_pairs();
        }
    }
}

impl CreateRunRequest {
    /// On the wire a field that is set is a member of the object, a field
    /// that is not set is no member at all, and no member is `null`.
    pub proof fn lemma_unset_fields_are_omitted(&self)
        ensures
            no_null_member(self.encoding()->Object_0),
            self.encoding().member("assistant_id"@) is Some,
            self.encoding().member("model"@) is Some <==> self.model is Some,
            self.encoding().member("instructions"@) is Some <==> self.instructions is Some,
            self.encoding().member("tools"@) is Some <==> self.tools is Some,
            self.encoding().member("metadata"@) is Some <==> self.metadata is Some,
    {
        broadcast use {lemma_member_after_write, lemma_no_null_after_write};

        reveal_strlit("assistant_id");
        reveal_strlit("model");
        reveal_strlit("instructions");
        reveal_strlit("tools");
        reveal_strlit("metadata");
        assert("assistant_id"@.len() == 12);
        assert("model"@.len() == 5);
        assert("instructions"@.len() == 12);
        assert("tools"@.len() == 5);
        assert("metadata"@.len() == 8);
        assert("assistant_id"@[0] != "instructions"@[0]);
        assert("model"@[0] != "tools"@[0]);
    }
}

/// The request that changes the metadata of a run. With nothing set it is also
/// the body of a cancellation.
#[derive(Debug, Clone)]
pub struct ModifyRunRequest {
    /// The new metadata.
    pub metadata: Option<StringMap>,
}

impl ModifyRunRequest {
    /// A request with no option set.
    pub fn new() -> (r: ModifyRunRequest)
        ensures
            r == (ModifyRunRequest { metadata: None }),
    {
        ModifyRunRequest { metadata: None }
    }

    /// Sets `metadata`.
    pub fn metadata(self, metadata: StringMap) -> (r: ModifyRunRequest)
        ensures
            r == (ModifyRunRequest { metadata: Some(metadata) }),
    {
        ModifyRunRequest { metadata: Some(metadata) }
    }
}

impl Default for ModifyRunRequest {
    fn default() -> (r: ModifyRunRequest)
        ensures
            r == (ModifyRunRequest { metadata: None }),
    {
        ModifyRunRequest::new()
    }
}

impl Encode for ModifyRunRequest {
    open spec fn encoding(&self) -> JsonValue {
        JsonValue::Object(
            with_member(
                Seq::empty(),
                "metadata"@,
                opt_map_value(self.metadata),
            ),
        )
    }

    fn to_json(&self) -> (r: Json) {
        let mut members = no_members();
        put(&mut members, "metadata", opt_map_json(&self.metadata));
        object(members)
    }
}

impl Decode for ModifyRunRequest {
    open spec fn decoded_from(&self, j: JsonValue) -> bool {
        &&& j is Object
        &&& opt_map_field(j, "metadata"@) == Some(self.metadata.deep_view())
    }

    fn from_json(j: &Json) -> (r: Result<ModifyRunRequest, APIError>) {
        expect_object(j, "ModifyRunRequest")?;
        let metadata = read_opt_map(j, "metadata")?;
        Ok(ModifyRunRequest { metadata })
    }
}

impl RoundTrip for ModifyRunRequest {
    proof fn lemma_round_trip(&self) {
        broadcast use lemma_member_after_write;

        reveal_strlit("metadata");
        assert("metadata"@.len() == 8);
        if self.metadata is Some {
            lemma_map_reads_back(self.metadata->Some_0.pairs());
            self.metadata->Some_0.lemma_pairs();
        }
    }
}

impl ModifyRunRequest {
    /// On the wire a field that is set is a member of the object, a field
    /// that is not set is no member at all, and no member is `null`.
    pub proof fn lemma_unset_fields_are_omitted(&self)
        ensures
            no_null_member(self.encoding()->Object_0),
            self.encoding().member("metadata"@) is Some <==> self.metadata is Some,
    {
        broadcast use {lemma_member_after_write, lemma_no_null_after_write};

        reveal_strlit("metadata");
        assert("metadata"@.len() == 8);
    }
}

/// The request that creates a thread and a run on it in one call.
#[derive(Debug, Clone)]
pub struct CreateThreadAndRunRequest {
    /// The assistant that is to execute the run.
    pub assistant_id: String,
    /// The thread to create.
    pub thread: Option<CreateThreadRequest>,
    /// A model to use in place of the assistant's own.
    pub model: Option<String>,
    /// Instructions to use in place of the assistant's own.
    pub instructions: Option<String>,
    /// Tools to use in place of the assistant's own.
    pub tools: Option<Vec<StringMap>>,
    /// Free-form metadata.
    pub metadata: Option<StringMap>,
}

impl Encode for CreateThreadAndRunRequest {
    open spec fn encoding(&self) -> JsonValue {
        JsonValue::Object(
            with_member(
                with_member(
                    with_member(
                        with_member(
                            with_member(
                                with_member(
                                    Seq::empty(),
                                    "assistant_id"@,
                                    Some(JsonValue::Text(self.assistant_id@)),
                                ),
                                "thread"@,
                                opt_value(self.thread),
                            ),
                            "model"@,
                            opt_text_value(self.model.deep_view()),
                        ),
                        "instructions"@,
                        opt_text_value(self.instructions.deep_view()),
                    ),
                    "tools"@,
                    opt_map_list_value(self.tools),
                ),
                "metadata"@,
                opt_map_value(self.metadata),
            ),
        )
    }

    fn to_json(&self) -> (r: Json) {
        let mut members = no_members();
        put(&mut members, "assistant_id", text_json(&self.assistant_id));
        put(&mut members, "thread", opt_json(&self.thread));
        put(&mut members, "model", opt_text_json(&self.model));
        put(&mut members, "instructions", opt_text_json(&self.instructions));
        put(&mut members, "tools", opt_map_list_json(&self.tools));
        put(&mut members, "metadata", opt_map_json(&self.metadata));
        object(members)
    }
}

impl Decode for CreateThreadAndRunRequest {
    open spec fn decoded_from(&self, j: JsonValue) -> bool {
        &&& j is Object
        &&& text_field(j, "assistant_id"@) == Some(self.assistant_id@)
        &&& opt_nested_from(self.thread, j, "thread"@)
        &&& opt_text_field(j, "model"@) == Some(self.model.deep_view())
        &&& opt_text_field(j, "instructions"@) == Some(self.instructions.deep_view())
        &&& opt_map_list_field(j, "tools"@) == Some(self.tools.deep_view())
        &&& opt_map_field(j, "metadata"@) == Some(self.metadata.deep_view())
    }

    fn from_json(j: &Json) -> (r: Result<CreateThreadAndRunRequest, APIError>) {
        expect_object(j, "CreateThreadAndRunRequest")?;
        let assistant_id = read_text(j, "assistant_id")?;
        let thread = read_opt_nested::<CreateThreadRequest>(j, "thread")?;
        let model = read_opt_text(j, "model")?;
        let instructions = read_opt_text(j, "instructions")?;
        let tools = read_opt_map_list(j, "tools")?;
        let metadata = read_opt_map(j, "metadata")?;
        Ok(
            CreateThreadAndRunRequest {
                assistant_id,
                thread,
                model,
                instructions,
                tools,
                metadata,
            },
        )
    }
}

impl RoundTrip for CreateThreadAndRunRequest {
    proof fn lemma_round_trip(&self) {
        broadcast use lemma_member_after_write;

        reveal_strlit("assistant_id");
        reveal_strlit("thread");
        reveal_strlit("model");
        reveal_strlit("instructions");
        reveal_strlit("tools");
        reveal_strlit("metadata");
        assert("assistant_id"@.len() == 12);
        assert("thread"@.len() == 6);
        assert("model"@.len() == 5);
        assert("instructions"@.len() == 12);
        assert("tools"@.len() == 5);
        assert("metadata"@.len() == 8);
        assert("assistant_id"@[0] != "instructions"@[0]);
        assert("model"@[0] != "tools"@[0]);
        if self.thread is Some {
            self.thread->Some_0.lemma_round_trip();
        }
        if self.tools is Some {
            lemma_map_list_reads_back(self.tools->Some_0@);
        }
        if self.metadata is Some {
            lemma_map_reads_back(self.metadata->Some_0.pairs());
            self.metadata->Some_0.lemma_pairs();
        }
    }
}

impl CreateThreadAndRunRequest {
    /// On the wire a field that is set is a member of the object, a field
    /// that is not set is no member at all, and no member is `null`.
    pub proof fn lemma_unset_fields_are_omitted(&self)
        ensures
            no_null_member(self.encoding()->Object_0),
            self.encoding().member("assistant_id"@) is Some,
            self.encoding().member("thread"@) is Some <==> self.thread is Some,
            self.encoding().member("model"@) is Some <==> self.model is Some,
            self.encoding().member("instructions"@) is Some <==> self.instructions is Some,
            self.encoding().member("tools"@) is Some <==> self.tools is Some,
            self.encoding().member("metadata"@) is Some <==> self.metadata is Some,
    {
        broadcast use {lemma_member_after_write, lemma_no_null_after_write};

        reveal_strlit("assistant_id");
        reveal_strlit("thread");
        reveal_strlit("model");
        reveal_strlit("instructions");
        reveal_strlit("tools");
        reveal_strlit("metadata");
        assert("assistant_id"@.len() == 12);
        assert("thread"@.len() == 6);
        assert("model"@.len() == 5);
        assert("instructions"@.len() == 12);
        assert("tools"@.len() == 5);
        assert("metadata"@.len() == 8);
        assert("assistant_id"@[0] != "instructions"@[0]);
        assert("model"@[0] != "tools"@[0]);
        if self.thread is Some {
            self.thread->Some_0.lemma_round_trip();
        }
    }
}

/// A run, as the service describes it at one moment.
///
/// The client never changes a run: it sees one snapshot per request.
#[derive(Debug, Clone)]
pub struct RunObject {
    /// The identifier that the service gave the run.
    pub id: String,
    /// The kind of object, `thread.run`.
    pub object: String,
    /// When the run was created, in seconds since the epoch.
    pub created_at: i64,
    /// The thread that the run operates on.
    pub thread_id: String,
    /// The assistant that executes the run.
    pub assistant_id: String,
    /// The status, by its wire name: always one of the eight names of
    /// [`RunStatus`] in a decoded run.
    pub status: String,
    /// What the run waits for while its status is `requires_action`.
    pub required_action: Option<StringMap>,
    /// The last error of the run.
    pub last_error: Option<String>,
    /// When the run expires.
    pub expires_at: Option<i64>,
    /// When the run was started.
    pub started_at: Option<i64>,
    /// When the run was cancelled.
    pub cancelled_at: Option<i64>,
    /// When the run failed.
    pub failed_at: Option<i64>,
    /// When the run was completed.
    pub completed_at: Option<i64>,
    /// The model that the run uses.
    pub model: String,
    /// The instructions that the run uses.
    pub instructions: Option<String>,
    /// The tools that the run uses.
    pub tools: Vec<StringMap>,
    /// The files that the run uses.
    pub file_ids: Vec<String>,
    /// Free-form metadata.
    pub metadata: StringMap,
    /// The headers of the response that carried this snapshot.
    pub headers: Option<StringMap>,
}

impl RunObject {
    /// The status of the snapshot, where its name is one of the eight.
    pub open spec fn status_model(self) -> Option<RunStatus> {
        RunStatus::named(self.status@)
    }

    /// The timestamps of the snapshot agree with its status. A timestamp
    /// is set only once its transition has happened, and nothing happens
    /// after an ending: so `completed_at`, `failed_at` and `cancelled_at`
    /// are set only in a snapshot with that very status, and `started_at`
    /// only in one that is past `queued`.
    pub open spec fn coherent(self) -> bool {
        &&& self.status_model() is Some
        &&& self.completed_at is Some ==> self.status_model() == Some(RunStatus::Completed)
        &&& self.failed_at is Some ==> self.status_model() == Some(RunStatus::Failed)
        &&& self.cancelled_at is Some ==> self.status_model() == Some(RunStatus::Cancelled)
        &&& self.started_at is Some ==> self.status_model() != Some(RunStatus::Queued)
    }

    /// Whether the timestamps of the snapshot agree with its status.
    pub fn is_coherent(&self) -> (r: bool)
        ensures
            r == self.coherent(),
    {
        match self.run_status() {
            None => false,
            Some(status) => {
                (self.completed_at.is_none() || status == RunStatus::Completed)
                    && (self.failed_at.is_none() || status == RunStatus::Failed)
                    && (self.cancelled_at.is_none() || status == RunStatus::Cancelled)
                    && (self.started_at.is_none() || status != RunStatus::Queued)
            },
        }
    }

    /// The status of the snapshot; `None` where the name is not one of the
    /// eight.
    pub fn run_status(&self) -> (r: Option<RunStatus>)
        ensures
            r == self.status_model(),
    {
        RunStatus::from_str(self.status.as_str())
    }
}

impl Decode for RunObject {
    open spec fn decoded_from(&self, j: JsonValue) -> bool {
        &&& text_field(j, "id"@) == Some(self.id@)
        &&& text_field(j, "object"@) == Some(self.object@)
        &&& int_field(j, "created_at"@) == Some(self.created_at as int)
        &&& text_field(j, "thread_id"@) == Some(self.thread_id@)
        &&& text_field(j, "assistant_id"@) == Some(self.assistant_id@)
        &&& text_field(j, "status"@) == Some(self.status@)
        &&& RunStatus::named(self.status@) is Some
        &&& opt_map_field(j, "required_action"@) == Some(self.required_action.deep_view())
        &&& opt_text_field(j, "last_error"@) == Some(self.last_error.deep_view())
        &&& opt_int_field(j, "expires_at"@) == Some(opt_int_view(self.expires_at))
        &&& opt_int_field(j, "started_at"@) == Some(opt_int_view(self.started_at))
        &&& opt_int_field(j, "cancelled_at"@) == Some(opt_int_view(self.cancelled_at))
        &&& opt_int_field(j, "failed_at"@) == Some(opt_int_view(self.failed_at))
        &&& opt_int_field(j, "completed_at"@) == Some(opt_int_view(self.completed_at))
        &&& text_field(j, "model"@) == Some(self.model@)
        &&& opt_text_field(j, "instructions"@) == Some(self.instructions.deep_view())
        &&& map_list_field(j, "tools"@) == Some(self.tools.deep_view())
        &&& text_list_field(j, "file_ids"@) == Some(self.file_ids.deep_view())
        &&& map_field(j, "metadata"@) == Some(self.metadata@)
    }

    fn from_json(j: &Json) -> (r: Result<RunObject, APIError>)
        ensures
            r matches Ok(run) ==> run.headers is None,
    {
        let id = read_text(j, "id")?;
        let object = read_text(j, "object")?;
        let created_at = read_int(j, "created_at")?;
        let thread_id = read_text(j, "thread_id")?;
        let assistant_id = read_text(j, "assistant_id")?;
        let status = read_text(j, "status")?;
        if RunStatus::from_str(status.as_str()).is_none() {
            return Err(bad_field("status"));
        }
        let required_action = read_opt_map(j, "required_action")?;
        let last_error = read_opt_text(j, "last_error")?;
        let expires_at = read_opt_int(j, "expires_at")?;
        let started_at = read_opt_int(j, "started_at")?;
        let cancelled_at = read_opt_int(j, "cancelled_at")?;
        let failed_at = read_opt_int(j, "failed_at")?;
        let completed_at = read_opt_int(j, "completed_at")?;
        let model = read_text(j, "model")?;
        let instructions = read_opt_text(j, "instructions")?;
        let tools = read_map_list(j, "tools")?;
        let file_ids = read_text_list(j, "file_ids")?;
        let metadata = read_map(j, "metadata")?;
        Ok(
            RunObject {
                id,
                object,
                created_at,
                thread_id,
                assistant_id,
                status,
                required_action,
                last_error,
                expires_at,
                started_at,
                cancelled_at,
                failed_at,
                completed_at,
                model,
                instructions,
                tools,
                file_ids,
                metadata,
                headers: None,
            },
        )
    }
}

impl Enveloped for RunObject {
    open spec fn envelope(&self) -> Option<Map<Seq<char>, Seq<char>>> {
        self.headers.deep_view()
    }

    fn with_headers(self, headers: StringMap) -> (r: RunObject)
        ensures
            r == (RunObject { headers: Some(headers), ..self }),
    {
        let mut r = self;
        r.headers = Some(headers);
        r
    }
}

/// One page of the runs of a thread.
#[derive(Debug)]
pub struct ListRun {
    /// The kind of object, `list`.
    pub object: String,
    /// The runs of the page.
    pub data: Vec<RunObject>,
    /// The identifier of the first run of the page.
    pub first_id: String,
    /// The identifier of the last run of the page.
    pub last_id: String,
    /// Whether more runs follow.
    pub has_more: bool,
    /// The headers of the response that carried this page.
    pub headers: Option<StringMap>,
}

impl Decode for ListRun {
    open spec fn decoded_from(&self, j: JsonValue) -> bool {
        &&& text_field(j, "object"@) == Some(self.object@)
        &&& list_field(j, "data"@) is Some
        &&& all_decoded_from(self.data@, list_field(j, "data"@)->Some_0)
        &&& text_field(j, "first_id"@) == Some(self.first_id@)
        &&& text_field(j, "last_id"@) == Some(self.last_id@)
        &&& bool_field(j, "has_more"@) == Some(self.has_more)
    }

    fn from_json(j: &Json) -> (r: Result<ListRun, APIError>)
        ensures
            r matches Ok(list) ==> list.headers is None,
    {
        let object = read_text(j, "object")?;
        let items = read_list(j, "data")?;
        let data = read_items::<RunObject>(items)?;
        let first_id = read_text(j, "first_id")?;
        let last_id = read_text(j, "last_id")?;
        let has_more = read_bool(j, "has_more")?;
        Ok(ListRun { object, data, first_id, last_id, has_more, headers: None })
    }
}

impl Enveloped for ListRun {
    open spec fn envelope(&self) -> Option<Map<Seq<char>, Seq<char>>> {
        self.headers.deep_view()
    }

    fn with_headers(self, headers: StringMap) -> (r: ListRun)
        ensures
            r == (ListRun { headers: Some(headers), ..self }),
    {
        let mut r = self;
        r.headers = Some(headers);
        r
    }
}

/// One step of a run, as the service describes it.
#[derive(Debug, Clone)]
pub struct RunStepObject {
    /// The identifier that the service gave the step.
    pub id: String,
    /// The kind of object, `thread.run.step`.
    pub object: String,
    /// When the step was created, in seconds since the epoch.
    pub created_at: i64,
    /// The assistant that executes the run.
    pub assistant_id: String,
    /// The thread that the run operates on.
    pub thread_id: String,
    /// The run that the step belongs to.
    pub run_id: String,
    /// The kind of step; `type` on the wire.
    pub run_step_type: String,
    /// The status of the step.
    pub status: String,
    /// The details of the step.
    pub step_details: StringMap,
    /// The last error of the step.
    pub last_error: Option<String>,
    /// When the step expires.
    pub expires_at: Option<i64>,
    /// When the step was started.
    pub started_at: Option<i64>,
    /// When the step was cancelled.
    pub cancelled_at: Option<i64>,
    /// When the step failed.
    pub failed_at: Option<i64>,
    /// When the step was completed.
    pub completed_at: Option<i64>,
    /// Free-form metadata.
    pub metadata: StringMap,
    /// The headers of the response that carried this step.
    pub headers: Option<StringMap>,
}

impl Decode for RunStepObject {
    open spec fn decoded_from(&self, j: JsonValue) -> bool {
        &&& text_field(j, "id"@) == Some(self.id@)
        &&& text_field(j, "object"@) == Some(self.object@)
        &&& int_field(j, "created_at"@) == Some(self.created_at as int)
        &&& text_field(j, "assistant_id"@) == Some(self.assistant_id@)
        &&& text_field(j, "thread_id"@) == Some(self.thread_id@)
        &&& text_field(j, "run_id"@) == Some(self.run_id@)
        &&& text_field(j, "type"@) == Some(self.run_step_type@)
        &&& text_field(j, "status"@) == Some(self.status@)
        &&& map_field(j, "step_details"@) == Some(self.step_details@)
        &&& opt_text_field(j, "last_error"@) == Some(self.last_error.deep_view())
        &&& opt_int_field(j, "expires_at"@) == Some(opt_int_view(self.expires_at))
        &&& opt_int_field(j, "started_at"@) == Some(opt_int_view(self.started_at))
        &&& opt_int_field(j, "cancelled_at"@) == Some(opt_int_view(self.cancelled_at))
        &&& opt_int_field(j, "failed_at"@) == Some(opt_int_view(self.failed_at))
        &&& opt_int_field(j, "completed_at"@) == Some(opt_int_view(self.completed_at))
        &&& map_field(j, "metadata"@) == Some(self.metadata@)
    }

    fn from_json(j: &Json) -> (r: Result<RunStepObject, APIError>)
        ensures
            r matches Ok(step) ==> step.headers is None,
    {
        let id = read_text(j, "id")?;
        let object = read_text(j, "object")?;
        let created_at = read_int(j, "created_at")?;
        let assistant_id = read_text(j, "assistant_id")?;
        let thread_id = read_text(j, "thread_id")?;
        let run_id = read_text(j, "run_id")?;
        let run_step_type = read_text(j, "type")?;
        let status = read_text(j, "status")?;
        let step_details = read_map(j, "step_details")?;
        let last_error = read_opt_text(j, "last_error")?;
        let expires_at = read_opt_int(j, "expires_at")?;
        let started_at = read_opt_int(j, "started_at")?;
        let cancelled_at = read_opt_int(j, "cancelled_at")?;
        let failed_at = read_opt_int(j, "failed_at")?;
        let completed_at = read_opt_int(j, "completed_at")?;
        let metadata = read_map(j, "metadata")?;
        Ok(
            RunStepObject {
                id,
                object,
                created_at,
                assistant_id,
                thread_id,
                run_id,
                run_step_type,
                status,
                step_details,
                last_error,
                expires_at,
                started_at,
                cancelled_at,
                failed_at,
                completed_at,
                metadata,
                headers: None,
            },
        )
    }
}

impl Enveloped for RunStepObject {
    open spec fn envelope(&self) -> Option<Map<Seq<char>, Seq<char>>> {
        self.headers.deep_view()
    }

    fn with_headers(self, headers: StringMap) -> (r: RunStepObject)
        ensures
            r == (RunStepObject { headers: Some(headers), ..self }),
    {
        let mut r = self;
        r.headers = Some(headers);
        r
    }
}

/// One page of the steps of a run.
#[derive(Debug, Clone)]
pub struct ListRunStep {
    /// The kind of object, `list`.
    pub object: String,
    /// The steps of the page.
    pub data: Vec<RunStepObject>,
    /// The identifier of the first step of the page.
    pub first_id: String,
    /// The identifier of the last step of the page.
    pub last_id: String,
    /// Whether more steps follow.
    pub has_more: bool,
    /// The headers of the response that carried this page.
    pub headers: Option<StringMap>,
}

impl Decode for ListRunStep {
    open spec fn decoded_from(&self, j: JsonValue) -> bool {
        &&& text_field(j, "object"@) == Some(self.object@)
        &&& list_field(j, "data"@) is Some
        &&& all_decoded_from(self.data@, list_field(j, "data"@)->Some_0)
        &&& text_field(j, "first_id"@) == Some(self.first_id@)
        &&& text_field(j, "last_id"@) == Some(self.last_id@)
        &&& bool_field(j, "has_more"@) == Some(self.has_more)
    }

    fn from_json(j: &Json) -> (r: Result<ListRunStep, APIError>)
        ensures
            r matches Ok(list) ==> list.headers is None,
    {
        let object = read_text(j, "object")?;
        let items = read_list(j, "data")?;
        let data = read_items::<RunStepObject>(items)?;
        let first_id = read_text(j, "first_id")?;
        let last_id = read_text(j, "last_id")?;
        let has_more = read_bool(j, "has_more")?;
        Ok(ListRunStep { object, data, first_id, last_id, has_more, headers: None })
    }
}

impl Enveloped for ListRunStep {
    open spec fn envelope(&self) -> Option<Map<Seq<char>, Seq<char>>> {
        self.headers.deep_view()
    }

    fn with_headers(self, headers: StringMap) -> (r: ListRunStep)
        ensures
            r == (ListRunStep { headers: Some(headers), ..self }),
    {
        let mut r = self;
        r.headers = Some(headers);
        r
    }
}

} // verus!
