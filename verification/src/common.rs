//! Types used by several resources: the role of a message and the token usage
//! of a completion.

use crate::error::APIError;
use crate::fields::{expect_object, i32_field, read_i32};
use crate::json::{bad_value, Json, JsonValue};
use crate::resource::{Decode, Encode, RoundTrip};
use crate::text::same_text;
use vstd::prelude::*;
use vstd::string::*;

verus! {

/// Who speaks in a message.
#[derive(Debug, Clone, Copy, PartialEq, Eq, Structural)]
pub enum MessageRole {
    /// The caller.
    User,
    /// The system prompt.
    System,
    /// The assistant that executes runs.
    Assistant,
    /// A function (tool) that the assistant called.
    Function,
}

impl MessageRole {
    /// The name of a role.
    pub open spec fn name(self) -> Seq<char> {
        match self {
            MessageRole::User => "user"@,
            MessageRole::System => "system"@,
            MessageRole::Assistant => "assistant"@,
            MessageRole::Function => "function"@,
        }
    }

    /// The role with the given name, if there is one.
    pub open spec fn named(text: Seq<char>) -> Option<MessageRole> {
        if text == "user"@ {
            Some(MessageRole::User)
        }         else if text == "system"@ {
            Some(MessageRole::System)
        }         else if text == "assistant"@ {
            Some(MessageRole::Assistant)
        }         else if text == "function"@ {
            Some(MessageRole::Function)
        } else {
            None
        }
    }

    /// The name of this role.
    pub fn as_str(&self) -> (r: &'static str)
        ensures
            r@ == self.name(),
    {
        match self {
            MessageRole::User => "user",
            MessageRole::System => "system",
            MessageRole::Assistant => "assistant",
            MessageRole::Function => "function",
        }
    }

    /// The name of this role as an owned string.
    pub fn to_string(&self) -> (r: String)
        ensures
            r@ == self.name(),
    {
        String::from_str(self.as_str())
    }

    /// The role with the given name; `None` for any other text.
    pub fn from_str(text: &str) -> (r: Option<MessageRole>)
        ensures
            r == MessageRole::named(text@),
    {
        if same_text(text, "user") {
            Some(MessageRole::User)
        }         else if same_text(text, "system") {
            Some(MessageRole::System)
        }         else if same_text(text, "assistant") {
            Some(MessageRole::Assistant)
        }         else if same_text(text, "function") {
            Some(MessageRole::Function)
        } else {
            None
        }
    }
}

impl Encode for MessageRole {
    open spec fn encoding(&self) -> JsonValue {
        JsonValue::Text(self.name())
    }

    fn to_json(&self) -> (r: Json) {
        Json::text(self.as_str())
    }
}

impl Decode for MessageRole {
    open spec fn decoded_from(&self, j: JsonValue) -> bool {
        j.as_text() is Some && MessageRole::named(j.as_text()->Some_0) == Some(*self)
    }

    fn from_json(j: &Json) -> (r: Result<MessageRole, APIError>) {
        match j.as_text() {
            Some(text) => match MessageRole::from_str(text.as_str()) {
                Some(value) => Ok(value),
                None => Err(bad_value("MessageRole")),
            },
            None => Err(bad_value("MessageRole")),
        }
    }
}

impl RoundTrip for MessageRole {
    proof fn lemma_round_trip(&self) {
        reveal_strlit("user");
        reveal_strlit("system");
        reveal_strlit("assistant");
        reveal_strlit("function");
        assert("user"@.len() == 4);
        assert("system"@.len() == 6);
        assert("assistant"@.len() == 9);
        assert("function"@.len() == 8);
    }
}

/// Every role is found again under its own name.
pub proof fn lemma_role_name_round_trip(role: MessageRole)
    ensures
        MessageRole::named(role.name()) == Some(role),
        role.decoded_from(role.encoding()),
{
    reveal_strlit("user");
    reveal_strlit("system");
    reveal_strlit("assistant");
    reveal_strlit("function");
    assert("user"@.len() == 4 && "system"@.len() == 6);
    assert("assistant"@.len() == 9 && "function"@.len() == 8);
}

/// How many tokens a completion used.
#[derive(Debug, Clone, PartialEq, Eq)]
pub struct Usage {
    /// Tokens of the prompt.
    pub prompt_tokens: i32,
    /// Tokens of the completion.
    pub completion_tokens: i32,
    /// Both together.
    pub total_tokens: i32,
}

impl Decode for Usage {
    open spec fn decoded_from(&self, j: JsonValue) -> bool {
        &&& j is Object
        &&& i32_field(j, "prompt_tokens"@) == Some(self.prompt_tokens as int)
        &&& i32_field(j, "completion_tokens"@) == Some(self.completion_tokens as int)
        &&& i32_field(j, "total_tokens"@) == Some(self.total_tokens as int)
    }

    fn from_json(j: &Json) -> (r: Result<Usage, APIError>) {
        expect_object(j, "Usage")?;
        let prompt_tokens = read_i32(j, "prompt_tokens")?;
        let completion_tokens = read_i32(j, "completion_tokens")?;
        let total_tokens = read_i32(j, "total_tokens")?;
        Ok(Usage { prompt_tokens, completion_tokens, total_tokens })
    }
}

} // verus!
