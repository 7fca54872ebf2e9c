//! The service's replies: the created message with its stop reason and usage,
//! and the token count; and the request of the token count.
use vstd::prelude::*;
use crate::content::{role_of, spells_name, take_string_member, string_member, ContentBlock, Role};
use crate::error::{invalid, lift, missing, DecodeError, DecodeFault};
use crate::json::{keys_of, member, push_member, take_member, Json, Number};
use crate::message::{blocks_of, decode_blocks, Message};
use crate::params::messages_wire;

verus! {

/// Why generation stopped. On the wire in snake case.
#[derive(Debug, Clone, Copy, PartialEq, Eq, Structural)]
pub enum StopReason {
    EndTurn,
    MaxTokens,
    StopSequence,
    ToolUse,
}

/// Token counts of one exchange.
#[derive(Debug, Clone, Copy, PartialEq, Eq, Structural)]
pub struct Usage {
    /// Input tokens used.
    pub input_tokens: u32,
    /// Output tokens used.
    pub output_tokens: u32,
}

/// The reply to a request that creates a message.
#[derive(Debug)]
pub struct CreateMessageResponse {
    /// Content blocks of the reply.
    pub content: Vec<ContentBlock>,
    /// Unique message identifier.
    pub id: String,
    /// Model that handled the request.
    pub model: String,
    /// Role of the reply's author.
    pub role: Role,
    /// Why generation stopped, when the service says.
    pub stop_reason: Option<StopReason>,
    /// The stop sequence that was generated, if any.
    pub stop_sequence: Option<String>,
    /// Kind of object; `type` on the wire.
    pub type_: String,
    /// Token counts.
    pub usage: Usage,
}

/// The view of a [`CreateMessageResponse`].
pub struct ResponseView {
    pub content: Seq<ContentBlock>,
    pub id: String,
    pub model: String,
    pub role: Role,
    pub stop_reason: Option<StopReason>,
    pub stop_sequence: Option<String>,
    pub type_: String,
    pub usage: Usage,
}

impl View for CreateMessageResponse {
    type V = ResponseView;

    open spec fn view(&self) -> ResponseView {
        ResponseView {
            content: self.content@,
            id: self.id,
            model: self.model,
            role: self.role,
            stop_reason: self.stop_reason,
            stop_sequence: self.stop_sequence,
            type_: self.type_,
            usage: self.usage,
        }
    }
}

/// The parameters of a token count.
#[derive(Debug)]
pub struct CountMessageTokensParams {
    /// Model identifier to count tokens for.
    pub model: String,
    /// Messages to count tokens of.
    pub messages: Vec<Message>,
}

/// The reply to a token count.
#[derive(Debug, Clone, Copy, PartialEq, Eq, Structural)]
pub struct CountMessageTokensResponse {
    /// Number of input tokens counted.
    pub input_tokens: u32,
}

/// The stop reason that a wire name stands for.
pub open spec fn stop_reason_named(s: Seq<char>) -> Option<StopReason> {
    if s == "end_turn"@ {
        Some(StopReason::EndTurn)
    } else if s == "max_tokens"@ {
        Some(StopReason::MaxTokens)
    } else if s == "stop_sequence"@ {
        Some(StopReason::StopSequence)
    } else if s == "tool_use"@ {
        Some(StopReason::ToolUse)
    } else {
        None
    }
}

/// The member `k` of `fs` as a `u32` counter.
pub open spec fn u32_member(fs: Seq<(String, Json)>, k: Seq<char>) -> Result<u32, DecodeFault> {
    match member(fs, k) {
        Some(Json::Number(Number::PosInt(n))) => if n <= u32::MAX {
            Ok(n as u32)
        } else {
            Err(DecodeFault::InvalidType(k))
        },
        Some(_) => Err(DecodeFault::InvalidType(k)),
        None => Err(DecodeFault::MissingField(k)),
    }
}

/// The optional string member `k` of `fs`: absent and `null` both give `None`.
pub open spec fn opt_string_member(fs: Seq<(String, Json)>, k: Seq<char>) -> Result<
    Option<String>,
    DecodeFault,
> {
    match member(fs, k) {
        None => Ok(None),
        Some(Json::Null) => Ok(None),
        Some(Json::String(s)) => Ok(Some(s)),
        Some(_) => Err(DecodeFault::InvalidType(k)),
    }
}

/// The optional stop reason of the members `fs`: absent and `null` both give `None`.
pub open spec fn stop_reason_member(fs: Seq<(String, Json)>) -> Result<
    Option<StopReason>,
    DecodeFault,
> {
    match member(fs, "stop_reason"@) {
        None => Ok(None),
        Some(Json::Null) => Ok(None),
        Some(Json::String(s)) => match stop_reason_named(s@) {
            Some(r) => Ok(Some(r)),
            None => Err(DecodeFault::UnknownTag(s@)),
        },
        Some(_) => Err(DecodeFault::InvalidType("stop_reason"@)),
    }
}

/// The usage counts that a wire value holds.
pub open spec fn usage_of(j: Json) -> Result<Usage, DecodeFault> {
    match j {
        Json::Object(fs) => match (u32_member(fs@, "input_tokens"@), u32_member(fs@, "output_tokens"@)) {
            (Err(e), _) => Err(e),
            (Ok(_), Err(e)) => Err(e),
            (Ok(input_tokens), Ok(output_tokens)) => Ok(Usage { input_tokens, output_tokens }),
        },
        _ => Err(DecodeFault::NotAnObject),
    }
}

/// The response that a wire value holds; its members are read in the order
/// of the response's fields, and the first fault is the one reported.
pub open spec fn response_of(j: Json) -> Result<ResponseView, DecodeFault> {
    match j {
        Json::Object(fs) => {
            let fs = fs@;
            match member(fs, "content"@) {
                None => Err(DecodeFault::MissingField("content"@)),
                Some(Json::Array(items)) => match blocks_of(items@) {
                    Err(e) => Err(e),
                    Ok(content) => match (string_member(fs, "id"@), string_member(fs, "model"@)) {
                        (Err(e), _) => Err(e),
                        (Ok(_), Err(e)) => Err(e),
                        (Ok(id), Ok(model)) => match member(fs, "role"@) {
                            None => Err(DecodeFault::MissingField("role"@)),
                            Some(r) => match role_of(r) {
                                Err(e) => Err(e),
                                Ok(role) => match (
                                    stop_reason_member(fs),
                                    opt_string_member(fs, "stop_sequence"@),
                                    string_member(fs, "type"@),
                                ) {
                                    (Err(e), _, _) => Err(e),
                                    (Ok(_), Err(e), _) => Err(e),
                                    (Ok(_), Ok(_), Err(e)) => Err(e),
                                    (Ok(stop_reason), Ok(stop_sequence), Ok(type_)) => match member(
                                        fs,
                                        "usage"@,
                                    ) {
                                        None => Err(DecodeFault::MissingField("usage"@)),
                                        Some(u) => match usage_of(u) {
                                            Err(e) => Err(e),
                                            Ok(usage) => Ok(
                                                ResponseView {
                                                    content,
                                                    id,
                                                    model,
                                                    role,
                                                    stop_reason,
                                                    stop_sequence,
                                                    type_,
                                                    usage,
                                                },
                                            ),
                                        },
                                    },
                                },
                            },
                        },
                    },
                },
                Some(_) => Err(DecodeFault::InvalidType("content"@)),
            }
        },
        _ => Err(DecodeFault::NotAnObject),
    }
}

/// The token count that a wire value holds.
pub open spec fn count_response_of(j: Json) -> Result<u32, DecodeFault> {
    match j {
        Json::Object(fs) => u32_member(fs@, "input_tokens"@),
        _ => Err(DecodeFault::NotAnObject),
    }
}

/// `j` is the wire form of a token count's parameters: `model`, then `messages`.
pub open spec fn count_params_wire(p: CountMessageTokensParams, j: Json) -> bool {
    match j {
        Json::Object(fs) => {
            &&& keys_of(fs@) == set!["model"@, "messages"@]
            &&& member(fs@, "model"@) == Some(Json::String(p.model))
            &&& member(fs@, "messages"@) matches Some(Json::Array(items)) && messages_wire(
                p.messages@,
                items@,
            )
        },
        _ => false,
    }
}

/// The member names of a response differ from one another.
pub proof fn lemma_response_names_distinct()
    ensures
        "content"@ != "id"@,
        "content"@ != "model"@,
        "content"@ != "role"@,
        "content"@ != "stop_reason"@,
        "content"@ != "stop_sequence"@,
        "content"@ != "type"@,
        "content"@ != "usage"@,
        "content"@ != "input_tokens"@,
        "content"@ != "output_tokens"@,
        "content"@ != "messages"@,
        "id"@ != "model"@,
        "id"@ != "role"@,
        "id"@ != "stop_reason"@,
        "id"@ != "stop_sequence"@,
        "id"@ != "type"@,
        "id"@ != "usage"@,
        "id"@ != "input_tokens"@,
        "id"@ != "output_tokens"@,
        "id"@ != "messages"@,
        "model"@ != "role"@,
        "model"@ != "stop_reason"@,
        "model"@ != "stop_sequence"@,
        "model"@ != "type"@,
        "model"@ != "usage"@,
        "model"@ != "input_tokens"@,
        "model"@ != "output_tokens"@,
        "model"@ != "messages"@,
        "role"@ != "stop_reason"@,
        "role"@ != "stop_sequence"@,
        "role"@ != "type"@,
        "role"@ != "usage"@,
        "role"@ != "input_tokens"@,
        "role"@ != "output_tokens"@,
        "role"@ != "messages"@,
        "stop_reason"@ != "stop_sequence"@,
        "stop_reason"@ != "type"@,
        "stop_reason"@ != "usage"@,
        "stop_reason"@ != "input_tokens"@,
        "stop_reason"@ != "output_tokens"@,
        "stop_reason"@ != "messages"@,
        "stop_sequence"@ != "type"@,
        "stop_sequence"@ != "usage"@,
        "stop_sequence"@ != "input_tokens"@,
        "stop_sequence"@ != "output_tokens"@,
        "stop_sequence"@ != "messages"@,
        "type"@ != "usage"@,
        "type"@ != "input_tokens"@,
        "type"@ != "output_tokens"@,
        "type"@ != "messages"@,
        "usage"@ != "input_tokens"@,
        "usage"@ != "output_tokens"@,
        "usage"@ != "messages"@,
        "input_tokens"@ != "output_tokens"@,
        "input_tokens"@ != "messages"@,
        "output_tokens"@ != "messages"@,
{
    reveal_strlit("content");
    reveal_strlit("id");
    reveal_strlit("model");
    reveal_strlit("role");
    reveal_strlit("stop_reason");
    reveal_strlit("stop_sequence");
    reveal_strlit("type");
    reveal_strlit("usage");
    reveal_strlit("input_tokens");
    reveal_strlit("output_tokens");
    reveal_strlit("messages");
    assert("content"@.len() != "id"@.len());
    assert("content"@.len() != "model"@.len());
    assert("content"@.len() != "role"@.len());
    assert("content"@.len() != "stop_reason"@.len());
    assert("content"@.len() != "stop_sequence"@.len());
    assert("content"@.len() != "type"@.len());
    assert("content"@.len() != "usage"@.len());
    assert("content"@.len() != "input_tokens"@.len());
    assert("content"@.len() != "output_tokens"@.len());
    assert("content"@.len() != "messages"@.len());
    assert("id"@.len() != "model"@.len());
    assert("id"@.len() != "role"@.len());
    assert("id"@.len() != "stop_reason"@.len());
    assert("id"@.len() != "stop_sequence"@.len());
    assert("id"@.len() != "type"@.len());
    assert("id"@.len() != "usage"@.len());
    assert("id"@.len() != "input_tokens"@.len());
    assert("id"@.len() != "output_tokens"@.len());
    assert("id"@.len() != "messages"@.len());
    assert("model"@.len() != "role"@.len());
    assert("model"@.len() != "stop_reason"@.len());
    assert("model"@.len() != "stop_sequence"@.len());
    assert("model"@.len() != "type"@.len());
    assert("model"@[0] != "usage"@[0]);
    assert("model"@.len() != "input_tokens"@.len());
    assert("model"@.len() != "output_tokens"@.len());
    assert("model"@.len() != "messages"@.len());
    assert("role"@.len() != "stop_reason"@.len());
    assert("role"@.len() != "stop_sequence"@.len());
    assert("role"@[0] != "type"@[0]);
    assert("role"@.len() != "usage"@.len());
    assert("role"@.len() != "input_tokens"@.len());
    assert("role"@.len() != "output_tokens"@.len());
    assert("role"@.len() != "messages"@.len());
    assert("stop_reason"@.len() != "stop_sequence"@.len());
    assert("stop_reason"@.len() != "type"@.len());
    assert("stop_reason"@.len() != "usage"@.len());
    assert("stop_reason"@.len() != "input_tokens"@.len());
    assert("stop_reason"@.len() != "output_tokens"@.len());
    assert("stop_reason"@.len() != "messages"@.len());
    assert("stop_sequence"@.len() != "type"@.len());
    assert("stop_sequence"@.len() != "usage"@.len());
    assert("stop_sequence"@.len() != "input_tokens"@.len());
    assert("stop_sequence"@[0] != "output_tokens"@[0]);
    assert("stop_sequence"@.len() != "messages"@.len());
    assert("type"@.len() != "usage"@.len());
    assert("type"@.len() != "input_tokens"@.len());
    assert("type"@.len() != "output_tokens"@.len());
    assert("type"@.len() != "messages"@.len());
    assert("usage"@.len() != "input_tokens"@.len());
    assert("usage"@.len() != "output_tokens"@.len());
    assert("usage"@.len() != "messages"@.len());
    assert("input_tokens"@.len() != "output_tokens"@.len());
    assert("input_tokens"@.len() != "messages"@.len());
    assert("output_tokens"@.len() != "messages"@.len());
}

/// Takes the counter member `k` out of `fs`.
fn take_u32(fs: &mut Vec<(String, Json)>, k: &str) -> (r: Result<u32, DecodeError>)
    ensures
        lift(r) == u32_member(old(fs)@, k@),
        forall|k2: Seq<char>| k2 != k@ ==> member(final(fs)@, k2) == member(old(fs)@, k2),
{
    match take_member(fs, k) {
        Some(Json::Number(Number::PosInt(n))) => {
            if n <= 0xffff_ffff {
                Ok(n as u32)
            } else {
                Err(invalid(k))
            }
        },
        Some(_) => Err(invalid(k)),
        None => Err(missing(k)),
    }
}

/// Takes the optional string member `k` out of `fs`.
fn take_opt_string(fs: &mut Vec<(String, Json)>, k: &str) -> (r: Result<Option<String>, DecodeError>)
    ensures
        lift(r) == opt_string_member(old(fs)@, k@),
        forall|k2: Seq<char>| k2 != k@ ==> member(final(fs)@, k2) == member(old(fs)@, k2),
{
    match take_member(fs, k) {
        None => Ok(None),
        Some(Json::Null) => Ok(None),
        Some(Json::String(s)) => Ok(Some(s)),
        Some(_) => Err(invalid(k)),
    }
}

impl StopReason {
    /// The stop reason that a wire name stands for, if any.
    pub fn from_name(s: &String) -> (r: Option<StopReason>)
        ensures
            r == stop_reason_named(s@),
    {
        if spells_name(s, "end_turn") {
            Some(StopReason::EndTurn)
        } else if spells_name(s, "max_tokens") {
            Some(StopReason::MaxTokens)
        } else if spells_name(s, "stop_sequence") {
            Some(StopReason::StopSequence)
        } else if spells_name(s, "tool_use") {
            Some(StopReason::ToolUse)
        } else {
            None
        }
    }
}

impl Usage {
    /// Reads usage counts from their wire form.
    pub fn from_json(j: Json) -> (r: Result<Usage, DecodeError>)
        ensures
            lift(r) == usage_of(j),
    {
        proof {
            lemma_response_names_distinct();
        }
        let mut fs = match j {
            Json::Object(fs) => fs,
            _ => return Err(DecodeError::NotAnObject),
        };
        let input_tokens = match take_u32(&mut fs, "input_tokens") {
            Ok(n) => n,
            Err(e) => return Err(e),
        };
        let output_tokens = match take_u32(&mut fs, "output_tokens") {
            Ok(n) => n,
            Err(e) => return Err(e),
        };
        Ok(Usage { input_tokens, output_tokens })
    }
}

impl CreateMessageResponse {
    /// Reads a response from its wire form.
    pub fn from_json(j: Json) -> (r: Result<CreateMessageResponse, DecodeError>)
        ensures
            match r {
                Ok(v) => response_of(j) == Ok::<ResponseView, DecodeFault>(v@),
                Err(e) => response_of(j) == Err::<ResponseView, DecodeFault>(e@),
            },
    {
        proof {
            lemma_response_names_distinct();
        }
        let mut fs = match j {
            Json::Object(fs) => fs,
            _ => return Err(DecodeError::NotAnObject),
        };
        let content = match take_member(&mut fs, "content") {
            None => return Err(missing("content")),
            Some(Json::Array(items)) => match decode_blocks(items) {
                Ok(bs) => bs,
                Err(e) => return Err(e),
            },
            Some(_) => return Err(invalid("content")),
        };
        let id = match take_string_member(&mut fs, "id") {
            Ok(s) => s,
            Err(e) => return Err(e),
        };
        let model = match take_string_member(&mut fs, "model") {
            Ok(s) => s,
            Err(e) => return Err(e),
        };
        let role = match take_member(&mut fs, "role") {
            None => return Err(missing("role")),
            Some(r) => match Role::from_json(r) {
                Ok(role) => role,
                Err(e) => return Err(e),
            },
        };
        let stop_reason = match take_member(&mut fs, "stop_reason") {
            None => None,
            Some(Json::Null) => None,
            Some(Json::String(s)) => match StopReason::from_name(&s) {
                Some(r) => Some(r),
                None => return Err(DecodeError::UnknownTag(s)),
            },
            Some(_) => return Err(invalid("stop_reason")),
        };
        let stop_sequence = match take_opt_string(&mut fs, "stop_sequence") {
            Ok(s) => s,
            Err(e) => return Err(e),
        };
        let type_ = match take_string_member(&mut fs, "type") {
            Ok(s) => s,
            Err(e) => return Err(e),
        };
        let usage = match take_member(&mut fs, "usage") {
            None => return Err(missing("usage")),
            Some(u) => match Usage::from_json(u) {
                Ok(u) => u,
                Err(e) => return Err(e),
            },
        };
        Ok(CreateMessageResponse { content, id, model, role, stop_reason, stop_sequence, type_, usage })
    }
}

impl CountMessageTokensParams {
    /// The wire form of the parameters: `model`, then `messages`.
    pub fn to_json(self) -> (j: Json)
        ensures
            count_params_wire(self, j),
    {
        proof {
            lemma_response_names_distinct();
        }
        let ghost p = self;
        let mut fs: Vec<(String, Json)> = Vec::new();
        assert(keys_of(fs@) =~= Set::<Seq<char>>::empty());
        push_member(&mut fs, "model", Json::String(self.model));
        push_member(&mut fs, "messages", Json::Array(crate::params::messages_to_json(self.messages)));
        assert(keys_of(fs@) =~= set!["model"@, "messages"@]);
        Json::Object(fs)
    }
}

impl CountMessageTokensResponse {
    /// Reads a token count from its wire form.
    pub fn from_json(j: Json) -> (r: Result<CountMessageTokensResponse, DecodeError>)
        ensures
            match r {
                Ok(v) => count_response_of(j) == Ok::<u32, DecodeFault>(v.input_tokens),
                Err(e) => count_response_of(j) == Err::<u32, DecodeFault>(e@),
            },
    {
        let mut fs = match j {
            Json::Object(fs) => fs,
            _ => return Err(DecodeError::NotAnObject),
        };
        match take_u32(&mut fs, "input_tokens") {
            Ok(input_tokens) => Ok(CountMessageTokensResponse { input_tokens }),
            Err(e) => Err(e),
        }
    }
}

} // verus!
