//! Request parameters: the required fields, the optional ones set through a
//! builder, and the request's wire form, which leaves out every unset field.
use vstd::prelude::*;
use crate::content::{lemma_member_at, member_at, lemma_names_distinct, string_member, tagged};
use crate::error::{lift, missing, DecodeError, DecodeFault};
use crate::json::{keys_of, member, push_member, take_member, Json, Number};
use crate::message::{message_wire, Message};

verus! {

/// A tool that the model may call.
#[derive(Debug)]
pub struct Tool {
    /// Name of the tool.
    pub name: String,
    /// Description of the tool; left out of the wire form when absent.
    pub description: Option<String>,
    /// JSON schema of the tool's input.
    pub input_schema: Json,
}

/// How the model should use tools; tagged on the wire by its `type` member.
#[derive(Debug, Clone, PartialEq, Eq)]
pub enum ToolChoice {
    /// Tag `"auto"`: the model decides.
    Auto,
    /// Tag `"any"`: the model must use one of the tools.
    Any,
    /// Tag `"tool"`: the model must use the named tool.
    Tool { name: String },
}

/// Request metadata: pairs of strings, written as the members of one object.
#[derive(Debug, Clone, PartialEq, Eq)]
pub struct Metadata {
    /// The metadata entries, in the order they are written.
    pub fields: Vec<(String, String)>,
}

/// The fields that every request needs.
#[derive(Debug)]
pub struct RequiredMessageParams {
    /// Model identifier to use for generation.
    pub model: String,
    /// Input messages, in conversation order.
    pub messages: Vec<Message>,
    /// Maximum number of tokens to generate.
    pub max_tokens: u32,
}

/// A complete request. Sampling values `temperature` and `top_p` are single
/// precision floats, held as their IEEE-754 bit patterns.
#[derive(Debug)]
pub struct CreateMessageParams {
    pub max_tokens: u32,
    pub messages: Vec<Message>,
    pub model: String,
    pub system: Option<String>,
    pub temperature: Option<u32>,
    pub stop_sequences: Option<Vec<String>>,
    pub stream: Option<bool>,
    pub top_k: Option<u32>,
    pub top_p: Option<u32>,
    pub tools: Option<Vec<Tool>>,
    pub tool_choice: Option<ToolChoice>,
    pub metadata: Option<Metadata>,
}

/// A request that holds the required fields and leaves every optional one unset.
pub open spec fn bare_request(r: RequiredMessageParams) -> CreateMessageParams {
    CreateMessageParams {
        max_tokens: r.max_tokens,
        messages: r.messages,
        model: r.model,
        system: None,
        temperature: None,
        stop_sequences: None,
        stream: None,
        top_k: None,
        top_p: None,
        tools: None,
        tool_choice: None,
        metadata: None,
    }
}

/// No optional field of `p` is set.
pub open spec fn is_bare(p: CreateMessageParams) -> bool {
    p.system is None && p.temperature is None && p.stop_sequences is None && p.stream is None
        && p.top_k is None && p.top_p is None && p.tools is None && p.tool_choice is None
        && p.metadata is None
}

/// `items` are the wire forms of the messages `ms`, in order.
pub open spec fn messages_wire(ms: Seq<Message>, items: Seq<Json>) -> bool {
    items.len() == ms.len() && forall|i: int| 0 <= i < ms.len() ==> message_wire(ms[i]@, items[i])
}

/// `items` are the strings `ss`, in order.
pub open spec fn strings_wire(ss: Seq<String>, items: Seq<Json>) -> bool {
    items.len() == ss.len() && forall|i: int| 0 <= i < ss.len() ==> items[i] == Json::String(ss[i])
}

/// `j` is the wire form of the tool `t`; an absent description has no member.
pub open spec fn tool_wire(t: Tool, j: Json) -> bool {
    match j {
        Json::Object(fs) => match t.description {
            Some(d) => fs@.len() == 3 && member_at(fs@, 0, "name"@, Json::String(t.name))
                && member_at(fs@, 1, "description"@, Json::String(d)) && member_at(
                fs@,
                2,
                "input_schema"@,
                t.input_schema,
            ),
            None => fs@.len() == 2 && member_at(fs@, 0, "name"@, Json::String(t.name)) && member_at(
                fs@,
                1,
                "input_schema"@,
                t.input_schema,
            ),
        },
        _ => false,
    }
}

/// `items` are the wire forms of the tools `ts`, in order.
pub open spec fn tools_wire(ts: Seq<Tool>, items: Seq<Json>) -> bool {
    items.len() == ts.len() && forall|i: int| 0 <= i < ts.len() ==> tool_wire(ts[i], items[i])
}

/// `j` is the wire form of the tool choice `c`: its tag, then the tool's name for `Tool`.
pub open spec fn tool_choice_wire(c: ToolChoice, j: Json) -> bool {
    match j {
        Json::Object(fs) => match c {
            ToolChoice::Auto => fs@.len() == 1 && tagged(fs@, "auto"@),
            ToolChoice::Any => fs@.len() == 1 && tagged(fs@, "any"@),
            ToolChoice::Tool { name } => fs@.len() == 2 && tagged(fs@, "tool"@) && member_at(
                fs@,
                1,
                "name"@,
                Json::String(name),
            ),
        },
        _ => false,
    }
}

/// The tool choice that a wire value holds, dispatched on its tag.
pub open spec fn tool_choice_of(j: Json) -> Result<ToolChoice, DecodeFault> {
    match j {
        Json::Object(fs) => match string_member(fs@, "type"@) {
            Err(e) => Err(e),
            Ok(t) => if t@ == "auto"@ {
                Ok(ToolChoice::Auto)
            } else if t@ == "any"@ {
                Ok(ToolChoice::Any)
            } else if t@ == "tool"@ {
                match string_member(fs@, "name"@) {
                    Ok(name) => Ok(ToolChoice::Tool { name }),
                    Err(e) => Err(e),
                }
            } else {
                Err(DecodeFault::UnknownTag(t@))
            },
        },
        _ => Err(DecodeFault::NotAnObject),
    }
}

/// Decoding the wire form of a tool choice gives the tool choice back.
pub proof fn lemma_tool_choice_round_trip(c: ToolChoice, j: Json)
    requires
        tool_choice_wire(c, j),
    ensures
        tool_choice_of(j) == Ok::<ToolChoice, DecodeFault>(c),
{
    lemma_names_distinct();
    reveal_strlit("auto");
    reveal_strlit("any");
    reveal_strlit("tool");
    assert("auto"@.len() != "any"@.len() && "any"@.len() != "tool"@.len());
    assert("auto"@[0] != "tool"@[0]);
    let fs = j->Object_0@;
    lemma_member_at(fs, 0, "type"@);
    if c is Tool {
        lemma_member_at(fs, 1, "name"@);
    }
}

/// `j` is the wire form of the metadata `md`: one member per entry, in order.
pub open spec fn metadata_wire(md: Metadata, j: Json) -> bool {
    match j {
        Json::Object(fs) => fs@.len() == md.fields@.len() && forall|i: int|
            0 <= i < fs@.len() ==> fs@[i].0 == md.fields@[i].0 && fs@[i].1 == Json::String(
                md.fields@[i].1,
            ),
        _ => false,
    }
}

/// `k` as a set of one name when `present`, else no name.
pub open spec fn opt_key(present: bool, k: Seq<char>) -> Set<Seq<char>> {
    if present {
        set![k]
    } else {
        Set::empty()
    }
}

/// The member names of the wire form of `p`: the required three, and one for
/// each optional field that is set.
pub open spec fn request_keys(p: CreateMessageParams) -> Set<Seq<char>> {
    set!["max_tokens"@, "messages"@, "model"@].union(opt_key(p.system is Some, "system"@)).union(
        opt_key(p.temperature is Some, "temperature"@),
    ).union(opt_key(p.stop_sequences is Some, "stop_sequences"@)).union(
        opt_key(p.stream is Some, "stream"@),
    ).union(opt_key(p.top_k is Some, "top_k"@)).union(opt_key(p.top_p is Some, "top_p"@)).union(
        opt_key(p.tools is Some, "tools"@),
    ).union(opt_key(p.tool_choice is Some, "tool_choice"@)).union(
        opt_key(p.metadata is Some, "metadata"@),
    )
}

/// `j` is the wire form of the request `p`: exactly the members that
/// `request_keys` names, each holding the wire form of its field.
pub open spec fn request_wire(p: CreateMessageParams, j: Json) -> bool {
    match j {
        Json::Object(fs) => {
            &&& keys_of(fs@) == request_keys(p)
            &&& member(fs@, "max_tokens"@) == Some(Json::Number(Number::PosInt(p.max_tokens as u64)))
            &&& member(fs@, "messages"@) matches Some(Json::Array(items)) && messages_wire(
                p.messages@,
                items@,
            )
            &&& member(fs@, "model"@) == Some(Json::String(p.model))
            &&& p.system matches Some(s) ==> member(fs@, "system"@) == Some(Json::String(s))
            &&& p.temperature matches Some(t) ==> member(fs@, "temperature"@) == Some(
                Json::Number(Number::Single(t)),
            )
            &&& p.stop_sequences matches Some(ss) ==> member(fs@, "stop_sequences"@) matches Some(
                Json::Array(items),
            ) && strings_wire(ss@, items@)
            &&& p.stream matches Some(b) ==> member(fs@, "stream"@) == Some(Json::Bool(b))
            &&& p.top_k matches Some(k) ==> member(fs@, "top_k"@) == Some(
                Json::Number(Number::PosInt(k as u64)),
            )
            &&& p.top_p matches Some(t) ==> member(fs@, "top_p"@) == Some(
                Json::Number(Number::Single(t)),
            )
            &&& p.tools matches Some(ts) ==> member(fs@, "tools"@) matches Some(Json::Array(items))
                && tools_wire(ts@, items@)
            &&& p.tool_choice matches Some(c) ==> member(fs@, "tool_choice"@) matches Some(v)
                && tool_choice_wire(c, v)
            &&& p.metadata matches Some(md) ==> member(fs@, "metadata"@) matches Some(v)
                && metadata_wire(md, v)
        },
        _ => false,
    }
}

/// The member names of a request differ from one another.
pub proof fn lemma_request_names_distinct()
    ensures
        "max_tokens"@ != "messages"@,
        "max_tokens"@ != "model"@,
        "max_tokens"@ != "system"@,
        "max_tokens"@ != "temperature"@,
        "max_tokens"@ != "stop_sequences"@,
        "max_tokens"@ != "stream"@,
        "max_tokens"@ != "top_k"@,
        "max_tokens"@ != "top_p"@,
        "max_tokens"@ != "tools"@,
        "max_tokens"@ != "tool_choice"@,
        "max_tokens"@ != "metadata"@,
        "messages"@ != "model"@,
        "messages"@ != "system"@,
        "messages"@ != "temperature"@,
        "messages"@ != "stop_sequences"@,
        "messages"@ != "stream"@,
        "messages"@ != "top_k"@,
        "messages"@ != "top_p"@,
        "messages"@ != "tools"@,
        "messages"@ != "tool_choice"@,
        "messages"@ != "metadata"@,
        "model"@ != "system"@,
        "model"@ != "temperature"@,
        "model"@ != "stop_sequences"@,
        "model"@ != "stream"@,
        "model"@ != "top_k"@,
        "model"@ != "top_p"@,
        "model"@ != "tools"@,
        "model"@ != "tool_choice"@,
        "model"@ != "metadata"@,
        "system"@ != "temperature"@,
        "system"@ != "stop_sequences"@,
        "system"@ != "stream"@,
        "system"@ != "top_k"@,
        "system"@ != "top_p"@,
        "system"@ != "tools"@,
        "system"@ != "tool_choice"@,
        "system"@ != "metadata"@,
        "temperature"@ != "stop_sequences"@,
        "temperature"@ != "stream"@,
        "temperature"@ != "top_k"@,
        "temperature"@ != "top_p"@,
        "temperature"@ != "tools"@,
        "temperature"@ != "tool_choice"@,
        "temperature"@ != "metadata"@,
        "stop_sequences"@ != "stream"@,
        "stop_sequences"@ != "top_k"@,
        "stop_sequences"@ != "top_p"@,
        "stop_sequences"@ != "tools"@,
        "stop_sequences"@ != "tool_choice"@,
        "stop_sequences"@ != "metadata"@,
        "stream"@ != "top_k"@,
        "stream"@ != "top_p"@,
        "stream"@ != "tools"@,
        "stream"@ != "tool_choice"@,
        "stream"@ != "metadata"@,
        "top_k"@ != "top_p"@,
        "top_k"@ != "tools"@,
        "top_k"@ != "tool_choice"@,
        "top_k"@ != "metadata"@,
        "top_p"@ != "tools"@,
        "top_p"@ != "tool_choice"@,
        "top_p"@ != "metadata"@,
        "tools"@ != "tool_choice"@,
        "tools"@ != "metadata"@,
        "tool_choice"@ != "metadata"@,
{
    reveal_strlit("max_tokens");
    reveal_strlit("messages");
    reveal_strlit("model");
    reveal_strlit("system");
    reveal_strlit("temperature");
    reveal_strlit("stop_sequences");
    reveal_strlit("stream");
    reveal_strlit("top_k");
    reveal_strlit("top_p");
    reveal_strlit("tools");
    reveal_strlit("tool_choice");
    reveal_strlit("metadata");
    assert("max_tokens"@.len() != "messages"@.len());
    assert("max_tokens"@.len() != "model"@.len());
    assert("max_tokens"@.len() != "system"@.len());
    assert("max_tokens"@.len() != "temperature"@.len());
    assert("max_tokens"@.len() != "stop_sequences"@.len());
    assert("max_tokens"@.len() != "stream"@.len());
    assert("max_tokens"@.len() != "top_k"@.len());
    assert("max_tokens"@.len() != "top_p"@.len());
    assert("max_tokens"@.len() != "tools"@.len());
    assert("max_tokens"@.len() != "tool_choice"@.len());
    assert("max_tokens"@.len() != "metadata"@.len());
    assert("messages"@.len() != "model"@.len());
    assert("messages"@.len() != "system"@.len());
    assert("messages"@.len() != "temperature"@.len());
    assert("messages"@.len() != "stop_sequences"@.len());
    assert("messages"@.len() != "stream"@.len());
    assert("messages"@.len() != "top_k"@.len());
    assert("messages"@.len() != "top_p"@.len());
    assert("messages"@.len() != "tools"@.len());
    assert("messages"@.len() != "tool_choice"@.len());
    assert("messages"@[2] != "metadata"@[2]);
    assert("model"@.len() != "system"@.len());
    assert("model"@.len() != "temperature"@.len());
    assert("model"@.len() != "stop_sequences"@.len());
    assert("model"@.len() != "stream"@.len());
    assert("model"@[0] != "top_k"@[0]);
    assert("model"@[0] != "top_p"@[0]);
    assert("model"@[0] != "tools"@[0]);
    assert("model"@.len() != "tool_choice"@.len());
    assert("model"@.len() != "metadata"@.len());
    assert("system"@.len() != "temperature"@.len());
    assert("system"@.len() != "stop_sequences"@.len());
    assert("system"@[1] != "stream"@[1]);
    assert("system"@.len() != "top_k"@.len());
    assert("system"@.len() != "top_p"@.len());
    assert("system"@.len() != "tools"@.len());
    assert("system"@.len() != "tool_choice"@.len());
    assert("system"@.len() != "metadata"@.len());
    assert("temperature"@.len() != "stop_sequences"@.len());
    assert("temperature"@.len() != "stream"@.len());
    assert("temperature"@.len() != "top_k"@.len());
    assert("temperature"@.len() != "top_p"@.len());
    assert("temperature"@.len() != "tools"@.len());
    assert("temperature"@[1] != "tool_choice"@[1]);
    assert("temperature"@.len() != "metadata"@.len());
    assert("stop_sequences"@.len() != "stream"@.len());
    assert("stop_sequences"@.len() != "top_k"@.len());
    assert("stop_sequences"@.len() != "top_p"@.len());
    assert("stop_sequences"@.len() != "tools"@.len());
    assert("stop_sequences"@.len() != "tool_choice"@.len());
    assert("stop_sequences"@.len() != "metadata"@.len());
    assert("stream"@.len() != "top_k"@.len());
    assert("stream"@.len() != "top_p"@.len());
    assert("stream"@.len() != "tools"@.len());
    assert("stream"@.len() != "tool_choice"@.len());
    assert("stream"@.len() != "metadata"@.len());
    assert("top_k"@[4] != "top_p"@[4]);
    assert("top_k"@[2] != "tools"@[2]);
    assert("top_k"@.len() != "tool_choice"@.len());
    assert("top_k"@.len() != "metadata"@.len());
    assert("top_p"@[2] != "tools"@[2]);
    assert("top_p"@.len() != "tool_choice"@.len());
    assert("top_p"@.len() != "metadata"@.len());
    assert("tools"@.len() != "tool_choice"@.len());
    assert("tools"@.len() != "metadata"@.len());
    assert("tool_choice"@.len() != "metadata"@.len());
}

/// The wire forms of the messages, in order.
pub(crate) fn messages_to_json(ms: Vec<Message>) -> (items: Vec<Json>)
    ensures
        messages_wire(ms@, items@),
{
    let mut rest = ms;
    let ghost all = rest@;
    let n = rest.len();
    let mut items: Vec<Json> = Vec::new();
    let mut i: usize = 0;
    while i < n
        invariant
            n == all.len(),
            i <= n,
            rest@ == all.subrange(i as int, n as int),
            items@.len() == i,
            forall|m: int| 0 <= m < i ==> message_wire(all[m]@, items@[m]),
        decreases n - i,
    {
        let m = rest.remove(0);
        items.push(m.to_json());
        i = i + 1;
    }
    items
}

/// The strings as JSON strings, in order.
fn strings_to_json(ss: Vec<String>) -> (items: Vec<Json>)
    ensures
        strings_wire(ss@, items@),
{
    let mut rest = ss;
    let ghost all = rest@;
    let n = rest.len();
    let mut items: Vec<Json> = Vec::new();
    let mut i: usize = 0;
    while i < n
        invariant
            n == all.len(),
            i <= n,
            rest@ == all.subrange(i as int, n as int),
            items@.len() == i,
            forall|m: int| 0 <= m < i ==> items@[m] == Json::String(all[m]),
        decreases n - i,
    {
        let s = rest.remove(0);
        items.push(Json::String(s));
        i = i + 1;
    }
    items
}

/// The wire forms of the tools, in order.
fn tools_to_json(ts: Vec<Tool>) -> (items: Vec<Json>)
    ensures
        tools_wire(ts@, items@),
{
    let mut rest = ts;
    let ghost all = rest@;
    let n = rest.len();
    let mut items: Vec<Json> = Vec::new();
    let mut i: usize = 0;
    while i < n
        invariant
            n == all.len(),
            i <= n,
            rest@ == all.subrange(i as int, n as int),
            items@.len() == i,
            forall|m: int| 0 <= m < i ==> tool_wire(all[m], items@[m]),
        decreases n - i,
    {
        let t = rest.remove(0);
        items.push(t.to_json());
        i = i + 1;
    }
    items
}

impl Tool {
    /// The wire form of the tool; an absent description is left out.
    pub fn to_json(self) -> (j: Json)
        ensures
            tool_wire(self, j),
    {
        let mut fs: Vec<(String, Json)> = Vec::new();
        fs.push(("name".to_owned(), Json::String(self.name)));
        if let Some(d) = self.description {
            fs.push(("description".to_owned(), Json::String(d)));
        }
        fs.push(("input_schema".to_owned(), self.input_schema));
        Json::Object(fs)
    }
}

impl ToolChoice {
    /// The wire form of the tool choice.
    pub fn to_json(self) -> (j: Json)
        ensures
            tool_choice_wire(self, j),
    {
        let mut fs: Vec<(String, Json)> = Vec::new();
        match self {
            ToolChoice::Auto => fs.push(("type".to_owned(), Json::String("auto".to_owned()))),
            ToolChoice::Any => fs.push(("type".to_owned(), Json::String("any".to_owned()))),
            ToolChoice::Tool { name } => {
                fs.push(("type".to_owned(), Json::String("tool".to_owned())));
                fs.push(("name".to_owned(), Json::String(name)));
            },
        }
        Json::Object(fs)
    }

    /// Reads a tool choice from its wire form, dispatching on its `type` tag.
    pub fn from_json(j: Json) -> (r: Result<ToolChoice, DecodeError>)
        ensures
            lift(r) == tool_choice_of(j),
    {
        proof {
            lemma_names_distinct();
            reveal_strlit("auto");
            reveal_strlit("any");
            reveal_strlit("tool");
            assert("auto"@.len() != "any"@.len() && "any"@.len() != "tool"@.len());
            assert("auto"@[0] != "tool"@[0]);
        }
        let mut fs = match j {
            Json::Object(fs) => fs,
            _ => return Err(DecodeError::NotAnObject),
        };
        let tag = match take_member(&mut fs, "type") {
            Some(Json::String(t)) => t,
            Some(_) => return Err(DecodeError::InvalidType("type".to_owned())),
            None => return Err(missing("type")),
        };
        if tag.eq(&"auto".to_owned()) {
            Ok(ToolChoice::Auto)
        } else if tag.eq(&"any".to_owned()) {
            Ok(ToolChoice::Any)
        } else if tag.eq(&"tool".to_owned()) {
            match take_member(&mut fs, "name") {
                Some(Json::String(name)) => Ok(ToolChoice::Tool { name }),
                Some(_) => Err(DecodeError::InvalidType("name".to_owned())),
                None => Err(missing("name")),
            }
        } else {
            Err(DecodeError::UnknownTag(tag))
        }
    }
}

impl Metadata {
    /// No two entries share a key, as in a map.
    pub open spec fn wf(&self) -> bool {
        forall|i: int, j: int|
            0 <= i < j < self.fields@.len() ==> self.fields@[i].0@ != self.fields@[j].0@
    }

    /// Some entry has the key `k`.
    pub open spec fn has_key(&self, k: Seq<char>) -> bool {
        exists|i: int| 0 <= i < self.fields@.len() && self.fields@[i].0@ == k
    }

    /// Metadata with no entries.
    pub fn new() -> (md: Metadata)
        ensures
            md.fields@.len() == 0,
            md.wf(),
    {
        Metadata { fields: Vec::new() }
    }

    /// Sets the value of `key`: the entry of that key takes the new value in
    /// its place, or a new entry is appended when there is none.
    pub fn insert(&mut self, key: String, value: String)
        requires
            old(self).wf(),
        ensures
            final(self).wf(),
            old(self).has_key(key@) ==> exists|i: int|
                0 <= i < old(self).fields@.len() && old(self).fields@[i].0@ == key@
                    && final(self).fields@ == old(self).fields@.update(i, (key, value)),
            !old(self).has_key(key@) ==> final(self).fields@ == old(self).fields@.push((key, value)),
    {
        let n = self.fields.len();
        let mut i: usize = 0;
        while i < n
            invariant
                n == self.fields@.len(),
                i <= n,
                self.fields@ == old(self).fields@,
                old(self).wf(),
                forall|m: int| 0 <= m < i ==> self.fields@[m].0@ != key@,
            decreases n - i,
        {
            if self.fields[i].0 == key {
                let ghost before = self.fields@;
                self.fields.remove(i);
                self.fields.insert(i, (key, value));
                assert(self.fields@ =~= before.update(i as int, (key, value)));
                assert forall|a: int, b: int|
                    0 <= a < b < self.fields@.len() implies self.fields@[a].0@
                        != self.fields@[b].0@ by {
                    assert(self.fields@[a].0@ == before[a].0@);
                    assert(self.fields@[b].0@ == before[b].0@);
                }
                return;
            }
            i = i + 1;
        }
        let ghost before = self.fields@;
        self.fields.push((key, value));
        assert forall|a: int, b: int|
            0 <= a < b < self.fields@.len() implies self.fields@[a].0@ != self.fields@[b].0@ by {
            assert(self.fields@[a] == before[a]);
            if b < n {
                assert(self.fields@[b] == before[b]);
            }
        }
    }

    /// The wire form of the metadata: one string member per entry.
    pub fn to_json(self) -> (j: Json)
        ensures
            metadata_wire(self, j),
    {
        let mut rest = self.fields;
        let ghost all = rest@;
        let n = rest.len();
        let mut fs: Vec<(String, Json)> = Vec::new();
        let mut i: usize = 0;
        while i < n
            invariant
                n == all.len(),
                i <= n,
                rest@ == all.subrange(i as int, n as int),
                fs@.len() == i,
                forall|m: int|
                    0 <= m < i ==> fs@[m].0 == all[m].0 && fs@[m].1 == Json::String(all[m].1),
            decreases n - i,
        {
            let (k, v) = rest.remove(0);
            fs.push((k, Json::String(v)));
            i = i + 1;
        }
        Json::Object(fs)
    }
}


impl From<RequiredMessageParams> for CreateMessageParams {
    fn from(required: RequiredMessageParams) -> (r: CreateMessageParams)
        ensures
            r == bare_request(required),
    {
        CreateMessageParams {
            max_tokens: required.max_tokens,
            messages: required.messages,
            model: required.model,
            system: None,
            temperature: None,
            stop_sequences: None,
            stream: None,
            top_k: None,
            top_p: None,
            tools: None,
            tool_choice: None,
            metadata: None,
        }
    }
}

impl vstd::std_specs::convert::FromSpecImpl<RequiredMessageParams> for CreateMessageParams {
    open spec fn obeys_from_spec() -> bool {
        true
    }

    open spec fn from_spec(required: RequiredMessageParams) -> CreateMessageParams {
        bare_request(required)
    }
}

impl CreateMessageParams {
    /// A request with the required fields and every optional field unset.
    pub fn new(required: RequiredMessageParams) -> (r: CreateMessageParams)
        ensures
            r == bare_request(required),
    {
        CreateMessageParams::from(required)
    }

    /// Sets the system prompt. A second call replaces the value of the first.
    pub fn with_system(self, system: String) -> (r: CreateMessageParams)
        ensures
            r == (CreateMessageParams { system: Some(system), ..self }),
    {
        CreateMessageParams { system: Some(system), ..self }
    }

    /// Sets the sampling temperature, given as the bit pattern of an `f32`. A second call replaces the value of the first.
    pub fn with_temperature(self, temperature: u32) -> (r: CreateMessageParams)
        ensures
            r == (CreateMessageParams { temperature: Some(temperature), ..self }),
    {
        CreateMessageParams { temperature: Some(temperature), ..self }
    }

    /// Sets the custom stop sequences. A second call replaces the value of the first.
    pub fn with_stop_sequences(self, stop_sequences: Vec<String>) -> (r: CreateMessageParams)
        ensures
            r == (CreateMessageParams { stop_sequences: Some(stop_sequences), ..self }),
    {
        CreateMessageParams { stop_sequences: Some(stop_sequences), ..self }
    }

    /// Sets whether the response is streamed. A second call replaces the value of the first.
    pub fn with_stream(self, stream: bool) -> (r: CreateMessageParams)
        ensures
            r == (CreateMessageParams { stream: Some(stream), ..self }),
    {
        CreateMessageParams { stream: Some(stream), ..self }
    }

    /// Sets top-k sampling. A second call replaces the value of the first.
    pub fn with_top_k(self, top_k: u32) -> (r: CreateMessageParams)
        ensures
            r == (CreateMessageParams { top_k: Some(top_k), ..self }),
    {
        CreateMessageParams { top_k: Some(top_k), ..self }
    }

    /// Sets top-p sampling, given as the bit pattern of an `f32`. A second call replaces the value of the first.
    pub fn with_top_p(self, top_p: u32) -> (r: CreateMessageParams)
        ensures
            r == (CreateMessageParams { top_p: Some(top_p), ..self }),
    {
        CreateMessageParams { top_p: Some(top_p), ..self }
    }

    /// Sets the tools that the model may use. A second call replaces the value of the first.
    pub fn with_tools(self, tools: Vec<Tool>) -> (r: CreateMessageParams)
        ensures
            r == (CreateMessageParams { tools: Some(tools), ..self }),
    {
        CreateMessageParams { tools: Some(tools), ..self }
    }

    /// Sets how the model should use tools. A second call replaces the value of the first.
    pub fn with_tool_choice(self, tool_choice: ToolChoice) -> (r: CreateMessageParams)
        ensures
            r == (CreateMessageParams { tool_choice: Some(tool_choice), ..self }),
    {
        CreateMessageParams { tool_choice: Some(tool_choice), ..self }
    }

    /// Sets the request metadata. A second call replaces the value of the first.
    pub fn with_metadata(self, metadata: Metadata) -> (r: CreateMessageParams)
        ensures
            r == (CreateMessageParams { metadata: Some(metadata), ..self }),
    {
        CreateMessageParams { metadata: Some(metadata), ..self }
    }

    /// The wire form of the request. Each optional field that is unset is left
    /// out entirely: no member is written for it.
    pub fn to_json(self) -> (j: Json)
        ensures
            request_wire(self, j),
    {
        let ghost p = self;
        proof {
            lemma_request_names_distinct();
        }
        let CreateMessageParams {
            max_tokens,
            messages,
            model,
            system,
            temperature,
            stop_sequences,
            stream,
            top_k,
            top_p,
            tools,
            tool_choice,
            metadata,
        } = self;
        let mut fs: Vec<(String, Json)> = Vec::new();
        assert(keys_of(fs@) =~= Set::<Seq<char>>::empty());
        push_member(&mut fs, "max_tokens", Json::Number(Number::PosInt(max_tokens as u64)));
        push_member(&mut fs, "messages", Json::Array(messages_to_json(messages)));
        push_member(&mut fs, "model", Json::String(model));
        let ghost mut ks = set!["max_tokens"@, "messages"@, "model"@];
        assert(keys_of(fs@) =~= ks);
        if let Some(v) = system {
            push_member(&mut fs, "system", Json::String(v));
        }
        assert(keys_of(fs@) =~= ks.union(opt_key(p.system is Some, "system"@)));
        proof {
            ks = ks.union(opt_key(p.system is Some, "system"@));
        }
        if let Some(v) = temperature {
            push_member(&mut fs, "temperature", Json::Number(Number::Single(v)));
        }
        assert(keys_of(fs@) =~= ks.union(opt_key(p.temperature is Some, "temperature"@)));
        proof {
            ks = ks.union(opt_key(p.temperature is Some, "temperature"@));
        }
        if let Some(v) = stop_sequences {
            push_member(&mut fs, "stop_sequences", Json::Array(strings_to_json(v)));
        }
        assert(keys_of(fs@) =~= ks.union(opt_key(p.stop_sequences is Some, "stop_sequences"@)));
        proof {
            ks = ks.union(opt_key(p.stop_sequences is Some, "stop_sequences"@));
        }
        if let Some(v) = stream {
            push_member(&mut fs, "stream", Json::Bool(v));
        }
        assert(keys_of(fs@) =~= ks.union(opt_key(p.stream is Some, "stream"@)));
        proof {
            ks = ks.union(opt_key(p.stream is Some, "stream"@));
        }
        if let Some(v) = top_k {
            push_member(&mut fs, "top_k", Json::Number(Number::PosInt(v as u64)));
        }
        assert(keys_of(fs@) =~= ks.union(opt_key(p.top_k is Some, "top_k"@)));
        proof {
            ks = ks.union(opt_key(p.top_k is Some, "top_k"@));
        }
        if let Some(v) = top_p {
            push_member(&mut fs, "top_p", Json::Number(Number::Single(v)));
        }
        assert(keys_of(fs@) =~= ks.union(opt_key(p.top_p is Some, "top_p"@)));
        proof {
            ks = ks.union(opt_key(p.top_p is Some, "top_p"@));
        }
        if let Some(v) = tools {
            push_member(&mut fs, "tools", Json::Array(tools_to_json(v)));
        }
        assert(keys_of(fs@) =~= ks.union(opt_key(p.tools is Some, "tools"@)));
        proof {
            ks = ks.union(opt_key(p.tools is Some, "tools"@));
        }
        if let Some(v) = tool_choice {
            push_member(&mut fs, "tool_choice", v.to_json());
        }
        assert(keys_of(fs@) =~= ks.union(opt_key(p.tool_choice is Some, "tool_choice"@)));
        proof {
            ks = ks.union(opt_key(p.tool_choice is Some, "tool_choice"@));
        }
        if let Some(v) = metadata {
            push_member(&mut fs, "metadata", v.to_json());
        }
        assert(keys_of(fs@) =~= ks.union(opt_key(p.metadata is Some, "metadata"@)));
        proof {
            ks = ks.union(opt_key(p.metadata is Some, "metadata"@));
        }
        Json::Object(fs)
    }
}

/// Setting the temperature twice leaves the request as setting it once to
/// the second value would; the first value is gone.
pub proof fn lemma_temperature_last_wins(p: CreateMessageParams, first: u32, second: u32)
    ensures
        (CreateMessageParams {
            temperature: Some(second),
            ..CreateMessageParams { temperature: Some(first), ..p }
        }) == (CreateMessageParams { temperature: Some(second), ..p }),
{
}

/// A request built from the required fields alone is written with exactly the
/// members `model`, `messages` and `max_tokens`.
pub proof fn lemma_bare_request_keys(required: RequiredMessageParams, j: Json)
    requires
        request_wire(bare_request(required), j),
    ensures
        keys_of(j->Object_0@) == set!["model"@, "messages"@, "max_tokens"@],
{
    assert(request_keys(bare_request(required)) =~= set!["model"@, "messages"@, "max_tokens"@]);
}

} // verus!
