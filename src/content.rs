//! Roles, content segments and message content, with their wire encoding.
use vstd::prelude::*;
use crate::error::{invalid, lift, missing, DecodeError, DecodeFault};
use crate::json::{member, take_member, Json};

verus! {

/// Who sent a message. On the wire: `"user"` or `"assistant"`.
#[derive(Debug, Clone, Copy, PartialEq, Eq, Structural)]
pub enum Role {
    User,
    Assistant,
}

/// Where an image comes from; every part is an opaque string.
#[derive(Debug, Clone, PartialEq)]
pub struct ImageSource {
    /// Kind of source; `type` on the wire.
    pub type_: String,
    /// Media type of the image.
    pub media_type: String,
    /// Base64-encoded image data.
    pub data: String,
}

/// One segment of message content, tagged on the wire by its `type` member.
#[derive(Debug)]
pub enum ContentBlock {
    /// Tag `"text"`.
    Text { text: String },
    /// Tag `"image"`.
    Image { source: ImageSource },
    /// Tag `"tool_use"`; `input` is any JSON value, passed through.
    ToolUse { id: String, name: String, input: Json },
    /// Tag `"tool_result"`.
    ToolResult { tool_use_id: String, content: String },
}

/// `j` is a JSON string holding `s`.
pub open spec fn is_text(j: Json, s: Seq<char>) -> bool {
    j matches Json::String(x) && x@ == s
}

/// Member `i` of `fs` is named `k` and holds `v`.
pub open spec fn member_at(fs: Seq<(String, Json)>, i: int, k: Seq<char>, v: Json) -> bool {
    0 <= i < fs.len() && fs[i].0@ == k && fs[i].1 == v
}

/// The first member of `fs` is the tag `"type": tag`.
pub open spec fn tagged(fs: Seq<(String, Json)>, tag: Seq<char>) -> bool {
    fs.len() >= 1 && fs[0].0@ == "type"@ && is_text(fs[0].1, tag)
}

/// The string member `k` of `fs`, or why there is none.
pub open spec fn string_member(fs: Seq<(String, Json)>, k: Seq<char>) -> Result<String, DecodeFault> {
    match member(fs, k) {
        Some(Json::String(s)) => Ok(s),
        Some(_) => Err(DecodeFault::InvalidType(k)),
        None => Err(DecodeFault::MissingField(k)),
    }
}

/// The wire name of a role.
pub open spec fn role_name(r: Role) -> Seq<char> {
    match r {
        Role::User => "user"@,
        Role::Assistant => "assistant"@,
    }
}

/// The role that a wire value names.
pub open spec fn role_of(j: Json) -> Result<Role, DecodeFault> {
    match j {
        Json::String(s) => if s@ == "user"@ {
            Ok(Role::User)
        } else if s@ == "assistant"@ {
            Ok(Role::Assistant)
        } else {
            Err(DecodeFault::UnknownTag(s@))
        },
        _ => Err(DecodeFault::InvalidType("role"@)),
    }
}

/// `j` is the wire form of the image source `s`: members `type`, `media_type`, `data`.
pub open spec fn image_source_wire(s: ImageSource, j: Json) -> bool {
    match j {
        Json::Object(fs) => fs@.len() == 3 && member_at(fs@, 0, "type"@, Json::String(s.type_))
            && member_at(fs@, 1, "media_type"@, Json::String(s.media_type)) && member_at(
            fs@,
            2,
            "data"@,
            Json::String(s.data),
        ),
        _ => false,
    }
}

/// The image source that a wire value holds.
pub open spec fn image_source_of(j: Json) -> Result<ImageSource, DecodeFault> {
    match j {
        Json::Object(fs) => match (
            string_member(fs@, "type"@),
            string_member(fs@, "media_type"@),
            string_member(fs@, "data"@),
        ) {
            (Err(e), _, _) => Err(e),
            (Ok(_), Err(e), _) => Err(e),
            (Ok(_), Ok(_), Err(e)) => Err(e),
            (Ok(type_), Ok(media_type), Ok(data)) => Ok(ImageSource { type_, media_type, data }),
        },
        _ => Err(DecodeFault::NotAnObject),
    }
}

/// `j` is the wire form of the block `b`: the tag first, then the variant's members in order.
pub open spec fn block_wire(b: ContentBlock, j: Json) -> bool {
    match j {
        Json::Object(fs) => match b {
            ContentBlock::Text { text } => fs@.len() == 2 && tagged(fs@, "text"@) && member_at(
                fs@,
                1,
                "text"@,
                Json::String(text),
            ),
            ContentBlock::Image { source } => fs@.len() == 2 && tagged(fs@, "image"@) && fs@[1].0@
                == "source"@ && image_source_wire(source, fs@[1].1),
            ContentBlock::ToolUse { id, name, input } => fs@.len() == 4 && tagged(fs@, "tool_use"@)
                && member_at(fs@, 1, "id"@, Json::String(id)) && member_at(
                fs@,
                2,
                "name"@,
                Json::String(name),
            ) && member_at(fs@, 3, "input"@, input),
            ContentBlock::ToolResult { tool_use_id, content } => fs@.len() == 3 && tagged(
                fs@,
                "tool_result"@,
            ) && member_at(fs@, 1, "tool_use_id"@, Json::String(tool_use_id)) && member_at(
                fs@,
                2,
                "content"@,
                Json::String(content),
            ),
        },
        _ => false,
    }
}

/// The block that the members of a tagged object hold, dispatched on the tag.
pub open spec fn block_of_members(fs: Seq<(String, Json)>) -> Result<ContentBlock, DecodeFault> {
    match string_member(fs, "type"@) {
        Err(e) => Err(e),
        Ok(t) => if t@ == "text"@ {
            match string_member(fs, "text"@) {
                Ok(text) => Ok(ContentBlock::Text { text }),
                Err(e) => Err(e),
            }
        } else if t@ == "image"@ {
            match member(fs, "source"@) {
                None => Err(DecodeFault::MissingField("source"@)),
                Some(j) => match image_source_of(j) {
                    Ok(source) => Ok(ContentBlock::Image { source }),
                    Err(e) => Err(e),
                },
            }
        } else if t@ == "tool_use"@ {
            match (string_member(fs, "id"@), string_member(fs, "name"@), member(fs, "input"@)) {
                (Err(e), _, _) => Err(e),
                (Ok(_), Err(e), _) => Err(e),
                (Ok(_), Ok(_), None) => Err(DecodeFault::MissingField("input"@)),
                (Ok(id), Ok(name), Some(input)) => Ok(ContentBlock::ToolUse { id, name, input }),
            }
        } else if t@ == "tool_result"@ {
            match (string_member(fs, "tool_use_id"@), string_member(fs, "content"@)) {
                (Err(e), _) => Err(e),
                (Ok(_), Err(e)) => Err(e),
                (Ok(tool_use_id), Ok(content)) => Ok(
                    ContentBlock::ToolResult { tool_use_id, content },
                ),
            }
        } else {
            Err(DecodeFault::UnknownTag(t@))
        },
    }
}

/// The block that a wire value holds.
pub open spec fn block_of(j: Json) -> Result<ContentBlock, DecodeFault> {
    match j {
        Json::Object(fs) => block_of_members(fs@),
        _ => Err(DecodeFault::NotAnObject),
    }
}

/// The first member named `k` is the one at `i`.
pub proof fn lemma_member_at(fs: Seq<(String, Json)>, i: int, k: Seq<char>)
    requires
        0 <= i < fs.len(),
        fs[i].0@ == k,
        forall|m: int| 0 <= m < i ==> fs[m].0@ != k,
    ensures
        member(fs, k) == Some(fs[i].1),
    decreases i,
{
    if i > 0 {
        lemma_member_at(fs.drop_first(), i - 1, k);
    }
}

/// The member names and tags of the wire format differ from one another.
pub proof fn lemma_names_distinct()
    ensures
        "type"@ != "text"@ && "type"@ != "source"@ && "type"@ != "id"@ && "type"@ != "name"@,
        "type"@ != "input"@ && "type"@ != "tool_use_id"@ && "type"@ != "content"@,
        "type"@ != "media_type"@ && "type"@ != "data"@ && "media_type"@ != "data"@,
        "id"@ != "name"@ && "id"@ != "input"@ && "name"@ != "input"@,
        "tool_use_id"@ != "content"@,
        "text"@ != "image"@ && "text"@ != "tool_use"@ && "text"@ != "tool_result"@,
        "image"@ != "tool_use"@ && "image"@ != "tool_result"@ && "tool_use"@ != "tool_result"@,
        "role"@ != "content"@ && "user"@ != "assistant"@,
{
    reveal_strlit("type");
    reveal_strlit("text");
    reveal_strlit("image");
    reveal_strlit("source");
    reveal_strlit("tool_use");
    reveal_strlit("id");
    reveal_strlit("name");
    reveal_strlit("input");
    reveal_strlit("tool_result");
    reveal_strlit("tool_use_id");
    reveal_strlit("content");
    reveal_strlit("media_type");
    reveal_strlit("data");
    reveal_strlit("role");
    reveal_strlit("user");
    reveal_strlit("assistant");
    assert("role"@.len() != "content"@.len() && "user"@.len() != "assistant"@.len());
    assert("type"@.len() != "id"@.len() && "type"@.len() != "tool_use_id"@.len() && "type"@.len() != "media_type"@.len());
    assert("media_type"@.len() != "data"@.len());
    assert("type"@[1] != "text"@[1] && "type"@[0] != "data"@[0] && "type"@[0] != "name"@[0]);
    assert("type"@.len() != "source"@.len());
    assert("text"@.len() != "image"@.len() && "text"@.len() != "tool_use"@.len() && "text"@.len()
        != "tool_result"@.len() && "image"@.len() != "tool_use"@.len() && "image"@.len()
        != "tool_result"@.len() && "tool_use"@.len() != "tool_result"@.len());
    assert("id"@.len() != "name"@.len() && "id"@.len() != "input"@.len() && "name"@.len()
        != "input"@.len() && "type"@.len() != "input"@.len());
    assert("tool_use_id"@.len() != "content"@.len() && "type"@.len() != "content"@.len());
}

/// Decoding the wire form of a block gives the block back.
pub proof fn lemma_block_round_trip(b: ContentBlock, j: Json)
    requires
        block_wire(b, j),
    ensures
        block_of(j) == Ok::<ContentBlock, DecodeFault>(b),
{
    lemma_names_distinct();
    let fs = j->Object_0@;
    lemma_member_at(fs, 0, "type"@);
    match b {
        ContentBlock::Text { text } => {
            lemma_member_at(fs, 1, "text"@);
        },
        ContentBlock::Image { source } => {
            lemma_member_at(fs, 1, "source"@);
            let ss = fs[1].1->Object_0@;
            lemma_member_at(ss, 0, "type"@);
            lemma_member_at(ss, 1, "media_type"@);
            lemma_member_at(ss, 2, "data"@);
        },
        ContentBlock::ToolUse { id, name, input } => {
            lemma_member_at(fs, 1, "id"@);
            lemma_member_at(fs, 2, "name"@);
            lemma_member_at(fs, 3, "input"@);
        },
        ContentBlock::ToolResult { tool_use_id, content } => {
            lemma_member_at(fs, 1, "tool_use_id"@);
            lemma_member_at(fs, 2, "content"@);
        },
    }
}


/// An owned copy of a name of the wire format.
fn name_of(s: &str) -> (r: String)
    ensures
        r@ == s@,
{
    s.to_owned()
}

/// A JSON string holding `s`.
fn text_json(s: &str) -> (j: Json)
    ensures
        is_text(j, s@),
{
    Json::String(s.to_owned())
}

/// Whether `s` spells the name `lit`.
pub(crate) fn spells_name(s: &String, lit: &str) -> (r: bool)
    ensures
        r == (s@ == lit@),
{
    s.eq(&lit.to_owned())
}

/// Takes the string member `k` out of `fs`.
pub(crate) fn take_string_member(fs: &mut Vec<(String, Json)>, k: &str) -> (r: Result<String, DecodeError>)
    ensures
        lift(r) == string_member(old(fs)@, k@),
        forall|k2: Seq<char>| k2 != k@ ==> member(final(fs)@, k2) == member(old(fs)@, k2),
{
    match take_member(fs, k) {
        Some(Json::String(s)) => Ok(s),
        Some(_) => Err(invalid(k)),
        None => Err(missing(k)),
    }
}

impl Role {
    /// The wire form of the role.
    pub fn to_json(self) -> (j: Json)
        ensures
            is_text(j, role_name(self)),
    {
        match self {
            Role::User => text_json("user"),
            Role::Assistant => text_json("assistant"),
        }
    }

    /// Reads a role from its wire form.
    pub fn from_json(j: Json) -> (r: Result<Role, DecodeError>)
        ensures
            lift(r) == role_of(j),
    {
        match j {
            Json::String(s) => {
                if spells_name(&s, "user") {
                    Ok(Role::User)
                } else if spells_name(&s, "assistant") {
                    Ok(Role::Assistant)
                } else {
                    Err(DecodeError::UnknownTag(s))
                }
            },
            _ => Err(invalid("role")),
        }
    }
}

impl ImageSource {
    /// The wire form of the image source.
    pub fn to_json(self) -> (j: Json)
        ensures
            image_source_wire(self, j),
    {
        let mut fs: Vec<(String, Json)> = Vec::new();
        fs.push((name_of("type"), Json::String(self.type_)));
        fs.push((name_of("media_type"), Json::String(self.media_type)));
        fs.push((name_of("data"), Json::String(self.data)));
        Json::Object(fs)
    }

    /// Reads an image source from its wire form.
    pub fn from_json(j: Json) -> (r: Result<ImageSource, DecodeError>)
        ensures
            lift(r) == image_source_of(j),
    {
        proof {
            lemma_names_distinct();
        }
        match j {
            Json::Object(mut fs) => {
                let type_ = match take_string_member(&mut fs, "type") {
                    Ok(s) => s,
                    Err(e) => return Err(e),
                };
                let media_type = match take_string_member(&mut fs, "media_type") {
                    Ok(s) => s,
                    Err(e) => return Err(e),
                };
                let data = match take_string_member(&mut fs, "data") {
                    Ok(s) => s,
                    Err(e) => return Err(e),
                };
                Ok(ImageSource { type_, media_type, data })
            },
            _ => Err(DecodeError::NotAnObject),
        }
    }
}

impl ContentBlock {
    /// A text block.
    pub fn text(text: String) -> (b: ContentBlock)
        ensures
            b == (ContentBlock::Text { text }),
    {
        ContentBlock::Text { text }
    }

    /// An image block with the given source parts.
    pub fn image(type_: String, media_type: String, data: String) -> (b: ContentBlock)
        ensures
            b == (ContentBlock::Image { source: ImageSource { type_, media_type, data } }),
    {
        ContentBlock::Image { source: ImageSource { type_, media_type, data } }
    }

    /// The wire form of the block: its tag, then its members.
    pub fn to_json(self) -> (j: Json)
        ensures
            block_wire(self, j),
    {
        let mut fs: Vec<(String, Json)> = Vec::new();
        match self {
            ContentBlock::Text { text } => {
                fs.push((name_of("type"), text_json("text")));
                fs.push((name_of("text"), Json::String(text)));
            },
            ContentBlock::Image { source } => {
                fs.push((name_of("type"), text_json("image")));
                fs.push((name_of("source"), source.to_json()));
            },
            ContentBlock::ToolUse { id, name, input } => {
                fs.push((name_of("type"), text_json("tool_use")));
                fs.push((name_of("id"), Json::String(id)));
                fs.push((name_of("name"), Json::String(name)));
                fs.push((name_of("input"), input));
            },
            ContentBlock::ToolResult { tool_use_id, content } => {
                fs.push((name_of("type"), text_json("tool_result")));
                fs.push((name_of("tool_use_id"), Json::String(tool_use_id)));
                fs.push((name_of("content"), Json::String(content)));
            },
        }
        Json::Object(fs)
    }

    /// Reads a block from its wire form, dispatching on its `type` tag.
    pub fn from_json(j: Json) -> (r: Result<ContentBlock, DecodeError>)
        ensures
            lift(r) == block_of(j),
    {
        proof {
            lemma_names_distinct();
        }
        let mut fs = match j {
            Json::Object(fs) => fs,
            _ => return Err(DecodeError::NotAnObject),
        };
        let tag = match take_string_member(&mut fs, "type") {
            Ok(t) => t,
            Err(e) => return Err(e),
        };
        if spells_name(&tag, "text") {
            match take_string_member(&mut fs, "text") {
                Ok(text) => Ok(ContentBlock::Text { text }),
                Err(e) => Err(e),
            }
        } else if spells_name(&tag, "image") {
            match take_member(&mut fs, "source") {
                None => Err(missing("source")),
                Some(src) => match ImageSource::from_json(src) {
                    Ok(source) => Ok(ContentBlock::Image { source }),
                    Err(e) => Err(e),
                },
            }
        } else if spells_name(&tag, "tool_use") {
            let id = match take_string_member(&mut fs, "id") {
                Ok(s) => s,
                Err(e) => return Err(e),
            };
            let name = match take_string_member(&mut fs, "name") {
                Ok(s) => s,
                Err(e) => return Err(e),
            };
            match take_member(&mut fs, "input") {
                None => Err(missing("input")),
                Some(input) => Ok(ContentBlock::ToolUse { id, name, input }),
            }
        } else if spells_name(&tag, "tool_result") {
            let tool_use_id = match take_string_member(&mut fs, "tool_use_id") {
                Ok(s) => s,
                Err(e) => return Err(e),
            };
            match take_string_member(&mut fs, "content") {
                Ok(content) => Ok(ContentBlock::ToolResult { tool_use_id, content }),
                Err(e) => Err(e),
            }
        } else {
            Err(DecodeError::UnknownTag(tag))
        }
    }
}

} // verus!
