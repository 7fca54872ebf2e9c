//! Messages: a role with content that is either plain text or a list of blocks.
use vstd::prelude::*;
use crate::content::{
    block_of, block_wire, is_text, lemma_block_round_trip, lemma_member_at, lemma_names_distinct,
    role_name, role_of, ContentBlock, Role,
};
use crate::error::{invalid, missing, DecodeError, DecodeFault};
use crate::json::{member, take_member, Json};

verus! {

/// Content of a message. On the wire it carries no tag: text is a JSON
/// string and blocks are a JSON array.
#[derive(Debug)]
#[allow(inconsistent_fields)]
pub enum MessageContent {
    /// Simple text content.
    Text { content: String },
    /// Structured content blocks.
    Blocks { content: Vec<ContentBlock> },
}

/// The view of [`MessageContent`].
pub enum ContentView {
    Text(String),
    Blocks(Seq<ContentBlock>),
}

impl View for MessageContent {
    type V = ContentView;

    open spec fn view(&self) -> ContentView {
        match self {
            MessageContent::Text { content } => ContentView::Text(*content),
            MessageContent::Blocks { content } => ContentView::Blocks(content@),
        }
    }
}

/// One turn of a conversation.
#[derive(Debug)]
pub struct Message {
    /// Role of the sender.
    pub role: Role,
    /// Content, whose members are merged into the message's wire object.
    pub content: MessageContent,
}

/// The view of a [`Message`].
pub struct MessageView {
    pub role: Role,
    pub content: ContentView,
}

impl View for Message {
    type V = MessageView;

    open spec fn view(&self) -> MessageView {
        MessageView { role: self.role, content: self.content@ }
    }
}

/// `items` are the wire forms of the blocks `bs`, in order.
pub open spec fn blocks_wire(bs: Seq<ContentBlock>, items: Seq<Json>) -> bool {
    items.len() == bs.len() && forall|i: int| 0 <= i < bs.len() ==> block_wire(bs[i], items[i])
}

/// The blocks that a list of wire values holds, or the error of the first that holds none.
pub open spec fn blocks_of(items: Seq<Json>) -> Result<Seq<ContentBlock>, DecodeFault>
    decreases items.len(),
{
    if items.len() == 0 {
        Ok(Seq::empty())
    } else {
        match blocks_of(items.drop_last()) {
            Err(e) => Err(e),
            Ok(bs) => match block_of(items.last()) {
                Ok(b) => Ok(bs.push(b)),
                Err(e) => Err(e),
            },
        }
    }
}

/// `j` is the wire form of the content `c`: a string for text, an array for blocks.
pub open spec fn content_wire(c: ContentView, j: Json) -> bool {
    match c {
        ContentView::Text(s) => j == Json::String(s),
        ContentView::Blocks(bs) => match j {
            Json::Array(items) => blocks_wire(bs, items@),
            _ => false,
        },
    }
}

/// The content that a wire value holds, told apart by the value's JSON type alone.
pub open spec fn content_of(j: Json) -> Result<ContentView, DecodeFault> {
    match j {
        Json::String(s) => Ok(ContentView::Text(s)),
        Json::Array(items) => match blocks_of(items@) {
            Ok(bs) => Ok(ContentView::Blocks(bs)),
            Err(e) => Err(e),
        },
        _ => Err(DecodeFault::InvalidType("content"@)),
    }
}

/// `j` is the wire form of the message `m`: its role, then its content, in one object.
pub open spec fn message_wire(m: MessageView, j: Json) -> bool {
    match j {
        Json::Object(fs) => fs@.len() == 2 && fs@[0].0@ == "role"@ && is_text(
            fs@[0].1,
            role_name(m.role),
        ) && fs@[1].0@ == "content"@ && content_wire(m.content, fs@[1].1),
        _ => false,
    }
}

/// The message that a wire value holds.
pub open spec fn message_of(j: Json) -> Result<MessageView, DecodeFault> {
    match j {
        Json::Object(fs) => match member(fs@, "role"@) {
            None => Err(DecodeFault::MissingField("role"@)),
            Some(r) => match role_of(r) {
                Err(e) => Err(e),
                Ok(role) => match member(fs@, "content"@) {
                    None => Err(DecodeFault::MissingField("content"@)),
                    Some(c) => match content_of(c) {
                        Err(e) => Err(e),
                        Ok(content) => Ok(MessageView { role, content }),
                    },
                },
            },
        },
        _ => Err(DecodeFault::NotAnObject),
    }
}

/// A failure among the first `n` wire values is the failure of the whole list.
proof fn lemma_blocks_prefix_err(items: Seq<Json>, n: int)
    requires
        0 <= n <= items.len(),
        blocks_of(items.subrange(0, n)) is Err,
    ensures
        blocks_of(items) == blocks_of(items.subrange(0, n)),
    decreases items.len() - n,
{
    if n == items.len() {
        assert(items.subrange(0, n) =~= items);
    } else {
        assert(items.subrange(0, n + 1).drop_last() =~= items.subrange(0, n));
        lemma_blocks_prefix_err(items, n + 1);
    }
}

/// Decoding the wire forms of a list of blocks gives the list back.
pub proof fn lemma_blocks_round_trip(bs: Seq<ContentBlock>, items: Seq<Json>)
    requires
        blocks_wire(bs, items),
    ensures
        blocks_of(items) == Ok::<Seq<ContentBlock>, DecodeFault>(bs),
    decreases items.len(),
{
    if items.len() > 0 {
        lemma_blocks_round_trip(bs.drop_last(), items.drop_last());
        lemma_block_round_trip(bs.last(), items.last());
        assert(bs.drop_last().push(bs.last()) =~= bs);
    } else {
        assert(bs =~= Seq::<ContentBlock>::empty());
    }
}

/// Decoding the wire form of content gives the content back, in the same shape.
pub proof fn lemma_content_round_trip(c: ContentView, j: Json)
    requires
        content_wire(c, j),
    ensures
        content_of(j) == Ok::<ContentView, DecodeFault>(c),
{
    if let ContentView::Blocks(bs) = c {
        lemma_blocks_round_trip(bs, j->Array_0@);
    }
}

/// Decoding the wire form of a message gives the message back.
pub proof fn lemma_message_round_trip(m: MessageView, j: Json)
    requires
        message_wire(m, j),
    ensures
        message_of(j) == Ok::<MessageView, DecodeFault>(m),
{
    lemma_names_distinct();
    reveal_strlit("user");
    reveal_strlit("assistant");
    let fs = j->Object_0@;
    lemma_member_at(fs, 0, "role"@);
    lemma_member_at(fs, 1, "content"@);
    lemma_content_round_trip(m.content, fs[1].1);
}

/// Reads a list of blocks from their wire forms; fails with the error of the
/// first that holds no block.
pub fn decode_blocks(items: Vec<Json>) -> (r: Result<Vec<ContentBlock>, DecodeError>)
    ensures
        match r {
            Ok(bs) => blocks_of(items@) == Ok::<Seq<ContentBlock>, DecodeFault>(bs@),
            Err(e) => blocks_of(items@) == Err::<Seq<ContentBlock>, DecodeFault>(e@),
        },
{
    let mut rest = items;
    let ghost all = rest@;
    let n = rest.len();
    let mut blocks: Vec<ContentBlock> = Vec::new();
    let mut i: usize = 0;
    assert(all.subrange(0, 0) =~= Seq::<Json>::empty());
    while i < n
        invariant
            n == all.len(),
            i <= n,
            all == items@,
            rest@ == all.subrange(i as int, n as int),
            blocks_of(all.subrange(0, i as int)) == Ok::<Seq<ContentBlock>, DecodeFault>(blocks@),
        decreases n - i,
    {
        let item = rest.remove(0);
        assert(item == all[i as int]);
        assert(all.subrange(0, i + 1).drop_last() =~= all.subrange(0, i as int));
        assert(all.subrange(0, i + 1).last() == all[i as int]);
        match ContentBlock::from_json(item) {
            Ok(b) => blocks.push(b),
            Err(e) => {
                proof {
                    lemma_blocks_prefix_err(all, i + 1);
                }
                return Err(e);
            },
        }
        i = i + 1;
    }
    assert(all.subrange(0, n as int) =~= all);
    Ok(blocks)
}

impl MessageContent {
    /// The wire form of the content: a string for text, an array of blocks otherwise.
    pub fn to_json(self) -> (j: Json)
        ensures
            content_wire(self@, j),
    {
        match self {
            MessageContent::Text { content } => Json::String(content),
            MessageContent::Blocks { content } => {
                let mut blocks = content;
                let ghost bs = blocks@;
                let n = blocks.len();
                let mut items: Vec<Json> = Vec::new();
                let mut i: usize = 0;
                while i < n
                    invariant
                        n == bs.len(),
                        i <= n,
                        blocks@ == bs.subrange(i as int, n as int),
                        items@.len() == i,
                        forall|m: int| 0 <= m < i ==> block_wire(bs[m], items@[m]),
                    decreases n - i,
                {
                    let b = blocks.remove(0);
                    items.push(b.to_json());
                    i = i + 1;
                }
                Json::Array(items)
            },
        }
    }

    /// Reads content from its wire form: a JSON string gives text, a JSON
    /// array gives blocks, and any other value is refused.
    pub fn from_json(j: Json) -> (r: Result<MessageContent, DecodeError>)
        ensures
            match r {
                Ok(c) => content_of(j) == Ok::<ContentView, DecodeFault>(c@),
                Err(e) => content_of(j) == Err::<ContentView, DecodeFault>(e@),
            },
    {
        match j {
            Json::String(content) => Ok(MessageContent::Text { content }),
            Json::Array(items) => match decode_blocks(items) {
                Ok(content) => Ok(MessageContent::Blocks { content }),
                Err(e) => Err(e),
            },
            _ => Err(invalid("content")),
        }
    }
}

impl Message {
    /// A message with plain text content.
    pub fn new_text(role: Role, text: String) -> (m: Message)
        ensures
            m.role == role,
            m.content@ == ContentView::Text(text),
    {
        Message { role, content: MessageContent::Text { content: text } }
    }

    /// A message with content blocks.
    pub fn new_blocks(role: Role, blocks: Vec<ContentBlock>) -> (m: Message)
        ensures
            m.role == role,
            m.content@ == ContentView::Blocks(blocks@),
    {
        Message { role, content: MessageContent::Blocks { content: blocks } }
    }

    /// The wire form of the message: the role and the content's member in one object.
    pub fn to_json(self) -> (j: Json)
        ensures
            message_wire(self@, j),
    {
        let mut fs: Vec<(String, Json)> = Vec::new();
        fs.push(("role".to_owned(), self.role.to_json()));
        fs.push(("content".to_owned(), self.content.to_json()));
        Json::Object(fs)
    }

    /// Reads a message from its wire form.
    pub fn from_json(j: Json) -> (r: Result<Message, DecodeError>)
        ensures
            match r {
                Ok(m) => message_of(j) == Ok::<MessageView, DecodeFault>(m@),
                Err(e) => message_of(j) == Err::<MessageView, DecodeFault>(e@),
            },
    {
        proof {
            lemma_names_distinct();
        }
        let mut fs = match j {
            Json::Object(fs) => fs,
            _ => return Err(DecodeError::NotAnObject),
        };
        let role = match take_member(&mut fs, "role") {
            None => return Err(missing("role")),
            Some(r) => match Role::from_json(r) {
                Ok(role) => role,
                Err(e) => return Err(e),
            },
        };
        match take_member(&mut fs, "content") {
            None => Err(missing("content")),
            Some(c) => match MessageContent::from_json(c) {
                Ok(content) => Ok(Message { role, content }),
                Err(e) => Err(e),
            },
        }
    }
}

} // verus!
