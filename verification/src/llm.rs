//! Plain conversation data: usage, models, images and messages.

use crate::chars;
use vstd::prelude::*;

verus! {

/// Token usage of a conversation.
#[derive(Clone, Copy, PartialEq, Eq, Structural, Debug)]
pub struct Usage {
    pub input_tokens: u64,
    pub output_tokens: u64,
    pub cache_read: u64,
    pub cache_create: u64,
}

impl Usage {
    /// No tokens at all.
    pub open spec fn none() -> Usage {
        Usage { input_tokens: 0, output_tokens: 0, cache_read: 0, cache_create: 0 }
    }

    /// No tokens at all.
    pub fn zero() -> (r: Usage)
        ensures
            r == Usage::none(),
    {
        Usage { input_tokens: 0, output_tokens: 0, cache_read: 0, cache_create: 0 }
    }
}

/// A model that a provider offers.
#[derive(PartialEq, Eq, Debug)]
pub struct ModelInfo {
    pub id: String,
    pub name: String,
    pub max_ctx: u64,
}

/// The mathematical value of a [`ModelInfo`].
pub struct ModelView {
    pub id: Seq<char>,
    pub name: Seq<char>,
    pub max_ctx: u64,
}

impl View for ModelInfo {
    type V = ModelView;

    open spec fn view(&self) -> ModelView {
        ModelView { id: self.id@, name: self.name@, max_ctx: self.max_ctx }
    }
}

/// The values of a list of models.
pub open spec fn models(v: Seq<ModelInfo>) -> Seq<ModelView> {
    Seq::new(v.len(), |i: int| v[i]@)
}

/// A copy of a list of models.
pub fn clone_models(v: &Vec<ModelInfo>) -> (r: Vec<ModelInfo>)
    ensures
        models(r@) == models(v@),
{
    let mut out: Vec<ModelInfo> = Vec::new();
    let mut i: usize = 0;
    assert(models(out@) =~= models(v@).take(0));
    while i < v.len()
        invariant
            0 <= i <= v@.len(),
            models(out@) == models(v@).take(i as int),
        decreases v@.len() - i,
    {
        let ghost before = out@;
        let m = ModelInfo { id: v[i].id.clone(), name: v[i].name.clone(), max_ctx: v[i].max_ctx };
        out.push(m);
        proof {
            assert(models(before.push(m)) =~= models(before).push(m@));
            assert(models(v@).take(i + 1) =~= models(v@).take(i as int).push(m@));
        }
        i = i + 1;
    }
    assert(models(v@).take(i as int) =~= models(v@));
    out
}

/// The position of the first model with the given id, or 0.
pub open spec fn model_position(ms: Seq<ModelView>, id: Seq<char>) -> int
    decreases ms.len(),
{
    let i = first_model(ms, id);
    if i < ms.len() {
        i
    } else {
        0
    }
}

/// The position of the first model with the given id, or the list's length.
pub open spec fn first_model(ms: Seq<ModelView>, id: Seq<char>) -> int
    decreases ms.len(),
{
    if ms.len() == 0 || ms[0].id == id {
        0
    } else {
        1 + first_model(ms.drop_first(), id)
    }
}

/// The position of the first model with the given id, or 0.
pub fn find_model(ms: &Vec<ModelInfo>, id: &str) -> (r: usize)
    ensures
        r == model_position(models(ms@), id@),
        r == 0 || r < ms@.len(),
{
    let ghost all = models(ms@);
    let mut i: usize = 0;
    assert(all.skip(0) =~= all);
    while i < ms.len()
        invariant
            0 <= i <= ms@.len(),
            all == models(ms@),
            first_model(all, id@) == i + first_model(all.skip(i as int), id@),
        decreases ms@.len() - i,
    {
        assert(all.skip(i as int)[0] == ms@[i as int]@);
        assert(all.skip(i as int).drop_first() =~= all.skip(i + 1));
        if chars::str_eq(ms[i].id.as_str(), id) {
            return i;
        }
        i = i + 1;
    }
    0
}

/// An image attached to a user turn.
#[derive(PartialEq, Eq, Debug)]
pub struct ImageBlock {
    pub media_type: String,
    pub data_base64: String,
}

/// The mathematical value of an [`ImageBlock`].
pub struct ImageView {
    pub media_type: Seq<char>,
    pub data_base64: Seq<char>,
}

impl View for ImageBlock {
    type V = ImageView;

    open spec fn view(&self) -> ImageView {
        ImageView { media_type: self.media_type@, data_base64: self.data_base64@ }
    }
}

/// The values of a list of images.
pub open spec fn images(v: Seq<ImageBlock>) -> Seq<ImageView> {
    Seq::new(v.len(), |i: int| v[i]@)
}

fn clone_images(v: &Vec<ImageBlock>) -> (r: Vec<ImageBlock>)
    ensures
        images(r@) == images(v@),
{
    let mut out: Vec<ImageBlock> = Vec::new();
    let mut i: usize = 0;
    assert(images(out@) =~= images(v@).take(0));
    while i < v.len()
        invariant
            0 <= i <= v@.len(),
            images(out@) == images(v@).take(i as int),
        decreases v@.len() - i,
    {
        let ghost before = out@;
        let m = ImageBlock {
            media_type: v[i].media_type.clone(),
            data_base64: v[i].data_base64.clone(),
        };
        out.push(m);
        proof {
            assert(images(before.push(m)) =~= images(before).push(m@));
            assert(images(v@).take(i + 1) =~= images(v@).take(i as int).push(m@));
        }
        i = i + 1;
    }
    assert(images(v@).take(i as int) =~= images(v@));
    out
}

/// A user turn: text and attached images.
#[derive(PartialEq, Eq, Debug)]
pub struct UserBlocks {
    pub text: String,
    pub images: Vec<ImageBlock>,
}

/// How a transcript shows a user turn with `n` images.
pub open spec fn user_label(text: Seq<char>, n: nat) -> Seq<char> {
    let tag = if n == 1 {
        "[image]"@
    } else {
        "["@ + chars::decimal(n) + " images]"@
    };
    if n == 0 {
        text
    } else if text.len() == 0 {
        tag
    } else {
        text + "\n"@ + tag
    }
}

/// How a transcript shows a user turn with `n` images.
pub fn turn_label(text: &str, n: usize) -> (r: String)
    ensures
        r@ == user_label(text@, n as nat),
{
    if n == 0 {
        return String::from_str(text);
    }
    let tag = if n == 1 {
        String::from_str("[image]")
    } else {
        chars::cat3("[", chars::count_string(n).as_str(), " images]")
    };
    if text.is_empty() {
        tag
    } else {
        chars::cat3(text, "\n", tag.as_str())
    }
}

impl UserBlocks {
    /// A turn without images.
    pub fn text_only(text: &str) -> (r: UserBlocks)
        ensures
            r.text@ == text@,
            r.images@.len() == 0,
    {
        UserBlocks { text: String::from_str(text), images: Vec::new() }
    }

    /// How a transcript shows this turn.
    pub fn display_label(&self) -> (r: String)
        ensures
            r@ == user_label(self.text@, self.images@.len()),
    {
        turn_label(self.text.as_str(), self.images.len())
    }
}

/// A tool call.
#[derive(PartialEq, Eq, Debug)]
pub struct ToolUse {
    pub id: String,
    pub name: String,
    pub input: String,
}

/// What a tool call returned.
#[derive(PartialEq, Eq, Debug)]
pub struct ToolResult {
    pub tool_use_id: String,
    pub content: String,
}

/// What a message carries.
#[derive(PartialEq, Eq, Debug)]
pub enum Content {
    Text(String),
    User(UserBlocks),
    Thinking(String),
    ToolUse(ToolUse),
    ToolResult(ToolResult),
}

/// The mathematical value of a [`Content`].
pub enum ContentView {
    Text(Seq<char>),
    User { text: Seq<char>, images: Seq<ImageView> },
    Thinking(Seq<char>),
    ToolUse { id: Seq<char>, name: Seq<char>, input: Seq<char> },
    ToolResult { tool_use_id: Seq<char>, content: Seq<char> },
}

impl View for Content {
    type V = ContentView;

    open spec fn view(&self) -> ContentView {
        match self {
            Content::Text(t) => ContentView::Text(t@),
            Content::User(b) => ContentView::User { text: b.text@, images: images(b.images@) },
            Content::Thinking(t) => ContentView::Thinking(t@),
            Content::ToolUse(t) => ContentView::ToolUse {
                id: t.id@,
                name: t.name@,
                input: t.input@,
            },
            Content::ToolResult(t) => ContentView::ToolResult {
                tool_use_id: t.tool_use_id@,
                content: t.content@,
            },
        }
    }
}

/// A message of the conversation.
#[derive(PartialEq, Eq, Debug)]
pub struct Message {
    pub role: String,
    pub content: Content,
}

/// The mathematical value of a [`Message`].
pub struct MessageView {
    pub role: Seq<char>,
    pub content: ContentView,
}

impl View for Message {
    type V = MessageView;

    open spec fn view(&self) -> MessageView {
        MessageView { role: self.role@, content: self.content@ }
    }
}

/// The values of a list of messages.
pub open spec fn messages(v: Seq<Message>) -> Seq<MessageView> {
    Seq::new(v.len(), |i: int| v[i]@)
}

pub proof fn lemma_messages_push(v: Seq<Message>, m: Message)
    ensures
        messages(v.push(m)) == messages(v).push(m@),
{
    assert(messages(v.push(m)) =~= messages(v).push(m@));
}

/// A copy of a message.
pub fn clone_message(m: &Message) -> (r: Message)
    ensures
        r@ == m@,
{
    let content = match &m.content {
        Content::Text(t) => Content::Text(t.clone()),
        Content::User(b) => Content::User(
            UserBlocks { text: b.text.clone(), images: clone_images(&b.images) },
        ),
        Content::Thinking(t) => Content::Thinking(t.clone()),
        Content::ToolUse(t) => Content::ToolUse(
            ToolUse { id: t.id.clone(), name: t.name.clone(), input: t.input.clone() },
        ),
        Content::ToolResult(t) => Content::ToolResult(
            ToolResult { tool_use_id: t.tool_use_id.clone(), content: t.content.clone() },
        ),
    };
    Message { role: m.role.clone(), content }
}

/// A copy of a list of messages.
pub fn clone_messages(v: &Vec<Message>) -> (r: Vec<Message>)
    ensures
        messages(r@) == messages(v@),
{
    let mut out: Vec<Message> = Vec::new();
    let mut i: usize = 0;
    assert(messages(out@) =~= messages(v@).take(0));
    while i < v.len()
        invariant
            0 <= i <= v@.len(),
            messages(out@) == messages(v@).take(i as int),
        decreases v@.len() - i,
    {
        let m = clone_message(&v[i]);
        proof {
            lemma_messages_push(out@, m);
            assert(messages(v@).take(i + 1) =~= messages(v@).take(i as int).push(m@));
        }
        out.push(m);
        i = i + 1;
    }
    assert(messages(v@).take(i as int) =~= messages(v@));
    out
}

} // verus!
