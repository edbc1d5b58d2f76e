//! Provider-agnostic canonical request/response shapes.
//!
//! The chat engine speaks these types and each provider adapter translates
//! them to and from its provider's wire format. OpenAI Chat Completions is
//! the reference shape: fields here mirror that ABI.
//!
//! ## Multimodal content
//!
//! [`Message::content`] is a [`MessageContent`]: a `Text(String)` variant for
//! the common single-text case (system / assistant / tool-result messages,
//! and text-only user prompts) plus a `Parts(Vec<ContentPart>)` variant for
//! multimodal user input. Text-only adapter paths read
//! [`MessageContent::as_text`]; parts-aware paths handle each
//! [`ContentPart`] explicitly.
use vstd::prelude::*;

verus! {

/// `serde_json::Value`, a JSON document (a tool's input schema, or the
/// arguments of a tool call). The library carries such values through
/// untouched and never looks inside one.
#[verifier::external_type_specification]
#[verifier::external_body]
pub struct ExJsonValue(serde_json::Value);

/// `<serde_json::Value as Clone>::clone`, which the derived `Clone` of
/// [`ToolDef`] and [`ToolCall`] calls. `Value` derives `Clone`, so the copy
/// is the same JSON document as the original; that is what is claimed.
pub assume_specification[ <serde_json::Value as Clone>::clone ](v: &serde_json::Value) -> (r:
    serde_json::Value)
    ensures
        r == *v,
;

/// `<String as From<&str>>::from`, which the constructors of [`Message`]
/// reach through `Into<String>` when handed a string slice. Claimed: the new
/// `String` holds exactly the characters of the slice, as std documents
/// ("Converts a `&str` into a `String`").
pub assume_specification<'a, 'b>[ <String as core::convert::From<&'a str>>::from ](
    s: &'b str,
) -> (r: String)
    ensures
        r@ == s@,
;

// ---------------------------------------------------------------------------
// Messages and their content
// ---------------------------------------------------------------------------

/// One turn of a conversation.
#[derive(Debug, Clone)]
pub struct Message {
    pub role: Role,
    pub content: MessageContent,
    /// For `Role::Assistant` messages that emitted tool calls.
    pub tool_calls: Vec<ToolCall>,
    /// For `Role::Tool` messages, the id of the tool call this answers.
    pub tool_call_id: Option<String>,
}

/// Per-message content. Multimodal input lands in [`MessageContent::Parts`];
/// the [`MessageContent::Text`] variant covers the common text-only case.
#[derive(Debug, Clone)]
pub enum MessageContent {
    /// Plain text: the default for system / assistant / tool-result
    /// messages and text-only user prompts.
    Text(String),
    /// Mixed content: text, image, audio and file parts in declared order.
    Parts(Vec<ContentPart>),
}

/// One element of a [`MessageContent::Parts`] message.
#[derive(Debug, Clone)]
pub enum ContentPart {
    Text(String),
    Image(ImageContent),
    Audio(AudioContent),
    File(FileContent),
}

#[derive(Debug, Clone)]
pub struct ImageContent {
    pub source: ImageSource,
    /// OpenAI: `auto` | `high` | `low`. Anthropic / Gemini: ignored.
    pub detail: Option<ImageDetail>,
}

#[derive(Debug, Clone)]
pub enum ImageSource {
    /// HTTP(S) URL.
    Url(String),
    /// Inline base64-encoded bytes with declared MIME type.
    Base64 { mime_type: String, data: String },
    /// `mcpg-resource://<id>` URI, resolved by the engine through the host
    /// before an adapter encodes the message.
    McpResource(String),
}

#[derive(Debug, Clone, Copy, PartialEq, Eq, Structural)]
pub enum ImageDetail {
    Auto,
    High,
    Low,
}

#[derive(Debug, Clone)]
pub struct AudioContent {
    pub source: AudioSource,
    pub format: AudioFormat,
}

#[derive(Debug, Clone)]
pub enum AudioSource {
    Url(String),
    Base64 { data: String },
    McpResource(String),
}

#[derive(Debug, Clone, Copy, PartialEq, Eq, Structural)]
pub enum AudioFormat {
    Mp3,
    Wav,
    Flac,
    Ogg,
    Aac,
    Pcm,
}

#[derive(Debug, Clone)]
pub struct FileContent {
    pub source: FileSource,
    pub mime_type: String,
    /// Operator-supplied filename hint surfaced to the model.
    pub filename: Option<String>,
}

#[derive(Debug, Clone)]
pub enum FileSource {
    Url(String),
    Base64 { data: String },
    McpResource(String),
}

#[derive(Debug, Clone, Copy, PartialEq, Eq, Structural)]
pub enum Role {
    System,
    User,
    Assistant,
    Tool,
}

/// A function tool exposed to the model.
#[derive(Debug, Clone)]
pub struct ToolDef {
    pub name: String,
    pub description: String,
    /// JSON Schema for the tool's input.
    pub parameters: serde_json::Value,
}

#[derive(Debug, Clone, Copy, PartialEq, Eq, Structural)]
pub enum ToolChoiceWire {
    Auto,
    Required,
    /// The model may not call any tool (`"none"` on the wire).
    NoTools,
}

/// A tool invocation emitted by the model.
#[derive(Debug, Clone)]
pub struct ToolCall {
    pub id: String,
    pub name: String,
    /// Arguments as the model emitted them: JSON, not yet validated against
    /// the child binding's input schema.
    pub arguments: serde_json::Value,
}

/// What a provider answered, in canonical form.
#[derive(Debug, Clone)]
pub struct NormalizedChatResponse {
    /// Final text content (may be empty if the assistant only emitted tool
    /// calls).
    pub content: String,
    pub tool_calls: Vec<ToolCall>,
    pub finish_reason: FinishReason,
    pub usage: TokenUsage,
}

#[derive(Debug, Clone, Copy, PartialEq, Eq, Structural)]
pub enum FinishReason {
    Stop,
    ToolCalls,
    Length,
    ContentFilter,
    Other,
}

#[derive(Debug, Clone, Copy)]
pub struct TokenUsage {
    pub input_tokens: u32,
    pub output_tokens: u32,
    pub cached_input_tokens: u32,
}

impl Default for TokenUsage {
    /// No tokens counted yet.
    fn default() -> (r: Self)
        ensures
            r.input_tokens == 0,
            r.output_tokens == 0,
            r.cached_input_tokens == 0,
    {
        TokenUsage { input_tokens: 0, output_tokens: 0, cached_input_tokens: 0 }
    }
}

// ---------------------------------------------------------------------------
// The text of a message's content
// ---------------------------------------------------------------------------

/// The texts of the `Text` parts, in their order; media parts contribute
/// nothing.
pub open spec fn text_segments(parts: Seq<ContentPart>) -> Seq<Seq<char>>
    decreases parts.len(),
{
    if parts.len() == 0 {
        seq![]
    } else {
        let earlier = text_segments(parts.drop_last());
        match parts.last() {
            ContentPart::Text(s) => earlier.push(s@),
            _ => earlier,
        }
    }
}

/// Texts appended one after another, with a newline put before a text
/// whenever what has been gathered so far is not empty.
pub open spec fn join_lines(segments: Seq<Seq<char>>) -> Seq<char>
    decreases segments.len(),
{
    if segments.len() == 0 {
        seq![]
    } else {
        let gathered = join_lines(segments.drop_last());
        if gathered.len() == 0 {
            segments.last()
        } else {
            gathered + seq!['\n'] + segments.last()
        }
    }
}

/// The text of one part: its string for a `Text` part, nothing for media.
pub open spec fn part_text(p: ContentPart) -> Seq<char> {
    match p {
        ContentPart::Text(s) => s@,
        _ => seq![],
    }
}

impl MessageContent {
    /// The text that text-only paths see: the string of `Text`, or the
    /// `Text` parts of `Parts` joined by newlines, media left out.
    pub open spec fn text_of(self) -> Seq<char> {
        match self {
            MessageContent::Text(s) => s@,
            MessageContent::Parts(parts) => join_lines(text_segments(parts@)),
        }
    }

    /// `Text`, or `Parts` whose every entry is a `Text` part.
    pub open spec fn only_text(self) -> bool {
        match self {
            MessageContent::Text(_) => true,
            MessageContent::Parts(parts) => forall|i: int|
                0 <= i < parts@.len() ==> #[trigger] parts@[i] is Text,
        }
    }

    /// An empty `Text`, or `Parts` with no entries.
    pub open spec fn carries_nothing(self) -> bool {
        match self {
            MessageContent::Text(s) => s@.len() == 0,
            MessageContent::Parts(parts) => parts@.len() == 0,
        }
    }

    /// Extracts just the text. For `Parts`, concatenates every
    /// `ContentPart::Text`, separated by newlines, and ignores media. Used by
    /// adapters on text-only paths (system-prompt collation, tool-result
    /// echo, assistant turns).
    pub fn as_text(&self) -> (r: String)
        ensures
            r@ == self.text_of(),
    {
        match self {
            MessageContent::Text(s) => s.clone(),
            MessageContent::Parts(parts) => {
                let mut out = String::new();
                let mut i: usize = 0;
                while i < parts.len()
                    invariant
                        i <= parts@.len(),
                        out@ == join_lines(text_segments(parts@.take(i as int))),
                    decreases parts@.len() - i,
                {
                    let ghost gathered = text_segments(parts@.take(i as int));
                    proof {
                        assert(parts@.take(i + 1).drop_last() =~= parts@.take(i as int));
                        assert(parts@.take(i + 1).last() == parts@[i as int]);
                        reveal_strlit("\n");
                    }
                    match &parts[i] {
                        ContentPart::Text(s) => {
                            if !out.as_str().is_empty() {
                                out.append("\n");
                            }
                            out.append(s.as_str());
                            proof {
                                assert(gathered.push(s@).drop_last() =~= gathered);
                            }
                        },
                        _ => {},
                    }
                    i += 1;
                }
                proof {
                    assert(parts@.take(parts@.len() as int) =~= parts@);
                }
                out
            },
        }
    }

    /// `true` when this is `Text` or a `Parts` whose only entries are
    /// `ContentPart::Text`. Adapters use this to skip the multimodal
    /// encoding path entirely.
    pub fn is_text_only(&self) -> (r: bool)
        ensures
            r == self.only_text(),
    {
        match self {
            MessageContent::Text(_) => true,
            MessageContent::Parts(parts) => {
                let mut i: usize = 0;
                while i < parts.len()
                    invariant
                        i <= parts@.len(),
                        forall|j: int| 0 <= j < i ==> #[trigger] parts@[j] is Text,
                        *self == MessageContent::Parts(*parts),
                    decreases parts@.len() - i,
                {
                    match &parts[i] {
                        ContentPart::Text(_) => {},
                        _ => {
                            assert(!(parts@[i as int] is Text));
                            return false;
                        },
                    }
                    i += 1;
                }
                true
            },
        }
    }

    /// `true` when the content carries no text and no parts.
    pub fn is_empty(&self) -> (r: bool)
        ensures
            r == self.carries_nothing(),
    {
        match self {
            MessageContent::Text(s) => s.as_str().is_empty(),
            MessageContent::Parts(parts) => parts.len() == 0,
        }
    }
}

// ---------------------------------------------------------------------------
// Audio formats
// ---------------------------------------------------------------------------

impl AudioFormat {
    /// The MIME type of each audio format.
    pub open spec fn mime(self) -> Seq<char> {
        match self {
            AudioFormat::Mp3 => "audio/mpeg"@,
            AudioFormat::Wav => "audio/wav"@,
            AudioFormat::Flac => "audio/flac"@,
            AudioFormat::Ogg => "audio/ogg"@,
            AudioFormat::Aac => "audio/aac"@,
            AudioFormat::Pcm => "audio/pcm"@,
        }
    }

    /// The MIME type under which audio of this format is sent.
    pub fn mime_type(self) -> (r: &'static str)
        ensures
            r@ == self.mime(),
    {
        match self {
            AudioFormat::Mp3 => "audio/mpeg",
            AudioFormat::Wav => "audio/wav",
            AudioFormat::Flac => "audio/flac",
            AudioFormat::Ogg => "audio/ogg",
            AudioFormat::Aac => "audio/aac",
            AudioFormat::Pcm => "audio/pcm",
        }
    }
}

// ---------------------------------------------------------------------------
// Message constructors
// ---------------------------------------------------------------------------

impl Message {
    /// A system message holding `content` as text.
    pub fn system<S: Into<String>>(content: S) -> (m: Self)
        ensures
            m.role == Role::System,
            m.content matches MessageContent::Text(t) && call_ensures(
                <S as Into<String>>::into,
                (content,),
                t,
            ),
            m.tool_calls@.len() == 0,
            m.tool_call_id is None,
    {
        Message {
            role: Role::System,
            content: MessageContent::Text(content.into()),
            tool_calls: Vec::new(),
            tool_call_id: None,
        }
    }

    /// A user message holding `content` as text.
    pub fn user<S: Into<String>>(content: S) -> (m: Self)
        ensures
            m.role == Role::User,
            m.content matches MessageContent::Text(t) && call_ensures(
                <S as Into<String>>::into,
                (content,),
                t,
            ),
            m.tool_calls@.len() == 0,
            m.tool_call_id is None,
    {
        Message {
            role: Role::User,
            content: MessageContent::Text(content.into()),
            tool_calls: Vec::new(),
            tool_call_id: None,
        }
    }

    /// Multimodal user message: text plus media in declared order.
    pub fn user_parts(parts: Vec<ContentPart>) -> (m: Self)
        ensures
            m.role == Role::User,
            m.content == MessageContent::Parts(parts),
            m.tool_calls@.len() == 0,
            m.tool_call_id is None,
    {
        Message {
            role: Role::User,
            content: MessageContent::Parts(parts),
            tool_calls: Vec::new(),
            tool_call_id: None,
        }
    }

    /// An assistant turn that only calls tools: its text is empty.
    pub fn assistant_tool_calls(calls: Vec<ToolCall>) -> (m: Self)
        ensures
            m.role == Role::Assistant,
            m.content matches MessageContent::Text(t) && t@.len() == 0,
            m.tool_calls == calls,
            m.tool_call_id is None,
    {
        Message {
            role: Role::Assistant,
            content: MessageContent::Text(String::new()),
            tool_calls: calls,
            tool_call_id: None,
        }
    }

    /// An assistant turn with both text and tool calls (the model narrates
    /// before or after invoking its tools).
    pub fn assistant_text_and_tool_calls<S: Into<String>>(text: S, calls: Vec<ToolCall>) -> (m:
        Self)
        ensures
            m.role == Role::Assistant,
            m.content matches MessageContent::Text(t) && call_ensures(
                <S as Into<String>>::into,
                (text,),
                t,
            ),
            m.tool_calls == calls,
            m.tool_call_id is None,
    {
        Message {
            role: Role::Assistant,
            content: MessageContent::Text(text.into()),
            tool_calls: calls,
            tool_call_id: None,
        }
    }

    /// The result of a tool call, answering the call with id `tool_call_id`.
    pub fn tool_result<I: Into<String>, S: Into<String>>(tool_call_id: I, content: S) -> (m: Self)
        ensures
            m.role == Role::Tool,
            m.content matches MessageContent::Text(t) && call_ensures(
                <S as Into<String>>::into,
                (content,),
                t,
            ),
            m.tool_calls@.len() == 0,
            m.tool_call_id matches Some(id) && call_ensures(
                <I as Into<String>>::into,
                (tool_call_id,),
                id,
            ),
    {
        Message {
            role: Role::Tool,
            content: MessageContent::Text(content.into()),
            tool_calls: Vec::new(),
            tool_call_id: Some(tool_call_id.into()),
        }
    }
}

// ---------------------------------------------------------------------------
// Laws
// ---------------------------------------------------------------------------

/// Content that carries nothing has no text either.
pub proof fn lemma_empty_content_has_no_text(c: MessageContent)
    ensures
        c.carries_nothing() ==> c.text_of().len() == 0,
{
    match c {
        MessageContent::Text(_) => {},
        MessageContent::Parts(parts) => {
            if parts@.len() == 0 {
                assert(text_segments(parts@) =~= seq![]);
            }
        },
    }
}

/// When every part is text, no part is dropped: the text segments are the
/// parts' texts, one for each part, in order.
pub proof fn lemma_text_only_parts_keep_every_part(parts: Seq<ContentPart>)
    requires
        forall|i: int| 0 <= i < parts.len() ==> #[trigger] parts[i] is Text,
    ensures
        text_segments(parts) == parts.map_values(|p: ContentPart| part_text(p)),
    decreases parts.len(),
{
    if parts.len() > 0 {
        let front = parts.drop_last();
        assert forall|i: int| 0 <= i < front.len() implies #[trigger] front[i] is Text by {
            assert(front[i] == parts[i]);
        }
        lemma_text_only_parts_keep_every_part(front);
        assert(parts[parts.len() - 1] is Text);
        assert(parts.map_values(|p: ContentPart| part_text(p)) =~= front.map_values(
            |p: ContentPart| part_text(p),
        ).push(part_text(parts.last())));
    }
}

/// The text of text-only content loses nothing: for `Parts`, it is the text
/// of every part joined by newlines.
pub proof fn lemma_text_only_content_joins_every_part(c: MessageContent)
    ensures
        c.only_text() ==> match c {
            MessageContent::Text(s) => c.text_of() == s@,
            MessageContent::Parts(parts) => c.text_of() == join_lines(
                parts@.map_values(|p: ContentPart| part_text(p)),
            ),
        },
{
    if c.only_text() {
        if let MessageContent::Parts(parts) = c {
            lemma_text_only_parts_keep_every_part(parts@);
        }
    }
}

/// A message that a text constructor builds from a string slice holds that
/// very text: its content is text-only, reads back as the slice through
/// `as_text`, and is empty exactly when the slice is.
pub proof fn lemma_text_messages_read_back(text: &str, id: &str, m: Message)
    requires
        call_ensures(Message::system::<&str>, (text,), m) || call_ensures(
            Message::user::<&str>,
            (text,),
            m,
        ) || call_ensures(Message::tool_result::<&str, &str>, (id, text), m)
            || exists|calls: Vec<ToolCall>|
            call_ensures(Message::assistant_text_and_tool_calls::<&str>, (text, calls), m),
    ensures
        m.content.text_of() == text@,
        m.content.only_text(),
        m.content.carries_nothing() <==> text@.len() == 0,
{
}

/// The `Text` parts of a sequence of parts, in order, with every media part
/// (image, audio, file) removed.
pub open spec fn text_parts(parts: Seq<ContentPart>) -> Seq<ContentPart> {
    parts.filter(|p: ContentPart| p is Text)
}

/// A media part contributes no segment, wherever it is inserted.
proof fn lemma_segments_skip_inserted_media(ps: Seq<ContentPart>, k: int, p: ContentPart)
    requires
        0 <= k <= ps.len(),
        !(p is Text),
    ensures
        text_segments(ps.insert(k, p)) == text_segments(ps),
    decreases ps.len(),
{
    let qs = ps.insert(k, p);
    if k == ps.len() {
        assert(qs.drop_last() =~= ps);
        assert(qs.last() == p);
    } else {
        assert(qs.drop_last() =~= ps.drop_last().insert(k, p));
        assert(qs.last() == ps.last());
        lemma_segments_skip_inserted_media(ps.drop_last(), k, p);
    }
}

/// Removing the media parts leaves the text segments as they were.
proof fn lemma_segments_of_text_parts(ps: Seq<ContentPart>)
    ensures
        text_segments(text_parts(ps)) == text_segments(ps),
    decreases ps.len(),
{
    reveal_with_fuel(Seq::filter, 1);
    if ps.len() > 0 {
        lemma_segments_of_text_parts(ps.drop_last());
        let front = text_parts(ps.drop_last());
        if ps.last() is Text {
            assert(text_parts(ps) == front.push(ps.last()));
            assert(front.push(ps.last()).drop_last() =~= front);
        } else {
            assert(text_parts(ps) == front);
        }
    }
}

/// A multimodal message with no parts has no text.
pub proof fn lemma_no_parts_no_text(ps: Vec<ContentPart>)
    requires
        ps@.len() == 0,
    ensures
        MessageContent::Parts(ps).text_of() == Seq::<char>::empty(),
{
    assert(text_segments(ps@) =~= Seq::<Seq<char>>::empty());
}

/// Media parts contribute nothing to the text: inserting an image, audio or
/// file part anywhere in a multimodal message leaves its text unchanged (no
/// character and no separator comes from it).
pub proof fn lemma_media_part_adds_no_text(
    ps: Vec<ContentPart>,
    k: int,
    p: ContentPart,
    qs: Vec<ContentPart>,
)
    requires
        0 <= k <= ps@.len(),
        !(p is Text),
        qs@ == ps@.insert(k, p),
    ensures
        MessageContent::Parts(qs).text_of() == MessageContent::Parts(ps).text_of(),
{
    lemma_segments_skip_inserted_media(ps@, k, p);
}

/// Appending a text part appends its string to the text: directly when the
/// text so far is empty, after a newline otherwise. So every text part's
/// string shows up, in order, whatever parts came before it.
pub proof fn lemma_text_part_appends_line(ps: Vec<ContentPart>, s: String, qs: Vec<ContentPart>)
    requires
        qs@ == ps@.push(ContentPart::Text(s)),
    ensures
        ({
            let before = MessageContent::Parts(ps).text_of();
            MessageContent::Parts(qs).text_of() == if before.len() == 0 {
                s@
            } else {
                before + seq!['\n'] + s@
            }
        }),
{
    assert(qs@.drop_last() =~= ps@);
    let segs = text_segments(ps@);
    assert(text_segments(qs@) == segs.push(s@));
    assert(segs.push(s@).drop_last() =~= segs);
}

/// The text of a multimodal message is the text of its `Text` parts alone:
/// removing every image, audio and file part does not change it.
pub proof fn lemma_text_ignores_media(ps: Vec<ContentPart>, ts: Vec<ContentPart>)
    requires
        ts@ == text_parts(ps@),
    ensures
        MessageContent::Parts(ts).text_of() == MessageContent::Parts(ps).text_of(),
        MessageContent::Parts(ts).only_text(),
{
    lemma_segments_of_text_parts(ps@);
    assert forall|i: int| 0 <= i < ts@.len() implies #[trigger] ts@[i] is Text by {
        ps@.lemma_filter_pred(|p: ContentPart| p is Text, i);
    }
}

/// Plain text and a multimodal message made of that one text part read the
/// same, and both are text-only.
pub proof fn lemma_single_text_part_reads_as_text(s: String, ps: Vec<ContentPart>)
    requires
        ps@ == seq![ContentPart::Text(s)],
    ensures
        MessageContent::Parts(ps).text_of() == MessageContent::Text(s).text_of(),
        MessageContent::Text(s).text_of() == s@,
        MessageContent::Parts(ps).only_text(),
        MessageContent::Text(s).only_text(),
{
    assert(ps@.drop_last() =~= Seq::<ContentPart>::empty());
    assert(text_segments(ps@.drop_last()) =~= Seq::<Seq<char>>::empty());
    assert(text_segments(ps@) =~= seq![s@]);
    assert(seq![s@].drop_last() =~= Seq::<Seq<char>>::empty());
    assert(join_lines(Seq::<Seq<char>>::empty()) =~= Seq::<char>::empty());
    assert(join_lines(seq![s@]) == s@);
}

/// A multimodal message with no parts is text-only, and inserting a part
/// anywhere keeps it text-only exactly when the message was text-only and the
/// part is a `Text` part: one image, audio or file part, wherever it stands
/// and however many parts there are, makes it not text-only.
pub proof fn lemma_text_only_by_parts(
    ps: Vec<ContentPart>,
    k: int,
    p: ContentPart,
    qs: Vec<ContentPart>,
)
    requires
        0 <= k <= ps@.len(),
        qs@ == ps@.insert(k, p),
    ensures
        ps@.len() == 0 ==> MessageContent::Parts(ps).only_text(),
        MessageContent::Parts(qs).only_text() <==> (MessageContent::Parts(ps).only_text()
            && p is Text),
{
    let a = ps@;
    let b = qs@;
    assert(b[k] == p);
    if MessageContent::Parts(qs).only_text() {
        assert(b[k] is Text);
        assert forall|i: int| 0 <= i < a.len() implies #[trigger] a[i] is Text by {
            if i < k {
                assert(a[i] == b[i]);
                assert(b[i] is Text);
            } else {
                assert(a[i] == b[i + 1]);
                assert(b[i + 1] is Text);
            }
        }
    }
    if MessageContent::Parts(ps).only_text() && p is Text {
        assert forall|j: int| 0 <= j < b.len() implies #[trigger] b[j] is Text by {
            if j < k {
                assert(b[j] == a[j]);
                assert(a[j] is Text);
            } else if j > k {
                assert(b[j] == a[j - 1]);
                assert(a[j - 1] is Text);
            }
        }
    }
}

/// Only a multimodal message with no parts is empty: inserting any part, of
/// any kind, makes it non-empty. Plain text is empty exactly when its text
/// is, and empty content is text-only.
pub proof fn lemma_empty_by_parts(
    ps: Vec<ContentPart>,
    k: int,
    p: ContentPart,
    qs: Vec<ContentPart>,
    s: String,
)
    requires
        0 <= k <= ps@.len(),
        qs@ == ps@.insert(k, p),
    ensures
        ps@.len() == 0 ==> MessageContent::Parts(ps).carries_nothing(),
        !MessageContent::Parts(qs).carries_nothing(),
        MessageContent::Text(s).carries_nothing() <==> MessageContent::Text(s).text_of().len()
            == 0,
        MessageContent::Parts(ps).carries_nothing() ==> MessageContent::Parts(ps).only_text(),
        MessageContent::Text(s).carries_nothing() ==> MessageContent::Text(s).only_text(),
{
    assert(qs@.len() == ps@.len() + 1);
}

/// Each audio format has its own MIME type, and every one of them is an
/// `audio/` type.
pub proof fn lemma_mime_type_identifies_format(f1: AudioFormat, f2: AudioFormat)
    ensures
        f1.mime() == f2.mime() <==> f1 == f2,
        f1.mime().len() > 6,
        f1.mime().take(6) == "audio/"@,
{
    reveal_strlit("audio/mpeg");
    reveal_strlit("audio/wav");
    reveal_strlit("audio/flac");
    reveal_strlit("audio/ogg");
    reveal_strlit("audio/aac");
    reveal_strlit("audio/pcm");
    reveal_strlit("audio/");
    assert(f1.mime().take(6) =~= "audio/"@);
    if f1.mime() == f2.mime() {
        assert(f1.mime()[6] == f2.mime()[6]);
    }
}

} // verus!
