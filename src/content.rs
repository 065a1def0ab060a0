use vstd::prelude::*;

use crate::json::{
    JsonValue, debug_text, debug_text_of, json_debug, json_debug_of, key_index, key_index_from, lemma_same_json_symm, lemma_same_json_trans, member, same_json,
    str_member,
};
use crate::text::text_is;

verus! {

use vstd::string::StringExecFns;

broadcast use vstd::std_specs::vec::group_vec_axioms, vstd::string::group_string_axioms;

/// The payload of a message: plain text, or an ordered list of chunks.
#[derive(Debug)]
pub enum Content {
    UntaggedText(String),
    Chunks(Vec<ContentChunk>),
}

/// One typed unit of message content.
#[derive(Debug)]
pub enum ContentChunk {
    Text { text: String },
    ToolUse { id: String, name: String, input: JsonValue },
    ToolResult { content: Content, tool_use_id: String },
    Image,
    Document,
    Thinking,
    RedactedThinking,
    WebSearchToolResult,
    UntaggedText(String),
}

/// The chunk kind that carries no data and is named by tag `t`.
pub open spec fn unit_kind(t: Seq<char>) -> Option<ContentChunk> {
    if t == "image"@ {
        Some(ContentChunk::Image)
    } else if t == "document"@ {
        Some(ContentChunk::Document)
    } else if t == "thinking"@ {
        Some(ContentChunk::Thinking)
    } else if t == "redacted_thinking"@ {
        Some(ContentChunk::RedactedThinking)
    } else if t == "web_search_tool_result"@ {
        Some(ContentChunk::WebSearchToolResult)
    } else {
        None
    }
}

/// The tag that names a tagged chunk's kind.
pub open spec fn tag(j: JsonValue) -> Option<Seq<char>> {
    str_member(j, "type"@)
}

/// `c` is what content document `j` reads as: a string is plain text, an array
/// is a list of chunks, each read from its element.
pub open spec fn content_decodes(j: JsonValue, c: Content) -> bool
    decreases j,
{
    match j {
        JsonValue::Str(s) => c is UntaggedText && c->UntaggedText_0@ == s@,
        JsonValue::Array(items) => c is Chunks && c->Chunks_0.len() == items.len() && forall|i: int|
            0 <= i < items.len() ==> chunk_decodes(#[trigger] items[i], c->Chunks_0[i]),
        _ => false,
    }
}

/// `c` is what chunk document `j` reads as: an object is read by its `type`
/// tag; a string is untagged text.
pub open spec fn chunk_decodes(j: JsonValue, c: ContentChunk) -> bool
    decreases j,
{
    match j {
        JsonValue::Str(s) => c is UntaggedText && c->UntaggedText_0@ == s@,
        JsonValue::Object(fields) => {
            let t = tag(j);
            if t == Some("text"@) {
                c is Text && str_member(j, "text"@) == Some(c->text@)
            } else if t == Some("tool_use"@) {
                &&& c is ToolUse
                &&& str_member(j, "id"@) == Some(c->id@)
                &&& str_member(j, "name"@) == Some(c->name@)
                &&& member(j, "input"@) is Some
                &&& same_json(c->input, member(j, "input"@)->0)
            } else if t == Some("tool_result"@) {
                let k = key_index(fields@, "content"@);
                &&& c is ToolResult
                &&& str_member(j, "tool_use_id"@) == Some(c->tool_use_id@)
                &&& 0 <= k < fields.len()
                &&& content_decodes(fields[k].1, c->content)
            } else {
                t is Some && unit_kind(t->0) == Some(c)
            }
        },
        _ => false,
    }
}

/// The chunks that `c` holds, in order; plain text is one text chunk.
pub open spec fn chunk_seq(c: Content) -> Seq<ContentChunk> {
    match c {
        Content::UntaggedText(t) => seq![ContentChunk::Text { text: t }],
        Content::Chunks(v) => v@,
    }
}

/// The text of member `key` of `j`, where that member is a string.
pub fn text_member(j: &JsonValue, key: &str) -> (r: Option<String>)
    ensures
        r matches Some(s) ==> str_member(*j, key@) == Some(s@),
        r is None ==> str_member(*j, key@) is None,
{
    match j.get(key) {
        Some(JsonValue::Str(s)) => Some(s.clone()),
        _ => None,
    }
}

impl Content {
    /// Reads content from its JSON form; `None` where `j` is neither a string nor
    /// an array of chunks.
    pub fn decode(j: &JsonValue) -> (r: Option<Content>)
        ensures
            r matches Some(c) ==> content_decodes(*j, c),
            r is None ==> forall|c: Content| !content_decodes(*j, c),
        decreases j,
    {
        match j {
            JsonValue::Str(s) => Some(Content::UntaggedText(s.clone())),
            JsonValue::Array(items) => {
                let mut out: Vec<ContentChunk> = Vec::new();
                let mut i: usize = 0;
                while i < items.len()
                    invariant
                        0 <= i <= items.len(),
                        out.len() == i,
                        *j == JsonValue::Array(*items),
                        forall|k: int| 0 <= k < i ==> chunk_decodes(#[trigger] items[k], out[k]),
                    decreases items.len() - i,
                {
                    proof {
                        assert(decreases_to!(*j => j->Array_0));
                        assert(decreases_to!(*items => items[i as int]));
                    }
                    match ContentChunk::decode(&items[i]) {
                        Some(c) => out.push(c),
                        None => {
                            proof {
                                assert forall|c: Content| !content_decodes(*j, c) by {
                                    if content_decodes(*j, c) {
                                        assert(chunk_decodes(items[i as int], c->Chunks_0[i as int]));
                                    }
                                }
                            }
                            return None;
                        },
                    }
                    i = i + 1;
                }
                Some(Content::Chunks(out))
            },
            _ => None,
        }
    }

    /// The chunks of this content, in order; plain text gives one text chunk.
    pub fn chunks(self) -> (r: Vec<ContentChunk>)
        ensures
            r@ == chunk_seq(self),
    {
        match self {
            Content::Chunks(v) => v,
            Content::UntaggedText(text) => {
                let mut v: Vec<ContentChunk> = Vec::new();
                v.push(ContentChunk::Text { text });
                proof {
                    assert(v@ =~= chunk_seq(self));
                }
                v
            },
        }
    }
}

impl ContentChunk {
    /// Reads one chunk from its JSON form; `None` where `j` is neither a string
    /// nor an object of a known kind with the fields that kind needs.
    pub fn decode(j: &JsonValue) -> (r: Option<ContentChunk>)
        ensures
            r matches Some(c) ==> chunk_decodes(*j, c),
            r is None ==> forall|c: ContentChunk| !chunk_decodes(*j, c),
        decreases j,
    {
        match j {
            JsonValue::Str(s) => Some(ContentChunk::UntaggedText(s.clone())),
            JsonValue::Object(fields) => {
                proof {
                    reveal_strlit("text");
                    reveal_strlit("tool_use");
                    reveal_strlit("tool_result");
                    reveal_strlit("image");
                    reveal_strlit("document");
                    reveal_strlit("thinking");
                    reveal_strlit("redacted_thinking");
                    reveal_strlit("web_search_tool_result");
                }
                let t = match text_member(j, "type") {
                    Some(t) => t,
                    None => return None,
                };
                if text_is(&t, "text") {
                    match text_member(j, "text") {
                        Some(text) => Some(ContentChunk::Text { text }),
                        None => None,
                    }
                } else if text_is(&t, "tool_use") {
                    let id = match text_member(j, "id") {
                        Some(id) => id,
                        None => return None,
                    };
                    let name = match text_member(j, "name") {
                        Some(name) => name,
                        None => return None,
                    };
                    match j.get("input") {
                        Some(input) => Some(ContentChunk::ToolUse { id, name, input: input.duplicate() }),
                        None => None,
                    }
                } else if text_is(&t, "tool_result") {
                    let tool_use_id = match text_member(j, "tool_use_id") {
                        Some(id) => id,
                        None => return None,
                    };
                    match j.get("content") {
                        Some(cj) => {
                            proof {
                                let k = key_index(fields@, "content"@);
                                assert(decreases_to!(*j => j->Object_0));
                                assert(decreases_to!(j->Object_0 => j->Object_0[k]));
                                assert(decreases_to!(j->Object_0[k] => j->Object_0[k].1));
                            }
                            match Content::decode(cj) {
                                Some(content) => Some(ContentChunk::ToolResult { content, tool_use_id }),
                                None => {
                                    proof {
                                        let k = key_index(fields@, "content"@);
                                        assert(fields[k].1 == *cj);
                                        assert forall|c: ContentChunk| !chunk_decodes(*j, c) by {
                                            if chunk_decodes(*j, c) {
                                                assert(content_decodes(fields[k].1, c->content));
                                            }
                                        }
                                    }
                                    None
                                },
                            }
                        },
                        None => None,
                    }
                } else if text_is(&t, "image") {
                    Some(ContentChunk::Image)
                } else if text_is(&t, "document") {
                    Some(ContentChunk::Document)
                } else if text_is(&t, "thinking") {
                    Some(ContentChunk::Thinking)
                } else if text_is(&t, "redacted_thinking") {
                    Some(ContentChunk::RedactedThinking)
                } else if text_is(&t, "web_search_tool_result") {
                    Some(ContentChunk::WebSearchToolResult)
                } else {
                    None
                }
            },
            _ => None,
        }
    }
}

/// Member `m` is named `key` and holds the string `s`.
pub open spec fn text_entry_is(m: (String, JsonValue), key: Seq<char>, s: Seq<char>) -> bool {
    m.0@ == key && m.1 is Str && m.1->Str_0@ == s
}

/// The tag of a chunk kind that carries no data.
pub open spec fn unit_tag(c: ContentChunk) -> Seq<char> {
    match c {
        ContentChunk::Image => "image"@,
        ContentChunk::Document => "document"@,
        ContentChunk::Thinking => "thinking"@,
        ContentChunk::RedactedThinking => "redacted_thinking"@,
        ContentChunk::WebSearchToolResult => "web_search_tool_result"@,
        _ => ""@,
    }
}

/// `j` is the JSON form of chunk `c`: untagged text is a string; every other
/// kind is an object whose first member `type` names the kind, followed by the
/// kind's fields in declaration order. That order is the value's; the text
/// serde_json writes for it sorts the members by key.
pub open spec fn chunk_encodes(c: ContentChunk, j: JsonValue) -> bool
    decreases c, 0int,
{
    match c {
        ContentChunk::UntaggedText(s) => j is Str && j->Str_0@ == s@,
        ContentChunk::Text { text } => {
            &&& j is Object
            &&& j->Object_0.len() == 2
            &&& text_entry_is(j->Object_0[0], "type"@, "text"@)
            &&& text_entry_is(j->Object_0[1], "text"@, text@)
        },
        ContentChunk::ToolUse { id, name, input } => {
            &&& j is Object
            &&& j->Object_0.len() == 4
            &&& text_entry_is(j->Object_0[0], "type"@, "tool_use"@)
            &&& text_entry_is(j->Object_0[1], "id"@, id@)
            &&& text_entry_is(j->Object_0[2], "name"@, name@)
            &&& j->Object_0[3].0@ == "input"@
            &&& same_json(j->Object_0[3].1, input)
        },
        ContentChunk::ToolResult { content, tool_use_id } => {
            &&& j is Object
            &&& j->Object_0.len() == 3
            &&& text_entry_is(j->Object_0[0], "type"@, "tool_result"@)
            &&& j->Object_0[1].0@ == "content"@
            &&& content_encodes(content, j->Object_0[1].1)
            &&& text_entry_is(j->Object_0[2], "tool_use_id"@, tool_use_id@)
        },
        _ => j is Object && j->Object_0.len() == 1 && text_entry_is(j->Object_0[0], "type"@, unit_tag(c)),
    }
}

/// `j` is the JSON form of content `c`: plain text is a string, chunks an array.
pub open spec fn content_encodes(c: Content, j: JsonValue) -> bool
    decreases c, 0int,
{
    match c {
        Content::UntaggedText(s) => j is Str && j->Str_0@ == s@,
        Content::Chunks(v) => j is Array && j->Array_0.len() == v.len() && forall|i: int|
            0 <= i < v.len() ==> chunk_encodes(#[trigger] v[i], j->Array_0[i]),
    }
}

/// The name of a chunk's kind.
pub open spec fn kind_label(c: ContentChunk) -> Seq<char> {
    match c {
        ContentChunk::Text { .. } => "Text"@,
        ContentChunk::ToolUse { .. } => "ToolUse"@,
        ContentChunk::ToolResult { .. } => "ToolResult"@,
        ContentChunk::Image => "Image"@,
        ContentChunk::Document => "Document"@,
        ContentChunk::Thinking => "Thinking"@,
        ContentChunk::RedactedThinking => "RedactedThinking"@,
        ContentChunk::WebSearchToolResult => "WebSearchToolResult"@,
        ContentChunk::UntaggedText(_) => "UntaggedText"@,
    }
}

/// Content as text: plain text as it is, chunks one after another.
pub open spec fn content_render(c: Content) -> Seq<char>
    decreases c, 0int,
{
    match c {
        Content::UntaggedText(t) => t@,
        Content::Chunks(v) => chunks_render(v, v.len() as int),
    }
}

/// The first `n` chunks of `v` as text, one after another.
pub open spec fn chunks_render(v: Vec<ContentChunk>, n: int) -> Seq<char>
    decreases v, n,
{
    if n <= 0 || n > v.len() {
        Seq::empty()
    } else {
        chunks_render(v, n - 1) + chunk_render(v[n - 1])
    }
}

/// The debug form of a tool use: `ToolUse { id: "..", name: "..", input: .. }`,
/// with the arguments in serde_json's debug form; the kind's name alone where
/// serde_json refuses the text of one of the arguments' numbers.
pub open spec fn tool_use_debug(id: Seq<char>, name: Seq<char>, input: JsonValue) -> Seq<char> {
    match json_debug_of(input) {
        Some(d) => "ToolUse { id: "@ + debug_text_of(id) + ", name: "@ + debug_text_of(name) + ", input: "@ + d
            + " }"@,
        None => "ToolUse"@,
    }
}

/// One chunk as text: text as it is, a tool result as its content, any other
/// kind as its debug form on a line of its own.
pub open spec fn chunk_render(c: ContentChunk) -> Seq<char>
    decreases c, 0int,
{
    match c {
        ContentChunk::Text { text } => text@,
        ContentChunk::UntaggedText(t) => t@,
        ContentChunk::ToolResult { content, .. } => content_render(content),
        ContentChunk::ToolUse { id, name, input } => "\n"@ + tool_use_debug(id@, name@, input) + "\n"@,
        _ => "\n"@ + kind_label(c) + "\n"@,
    }
}

/// A member named `key` that holds `value`.
fn entry(key: &str, value: JsonValue) -> (r: (String, JsonValue))
    ensures
        r.0@ == key@,
        r.1 == value,
{
    (key.to_string(), value)
}

/// The JSON string that holds `s`.
fn text_value(s: &str) -> (r: JsonValue)
    ensures
        r is Str,
        r->Str_0@ == s@,
{
    JsonValue::Str(s.to_string())
}

impl Content {
    /// The JSON form of this content.
    pub fn encode(&self) -> (r: JsonValue)
        ensures
            content_encodes(*self, r),
        decreases self, 0int,
    {
        match self {
            Content::UntaggedText(s) => JsonValue::Str(s.clone()),
            Content::Chunks(v) => {
                let mut out: Vec<JsonValue> = Vec::new();
                let mut i: usize = 0;
                while i < v.len()
                    invariant
                        0 <= i <= v.len(),
                        out.len() == i,
                        *self == Content::Chunks(*v),
                        forall|k: int| 0 <= k < i ==> chunk_encodes(#[trigger] v[k], out[k]),
                    decreases v.len() - i,
                {
                    proof {
                        assert(decreases_to!(*self => self->Chunks_0));
                        assert(decreases_to!(*v => v[i as int]));
                    }
                    out.push(v[i].encode());
                    i = i + 1;
                }
                JsonValue::Array(out)
            },
        }
    }

    /// This content as text: plain text as it is, chunks one after another.
    pub fn to_text(&self) -> (r: String)
        ensures
            r@ == content_render(*self),
    {
        let mut out = String::new();
        self.render_into(&mut out);
        out
    }

    /// Appends this content as text to `out`.
    pub fn render_into(&self, out: &mut String)
        ensures
            final(out)@ == old(out)@ + content_render(*self),
        decreases self, 0int,
    {
        match self {
            Content::UntaggedText(t) => out.append(t.as_str()),
            Content::Chunks(v) => {
                let ghost start = out@;
                let mut i: usize = 0;
                while i < v.len()
                    invariant
                        0 <= i <= v.len(),
                        *self == Content::Chunks(*v),
                        out@ == start + chunks_render(*v, i as int),
                    decreases v.len() - i,
                {
                    proof {
                        assert(decreases_to!(*self => self->Chunks_0));
                        assert(decreases_to!(*v => v[i as int]));
                    }
                    let ghost before = out@;
                    v[i].render_into(out);
                    proof {
                        assert(chunks_render(*v, i + 1) == chunks_render(*v, i as int) + chunk_render(v[i as int]));
                        assert(out@ =~= start + chunks_render(*v, i + 1));
                    }
                    i = i + 1;
                }
            },
        }
    }
}

impl ContentChunk {
    /// The JSON form of this chunk.
    pub fn encode(&self) -> (r: JsonValue)
        ensures
            chunk_encodes(*self, r),
        decreases self, 0int,
    {
        let mut fields: Vec<(String, JsonValue)> = Vec::new();
        match self {
            ContentChunk::UntaggedText(s) => {
                return JsonValue::Str(s.clone());
            },
            ContentChunk::Text { text } => {
                fields.push(entry("type", text_value("text")));
                fields.push(entry("text", JsonValue::Str(text.clone())));
            },
            ContentChunk::ToolUse { id, name, input } => {
                fields.push(entry("type", text_value("tool_use")));
                fields.push(entry("id", JsonValue::Str(id.clone())));
                fields.push(entry("name", JsonValue::Str(name.clone())));
                fields.push(entry("input", input.duplicate()));
            },
            ContentChunk::ToolResult { content, tool_use_id } => {
                fields.push(entry("type", text_value("tool_result")));
                fields.push(entry("content", content.encode()));
                fields.push(entry("tool_use_id", JsonValue::Str(tool_use_id.clone())));
            },
            _ => {
                fields.push(entry("type", text_value(self.unit_tag())));
            },
        }
        JsonValue::Object(fields)
    }

    /// The tag of a kind that carries no data; empty for the other kinds.
    fn unit_tag(&self) -> (r: &'static str)
        ensures
            r@ == unit_tag(*self),
    {
        match self {
            ContentChunk::Image => "image",
            ContentChunk::Document => "document",
            ContentChunk::Thinking => "thinking",
            ContentChunk::RedactedThinking => "redacted_thinking",
            ContentChunk::WebSearchToolResult => "web_search_tool_result",
            _ => "",
        }
    }

    /// The name of this chunk's kind.
    pub fn kind_label(&self) -> (r: &'static str)
        ensures
            r@ == kind_label(*self),
    {
        match self {
            ContentChunk::Text { .. } => "Text",
            ContentChunk::ToolUse { .. } => "ToolUse",
            ContentChunk::ToolResult { .. } => "ToolResult",
            ContentChunk::Image => "Image",
            ContentChunk::Document => "Document",
            ContentChunk::Thinking => "Thinking",
            ContentChunk::RedactedThinking => "RedactedThinking",
            ContentChunk::WebSearchToolResult => "WebSearchToolResult",
            ContentChunk::UntaggedText(_) => "UntaggedText",
        }
    }

    /// Appends this chunk as text to `out`.
    pub fn render_into(&self, out: &mut String)
        ensures
            final(out)@ == old(out)@ + chunk_render(*self),
        decreases self, 0int,
    {
        match self {
            ContentChunk::Text { text } => out.append(text.as_str()),
            ContentChunk::UntaggedText(t) => out.append(t.as_str()),
            ContentChunk::ToolResult { content, .. } => content.render_into(out),
            ContentChunk::ToolUse { id, name, input } => {
                let ghost start = out@;
                out.append("\n");
                match json_debug(input) {
                    Some(d) => {
                        out.append("ToolUse { id: ");
                        out.append(debug_text(id.as_str()).as_str());
                        out.append(", name: ");
                        out.append(debug_text(name.as_str()).as_str());
                        out.append(", input: ");
                        out.append(d.as_str());
                        out.append(" }");
                    },
                    None => out.append("ToolUse"),
                }
                out.append("\n");
                proof {
                    assert(out@ =~= start + chunk_render(*self));
                }
            },
            _ => {
                let ghost start = out@;
                out.append("\n");
                out.append(self.kind_label());
                out.append("\n");
                proof {
                    assert(out@ =~= start + chunk_render(*self));
                }
            },
        }
    }
}

/// A bare string and a one-element array that holds the same text as a text
/// chunk read as different forms of content, and both give one text chunk
/// with that text.
pub proof fn lemma_plain_text_is_one_text_chunk(j1: JsonValue, j2: JsonValue, c1: Content, c2: Content)
    requires
        j1 is Str,
        j2 is Array,
        j2->Array_0.len() == 1,
        j2->Array_0[0] is Object,
        j2->Array_0[0]->Object_0.len() == 2,
        text_entry_is(j2->Array_0[0]->Object_0[0], "type"@, "text"@),
        text_entry_is(j2->Array_0[0]->Object_0[1], "text"@, j1->Str_0@),
        content_decodes(j1, c1),
        content_decodes(j2, c2),
    ensures
        c1 is UntaggedText,
        c2 is Chunks,
        chunk_seq(c1).len() == 1,
        chunk_seq(c2).len() == 1,
        chunk_seq(c1)[0] is Text,
        chunk_seq(c2)[0] is Text,
        chunk_seq(c1)[0]->text@ == j1->Str_0@,
        chunk_seq(c2)[0]->text@ == j1->Str_0@,
{
    let item = j2->Array_0[0];
    let fields = item->Object_0;
    reveal_strlit("type");
    reveal_strlit("text");
    assert("type"@[1] != "text"@[1]);
    assert(key_index_from(fields@, 0, "type"@) == 0);
    assert(key_index_from(fields@, 1, "text"@) == 1);
    assert(key_index_from(fields@, 0, "text"@) == 1);
    assert(chunk_decodes(item, c2->Chunks_0[0]));
}

/// A `tool_result` object whose `content` member is a string reads as a tool
/// result that holds that string as plain-text content, with the object's
/// `tool_use_id`.
pub proof fn lemma_tool_result_plain_content(j: JsonValue, c: ContentChunk)
    requires
        tag(j) == Some("tool_result"@),
        member(j, "content"@) matches Some(JsonValue::Str(_)),
        chunk_decodes(j, c),
    ensures
        c is ToolResult,
        c->content is UntaggedText,
        c->content->UntaggedText_0@ == member(j, "content"@)->0->Str_0@,
        Some(c->tool_use_id@) == str_member(j, "tool_use_id"@),
{
    reveal_strlit("text");
    reveal_strlit("tool_use");
    reveal_strlit("tool_result");
    assert("tool_result"@.len() != "text"@.len());
    assert("tool_result"@.len() != "tool_use"@.len());
}

/// Encoding a tool-use chunk and reading the result back gives the same id,
/// name and arguments.
pub proof fn lemma_tool_use_round_trip(c: ContentChunk, j: JsonValue, d: ContentChunk)
    requires
        c is ToolUse,
        chunk_encodes(c, j),
        chunk_decodes(j, d),
    ensures
        d is ToolUse,
        d->id@ == c->id@,
        d->name@ == c->name@,
        same_json(d->input, c->input),
{
    lemma_tool_use_fields(c, j);
    reveal_strlit("text");
    reveal_strlit("tool_use");
    assert("tool_use"@.len() != "text"@.len());
    lemma_same_json_trans(d->input, j->Object_0[3].1, c->input);
}

/// The encoding of a tool-use chunk reads back as that chunk.
pub proof fn lemma_tool_use_encoding_decodes(c: ContentChunk, j: JsonValue)
    requires
        c is ToolUse,
        chunk_encodes(c, j),
    ensures
        chunk_decodes(j, c),
{
    lemma_tool_use_fields(c, j);
    reveal_strlit("text");
    reveal_strlit("tool_use");
    assert("tool_use"@.len() != "text"@.len());
    lemma_same_json_symm(j->Object_0[3].1, c->input);
}

/// Where the members of the encoding of a tool-use chunk stand.
proof fn lemma_tool_use_fields(c: ContentChunk, j: JsonValue)
    requires
        c is ToolUse,
        chunk_encodes(c, j),
    ensures
        tag(j) == Some("tool_use"@),
        str_member(j, "id"@) == Some(c->id@),
        str_member(j, "name"@) == Some(c->name@),
        member(j, "input"@) == Some(j->Object_0[3].1),
{
    let fields = j->Object_0;
    reveal_strlit("type");
    reveal_strlit("id");
    reveal_strlit("name");
    reveal_strlit("input");
    assert("type"@[0] != "name"@[0]);
    assert("id"@.len() != "input"@.len());
    assert("type"@.len() != "input"@.len());
    assert("name"@.len() != "input"@.len());
    assert("type"@.len() != "id"@.len());
    assert(key_index_from(fields@, 0, "type"@) == 0);
    assert(key_index_from(fields@, 1, "id"@) == 1);
    assert(key_index_from(fields@, 0, "id"@) == 1);
    assert(key_index_from(fields@, 2, "name"@) == 2);
    assert(key_index_from(fields@, 1, "name"@) == 2);
    assert(key_index_from(fields@, 0, "name"@) == 2);
    assert(key_index_from(fields@, 3, "input"@) == 3);
    assert(key_index_from(fields@, 2, "input"@) == 3);
    assert(key_index_from(fields@, 1, "input"@) == 3);
    assert(key_index_from(fields@, 0, "input"@) == 3);
}

} // verus!
