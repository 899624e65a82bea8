//! Renderers: each turns one event into the lines a front end writes.
use vstd::prelude::*;
use vstd::utf8::encode_utf8;
use crate::message::{Context, Message, ParseKind, Status, Typo};
use crate::text::{
    column_of, decimal, decimal_text, display_line, join_all, joined, json_quote, json_quoted,
    line_text, offset_ok, repeat_text, repeated, ticked, ticked_list, ticked_text, trim_end,
    trimmed_end, typo_column, views,
};

verus! {

/// One line of output, without its line break, and the stream it belongs to.
#[derive(Clone, Debug, PartialEq, Eq)]
pub enum Output {
    /// A line of the primary output stream.
    Stdout(String),
    /// A notice for the log channel, at the info level.
    Info(String),
    /// A message for the log channel, at the error level.
    Error(String),
}

/// The model of an output line.
pub enum Line {
    Out(Seq<char>),
    Info(Seq<char>),
    Error(Seq<char>),
}

impl View for Output {
    type V = Line;

    open spec fn view(&self) -> Line {
        match self {
            Output::Stdout(s) => Line::Out(s@),
            Output::Info(s) => Line::Info(s@),
            Output::Error(s) => Line::Error(s@),
        }
    }
}

/// The models of some output lines.
pub open spec fn lines_of(v: Seq<Output>) -> Seq<Line> {
    v.map_values(|o: Output| o@)
}

/// How a context is shown: `path:line` for a line of a file, the path alone
/// for a path, nothing where there is none.
pub open spec fn context_text(context: Option<Context>) -> Seq<char> {
    match context {
        None => seq![],
        Some(Context::File(f)) => f.path@ + ":"@ + decimal(f.line_num as nat),
        Some(Context::Path(p)) => p.path@,
    }
}

/// The column that a renderer shows for an event: that of the typo's byte
/// offset, and zero for other events, which show none.
pub open spec fn shown_column(m: Message) -> nat {
    match m {
        Message::Typo(t) => column_of(t.buffer@, t.byte_offset as int),
        _ => 0,
    }
}

/// Whether an event can be rendered: a typo's byte offset must be a
/// character boundary of its line.
pub open spec fn renderable(m: Message) -> bool {
    match m {
        Message::Typo(t) => offset_ok(t.buffer@, t.byte_offset as int),
        _ => true,
    }
}

/// The start shared by both one-line forms of a typo: location, column and
/// the token between backticks.
pub open spec fn brief_head(t: Typo, col: nat) -> Seq<char> {
    context_text(t.context) + ":"@ + decimal(col) + ": "@ + ticked(t.typo@)
}

/// The brief form of a typo shown at column `col`.
pub open spec fn brief_typo(t: Typo, col: nat) -> Seq<Line> {
    match t.corrections {
        Status::Valid => seq![],
        Status::Invalid => seq![Line::Out(brief_head(t, col) + " is disallowed"@)],
        Status::Corrections(c) => seq![
            Line::Out(brief_head(t, col) + " -> "@ + ticked_list(views(c@))),
        ],
    }
}

/// The notice for a skipped binary file.
pub open spec fn binary_notice(path: Seq<char>) -> Seq<char> {
    "Skipping binary file "@ + path
}

/// The log line for an error: its location, a colon, and the message.
pub open spec fn error_notice(context: Option<Context>, msg: Seq<char>) -> Seq<char> {
    context_text(context) + ": "@ + msg
}

/// The lines shared by the brief and long forms for events other than typos.
pub open spec fn plain_lines(m: Message) -> Seq<Line> {
    match m {
        Message::BinaryFile(b) => seq![Line::Info(binary_notice(b.path@))],
        Message::Typo(_) => seq![],
        Message::File(f) => seq![Line::Out(f.path@)],
        Message::Parse(p) => seq![Line::Out(p.data@)],
        Message::Error(e) => seq![Line::Error(error_notice(e.context, e.msg@))],
    }
}

/// The brief form of an event, a typo being shown at column `col`.
pub open spec fn brief_lines(m: Message, col: nat) -> Seq<Line> {
    match m {
        Message::Typo(t) => brief_typo(t, col),
        _ => plain_lines(m),
    }
}

/// How a context is shown (see `context_text`).
pub fn context_display(context: &Option<Context>) -> (r: String)
    ensures
        r@ == context_text(*context),
{
    match context {
        None => String::new(),
        Some(Context::File(f)) => {
            let mut s = f.path.clone();
            s.append(":");
            let n = decimal_text(f.line_num);
            s.append(n.as_str());
            s
        },
        Some(Context::Path(p)) => p.path.clone(),
    }
}

impl Context {
    /// How the context is shown (see `context_text`).
    pub fn display(&self) -> (r: String)
        ensures
            r@ == context_text(Some(*self)),
    {
        match self {
            Context::File(f) => {
                let mut s = f.path.clone();
                s.append(":");
                let n = decimal_text(f.line_num);
                s.append(n.as_str());
                s
            },
            Context::Path(p) => p.path.clone(),
        }
    }
}

/// The brief form of a typo shown at column `column`.
pub fn brief_typo_lines(t: &Typo, column: usize) -> (r: Vec<Output>)
    ensures
        lines_of(r@) == brief_typo(*t, column as nat),
{
    let mut head = context_display(&t.context);
    head.append(":");
    let c = decimal_text(column);
    head.append(c.as_str());
    head.append(": ");
    head.append("`");
    head.append(t.typo.as_str());
    head.append("`");
    assert(head@ =~= brief_head(*t, column as nat));
    let mut r: Vec<Output> = Vec::new();
    match &t.corrections {
        Status::Valid => {},
        Status::Invalid => {
            head.append(" is disallowed");
            r.push(Output::Stdout(head));
        },
        Status::Corrections(words) => {
            head.append(" -> ");
            let list = ticked_text(words);
            head.append(list.as_str());
            r.push(Output::Stdout(head));
        },
    }
    assert(lines_of(r@) =~= brief_typo(*t, column as nat));
    r
}

/// The lines of an event other than a typo, in both the brief and long forms.
fn plain_message_lines(m: &Message) -> (r: Vec<Output>)
    ensures
        lines_of(r@) == plain_lines(*m),
{
    let mut r: Vec<Output> = Vec::new();
    match m {
        Message::BinaryFile(b) => {
            let mut s = String::from_str("Skipping binary file ");
            s.append(b.path.as_str());
            r.push(Output::Info(s));
        },
        Message::Typo(_) => {},
        Message::File(f) => r.push(Output::Stdout(f.path.clone())),
        Message::Parse(p) => r.push(Output::Stdout(p.data.clone())),
        Message::Error(e) => {
            let mut s = context_display(&e.context);
            s.append(": ");
            s.append(e.msg.as_str());
            r.push(Output::Error(s));
        },
    }
    assert(lines_of(r@) =~= plain_lines(*m));
    r
}

/// The brief form of an event, a typo being shown at column `column`.
pub fn brief_message_lines(m: &Message, column: usize) -> (r: Vec<Output>)
    ensures
        lines_of(r@) == brief_lines(*m, column as nat),
{
    match m {
        Message::Typo(t) => brief_typo_lines(t, column),
        _ => plain_message_lines(m),
    }
}

/// Renders each event as at most one line.
#[derive(Copy, Clone, Debug)]
pub struct PrintBrief;

impl PrintBrief {
    /// The brief form of an event, or `None` where a typo's byte offset is
    /// not a character boundary of its line.
    pub fn report(&self, m: &Message) -> (r: Option<Vec<Output>>)
        ensures
            r.is_some() == renderable(*m),
            r.is_some() ==> lines_of(r.unwrap()@) == brief_lines(*m, shown_column(*m)),
    {
        match m {
            Message::Typo(t) => match typo_column(&t.buffer, t.byte_offset) {
                Some(c) => Some(brief_typo_lines(t, c)),
                None => None,
            },
            _ => Some(plain_message_lines(m)),
        }
    }
}

/// The length of a text in bytes, as `str::len` reports it.
pub open spec fn byte_len(s: Seq<char>) -> usize {
    encode_utf8(s).len() as usize
}

/// The first line of the long form of a flagged typo.
pub open spec fn long_header(t: Typo) -> Seq<char> {
    match t.corrections {
        Status::Valid => seq![],
        Status::Invalid => "error: "@ + ticked(t.typo@) + " is disallowed"@,
        Status::Corrections(c) => "error: "@ + ticked(t.typo@) + " should be "@ + ticked_list(
            views(c@),
        ),
    }
}

/// The source excerpt of the long form: for a line of a file, a blank
/// gutter, the numbered source line, a run of carets under the token (one
/// per byte of it, after `col` spaces) and another blank gutter; nothing for
/// other contexts.
pub open spec fn excerpt(t: Typo, col: nat, source: Seq<char>) -> Seq<Line> {
    match t.context {
        Some(Context::File(f)) => {
            let num = decimal(f.line_num as nat);
            let indent = repeated(' ', num.len());
            seq![
                Line::Out(indent + " |"@),
                Line::Out(num + " | "@ + source),
                Line::Out(
                    indent + " | "@ + repeated(' ', col) + repeated('^', byte_len(t.typo@) as nat),
                ),
                Line::Out(indent + " |"@),
            ]
        },
        _ => seq![],
    }
}

/// The long form of a typo shown at column `col`, with `source` as the text
/// of its line; nothing for a valid token.
pub open spec fn long_typo(t: Typo, col: nat, source: Seq<char>) -> Seq<Line> {
    if t.corrections is Valid {
        seq![]
    } else {
        seq![
            Line::Out(long_header(t)),
            Line::Out("  --> "@ + context_text(t.context) + ":"@ + decimal(col)),
        ] + excerpt(t, col, source)
    }
}

/// The long form of an event, a typo being shown at column `col` with
/// `source` as the text of its line.
pub open spec fn long_lines(m: Message, col: nat, source: Seq<char>) -> Seq<Line> {
    match m {
        Message::Typo(t) => long_typo(t, col, source),
        _ => plain_lines(m),
    }
}

/// The source text that the long form shows for an event: a typo's displayed
/// line without trailing white space.
pub open spec fn shown_source(m: Message) -> Seq<char> {
    match m {
        Message::Typo(t) => trimmed_end(display_line(t.buffer@)),
        _ => seq![],
    }
}

/// The source excerpt of the long form (see `excerpt`).
fn excerpt_lines(t: &Typo, column: usize, source: &str) -> (r: Vec<Output>)
    ensures
        lines_of(r@) == excerpt(*t, column as nat, source@),
{
    let mut r: Vec<Output> = Vec::new();
    match &t.context {
        Some(Context::File(f)) => {
            proof {
                reveal_strlit(" ");
                reveal_strlit("^");
            }
            let num = decimal_text(f.line_num);
            let indent = repeat_text(" ", num.unicode_len());
            let mut blank = indent.clone();
            blank.append(" |");
            let mut code = num.clone();
            code.append(" | ");
            code.append(source);
            let mut marks = indent.clone();
            marks.append(" | ");
            let pad = repeat_text(" ", column);
            marks.append(pad.as_str());
            let carets = repeat_text("^", t.typo.as_str().len());
            marks.append(carets.as_str());
            let blank2 = blank.clone();
            let ghost n = decimal(f.line_num as nat);
            assert(marks@ == repeated(' ', n.len()) + " | "@ + repeated(' ', column as nat) + repeated(
                '^',
                byte_len(t.typo@) as nat,
            ));
            r.push(Output::Stdout(blank));
            r.push(Output::Stdout(code));
            r.push(Output::Stdout(marks));
            r.push(Output::Stdout(blank2));
        },
        _ => {},
    }
    assert(lines_of(r@) =~= excerpt(*t, column as nat, source@));
    r
}

/// The long form of a typo shown at column `column`, with `source` as the
/// text of its line.
pub fn long_typo_lines(t: &Typo, column: usize, source: &str) -> (r: Vec<Output>)
    ensures
        lines_of(r@) == long_typo(*t, column as nat, source@),
{
    let mut header = String::from_str("error: ");
    header.append("`");
    header.append(t.typo.as_str());
    header.append("`");
    match &t.corrections {
        Status::Valid => {
            return Vec::new();
        },
        Status::Invalid => {
            header.append(" is disallowed");
        },
        Status::Corrections(words) => {
            header.append(" should be ");
            let list = ticked_text(words);
            header.append(list.as_str());
        },
    }
    assert(header@ =~= long_header(*t));
    let mut at = String::from_str("  --> ");
    let place = context_display(&t.context);
    at.append(place.as_str());
    at.append(":");
    let c = decimal_text(column);
    at.append(c.as_str());
    let mut r: Vec<Output> = Vec::new();
    r.push(Output::Stdout(header));
    r.push(Output::Stdout(at));
    let mut rest = excerpt_lines(t, column, source);
    r.append(&mut rest);
    assert(lines_of(r@) =~= long_typo(*t, column as nat, source@));
    r
}

/// The long form of an event, a typo being shown at column `column` with
/// `source` as the text of its line.
pub fn long_message_lines(m: &Message, column: usize, source: &str) -> (r: Vec<Output>)
    ensures
        lines_of(r@) == long_lines(*m, column as nat, source@),
{
    match m {
        Message::Typo(t) => long_typo_lines(t, column, source),
        _ => plain_message_lines(m),
    }
}

/// Renders flagged typos as compiler-style diagnostics with a source excerpt.
#[derive(Copy, Clone, Debug)]
pub struct PrintLong;

impl PrintLong {
    /// The long form of an event, or `None` where a typo's byte offset is
    /// not a character boundary of its line.
    pub fn report(&self, m: &Message) -> (r: Option<Vec<Output>>)
        ensures
            r.is_some() == renderable(*m),
            r.is_some() ==> lines_of(r.unwrap()@) == long_lines(
                *m,
                shown_column(*m),
                shown_source(*m),
            ),
    {
        match m {
            Message::Typo(t) => match typo_column(&t.buffer, t.byte_offset) {
                Some(c) => {
                    let line = line_text(&t.buffer);
                    let source = trim_end(line.as_str());
                    Some(long_typo_lines(t, c, source))
                },
                None => None,
            },
            _ => Some(plain_message_lines(m)),
        }
    }
}

/// The flattened fields of a context in a JSON record, each preceded by a
/// comma: `path`, and `line_num` for a line of a file.
pub open spec fn json_context(context: Option<Context>) -> Seq<char> {
    match context {
        None => seq![],
        Some(Context::File(f)) => ",\"path\":"@ + json_quoted(f.path@) + ",\"line_num\":"@
            + decimal(f.line_num as nat),
        Some(Context::Path(p)) => ",\"path\":"@ + json_quoted(p.path@),
    }
}

/// A verdict in a JSON record: `"valid"`, `"invalid"`, or the array of the
/// suggested words.
pub open spec fn json_status(status: Status) -> Seq<char> {
    match status {
        Status::Valid => "\"valid\""@,
        Status::Invalid => "\"invalid\""@,
        Status::Corrections(c) => "["@ + joined(
            views(c@).map_values(|w: Seq<char>| json_quoted(w)),
            ","@,
        ) + "]"@,
    }
}

/// The `type` tag of an event: its variant's name in snake case.
pub open spec fn type_tag(m: Message) -> Seq<char> {
    match m {
        Message::BinaryFile(_) => "binary_file"@,
        Message::Typo(_) => "typo"@,
        Message::File(_) => "file"@,
        Message::Parse(_) => "parse"@,
        Message::Error(_) => "error"@,
    }
}

/// The fields of an event's JSON record after its tag, each preceded by a
/// comma; a typo's buffer is left out.
pub open spec fn json_fields(m: Message) -> Seq<char> {
    match m {
        Message::BinaryFile(b) => ",\"path\":"@ + json_quoted(b.path@),
        Message::Typo(t) => json_context(t.context) + ",\"byte_offset\":"@ + decimal(
            t.byte_offset as nat,
        ) + ",\"typo\":"@ + json_quoted(t.typo@) + ",\"corrections\":"@ + json_status(
            t.corrections,
        ),
        Message::File(f) => ",\"path\":"@ + json_quoted(f.path@),
        Message::Parse(p) => json_context(p.context) + ",\"kind\":"@ + (if p.kind
            == ParseKind::Identifier {
            "\"identifier\""@
        } else {
            "\"word\""@
        }) + ",\"data\":"@ + json_quoted(p.data@),
        Message::Error(e) => json_context(e.context) + ",\"msg\":"@ + json_quoted(e.msg@),
    }
}

/// The JSON record of an event: one object, its `type` tag first.
pub open spec fn json_record(m: Message) -> Seq<char> {
    "{\"type\":\""@ + type_tag(m) + "\""@ + json_fields(m) + "}"@
}

/// The flattened fields of a context (see `json_context`).
fn json_context_text(context: &Option<Context>) -> (r: String)
    ensures
        r@ == json_context(*context),
{
    match context {
        None => String::new(),
        Some(Context::File(f)) => {
            let mut s = String::from_str(",\"path\":");
            let q = json_quote(f.path.as_str());
            s.append(q.as_str());
            s.append(",\"line_num\":");
            let n = decimal_text(f.line_num);
            s.append(n.as_str());
            s
        },
        Some(Context::Path(p)) => {
            let mut s = String::from_str(",\"path\":");
            let q = json_quote(p.path.as_str());
            s.append(q.as_str());
            s
        },
    }
}

/// A verdict in a JSON record (see `json_status`).
fn json_status_text(status: &Status) -> (r: String)
    ensures
        r@ == json_status(*status),
{
    match status {
        Status::Valid => String::from_str("\"valid\""),
        Status::Invalid => String::from_str("\"invalid\""),
        Status::Corrections(words) => {
            let mut items: Vec<String> = Vec::new();
            let mut i: usize = 0;
            while i < words.len()
                invariant
                    i <= words.len(),
                    items@.len() == i,
                    forall|k: int| 0 <= k < i ==> #[trigger] items@[k]@ == json_quoted(words@[k]@),
                decreases words.len() - i,
            {
                items.push(json_quote(words[i].as_str()));
                i = i + 1;
            }
            assert(views(items@) =~= views(words@).map_values(|w: Seq<char>| json_quoted(w)));
            let mut s = String::from_str("[");
            let list = join_all(&items, ",");
            s.append(list.as_str());
            s.append("]");
            s
        },
    }
}

/// The JSON record of an event (see `json_record`).
pub fn json_record_text(m: &Message) -> (r: String)
    ensures
        r@ == json_record(*m),
{
    let mut s = String::from_str("{\"type\":\"");
    match m {
        Message::BinaryFile(b) => {
            s.append("binary_file");
            s.append("\"");
            s.append(",\"path\":");
            let q = json_quote(b.path.as_str());
            s.append(q.as_str());
        },
        Message::Typo(t) => {
            s.append("typo");
            s.append("\"");
            let c = json_context_text(&t.context);
            s.append(c.as_str());
            s.append(",\"byte_offset\":");
            let n = decimal_text(t.byte_offset);
            s.append(n.as_str());
            s.append(",\"typo\":");
            let q = json_quote(t.typo.as_str());
            s.append(q.as_str());
            s.append(",\"corrections\":");
            let st = json_status_text(&t.corrections);
            s.append(st.as_str());
        },
        Message::File(f) => {
            s.append("file");
            s.append("\"");
            s.append(",\"path\":");
            let q = json_quote(f.path.as_str());
            s.append(q.as_str());
        },
        Message::Parse(p) => {
            s.append("parse");
            s.append("\"");
            let c = json_context_text(&p.context);
            s.append(c.as_str());
            s.append(",\"kind\":");
            match p.kind {
                ParseKind::Identifier => s.append("\"identifier\""),
                ParseKind::Word => s.append("\"word\""),
            }
            s.append(",\"data\":");
            let q = json_quote(p.data.as_str());
            s.append(q.as_str());
        },
        Message::Error(e) => {
            s.append("error");
            s.append("\"");
            let c = json_context_text(&e.context);
            s.append(c.as_str());
            s.append(",\"msg\":");
            let q = json_quote(e.msg.as_str());
            s.append(q.as_str());
        },
    }
    s.append("}");
    assert(s@ =~= json_record(*m));
    s
}

/// A typo's JSON record does not depend on its buffer.
pub proof fn lemma_json_ignores_buffer(t: Typo, buffer: Vec<u8>)
    ensures
        json_record(Message::Typo(t)) == json_record(Message::Typo(Typo { buffer, ..t })),
{
}

/// A JSON record opens with its `type` tag, and the tag tells the variant:
/// two events whose records are equal are of the same variant.
pub proof fn lemma_json_tag_decides_variant(a: Message, b: Message)
    ensures
        json_record(a).subrange(0, 9 + type_tag(a).len() as int + 1) == "{\"type\":\""@ + type_tag(a)
            + "\""@,
        json_record(a) == json_record(b) ==> type_tag(a) == type_tag(b),
{
    reveal_strlit("{\"type\":\"");
    reveal_strlit("\"");
    reveal_strlit("binary_file");
    reveal_strlit("typo");
    reveal_strlit("file");
    reveal_strlit("parse");
    reveal_strlit("error");
    let open = "{\"type\":\""@;
    assert(open.len() == 9);
    assert(json_record(a).subrange(0, 9 + type_tag(a).len() as int + 1) =~= open + type_tag(a) + "\""@);
    if json_record(a) == json_record(b) {
        assert(json_record(a)[9] == type_tag(a)[0]);
        assert(json_record(b)[9] == type_tag(b)[0]);
    }
}

/// Renders each event as one JSON record per line.
#[derive(Copy, Clone, Debug)]
pub struct PrintJson;

impl PrintJson {
    /// The event's JSON record, as one line of the primary output stream.
    pub fn report(&self, m: &Message) -> (r: Vec<Output>)
        ensures
            lines_of(r@) == seq![Line::Out(json_record(*m))],
    {
        let mut r: Vec<Output> = Vec::new();
        r.push(Output::Stdout(json_record_text(m)));
        assert(lines_of(r@) =~= seq![Line::Out(json_record(*m))]);
        r
    }
}

/// Discards every event.
#[derive(Copy, Clone, Debug, Default)]
pub struct PrintSilent;

impl PrintSilent {
    /// Renders nothing, whatever the event.
    pub fn report(&self, m: &Message) -> (r: Vec<Output>)
        ensures
            r@.len() == 0,
    {
        Vec::new()
    }
}

} // verus!
