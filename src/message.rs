//! The events a scan reports, and the location context some of them carry.
use vstd::prelude::*;

verus! {

/// The verdict on a flagged token: fine, disallowed, or replaceable by one of
/// the suggested words (in order of preference).
#[derive(Clone, Debug)]
pub enum Status {
    Valid,
    Invalid,
    Corrections(Vec<String>),
}

impl Status {
    /// Whether the verdict flags the token (anything but `Valid`).
    pub open spec fn spec_flags(&self) -> bool {
        !(self is Valid)
    }

    /// Whether the verdict flags the token (anything but `Valid`).
    pub fn flags(&self) -> (r: bool)
        ensures
            r == self.spec_flags(),
    {
        match self {
            Status::Valid => false,
            Status::Invalid => true,
            Status::Corrections(_) => true,
        }
    }
}

/// A file that was skipped because it holds binary data.
#[derive(Clone, Debug)]
pub struct BinaryFile {
    pub path: String,
}

/// A token of a line that the dictionary flagged (or passed).
#[derive(Clone, Debug)]
pub struct Typo {
    pub context: Option<Context>,
    /// The raw bytes of the line the token sits in; never serialised.
    pub buffer: Vec<u8>,
    /// Where the token starts, as a byte index into `buffer`.
    pub byte_offset: usize,
    pub typo: String,
    pub corrections: Status,
}

/// Where an event happened: a line of a file, or a whole path.
#[derive(Clone, Debug)]
pub enum Context {
    File(FileContext),
    Path(PathContext),
}

/// A line of a file.
#[derive(Clone, Debug)]
pub struct FileContext {
    pub path: String,
    pub line_num: usize,
}

/// A path without a line.
#[derive(Clone, Debug)]
pub struct PathContext {
    pub path: String,
}

/// Which kind of token a parse event shows.
#[derive(Copy, Clone, Debug, PartialEq, Eq, Structural)]
pub enum ParseKind {
    Identifier,
    Word,
}

/// A file that was visited.
#[derive(Clone, Debug)]
pub struct File {
    pub path: String,
}

/// A token that the parser produced.
#[derive(Clone, Debug)]
pub struct Parse {
    pub context: Option<Context>,
    pub kind: ParseKind,
    pub data: String,
}

/// A failure met during the scan.
#[derive(Clone, Debug)]
pub struct Error {
    pub context: Option<Context>,
    pub msg: String,
}

/// One event of a scan.
#[derive(Clone, Debug)]
pub enum Message {
    BinaryFile(BinaryFile),
    Typo(Typo),
    File(File),
    Parse(Parse),
    Error(Error),
}

/// The event with its context replaced, where its variant has one.
pub open spec fn with_context(m: Message, context: Option<Context>) -> Message {
    match m {
        Message::Typo(t) => Message::Typo(Typo { context, ..t }),
        Message::Parse(p) => Message::Parse(Parse { context, ..p }),
        Message::Error(e) => Message::Error(Error { context, ..e }),
        Message::BinaryFile(_) => m,
        Message::File(_) => m,
    }
}

impl Message {
    /// Whether the event is a typo with a flagging verdict.
    pub open spec fn spec_is_correction(&self) -> bool {
        match self {
            Message::Typo(t) => t.corrections.spec_flags(),
            _ => false,
        }
    }

    /// Whether the event is an error.
    pub open spec fn spec_is_error(&self) -> bool {
        self is Error
    }

    /// Whether the event is a typo with a flagging verdict.
    pub fn is_correction(&self) -> (r: bool)
        ensures
            r == self.spec_is_correction(),
    {
        match self {
            Message::BinaryFile(_) => false,
            Message::Typo(c) => c.corrections.flags(),
            Message::File(_) => false,
            Message::Parse(_) => false,
            Message::Error(_) => false,
        }
    }

    /// Whether the event is an error.
    pub fn is_error(&self) -> (r: bool)
        ensures
            r == self.spec_is_error(),
    {
        match self {
            Message::BinaryFile(_) => false,
            Message::Typo(_) => false,
            Message::File(_) => false,
            Message::Parse(_) => false,
            Message::Error(_) => true,
        }
    }

    /// The event with `context` in place of its own; events without a
    /// context field come back unchanged.
    pub fn context(self, context: Option<Context>) -> (r: Self)
        ensures
            r == with_context(self, context),
    {
        match self {
            Message::Typo(typo) => Message::Typo(typo.context(context)),
            Message::Parse(parse) => Message::Parse(parse.context(context)),
            Message::Error(error) => Message::Error(error.context(context)),
            Message::BinaryFile(b) => Message::BinaryFile(b),
            Message::File(f) => Message::File(f),
        }
    }
}

/// Attaching a context to an event that has no context field gives back the
/// event as it was.
pub proof fn lemma_context_ignored_without_field(m: Message, context: Option<Context>)
    requires
        m is BinaryFile || m is File,
    ensures
        with_context(m, context) == m,
{
}

/// Attaching a context to a typo, parse or error event puts exactly that
/// context there and keeps every other field.
pub proof fn lemma_context_replaced(m: Message, context: Option<Context>)
    requires
        m is Typo || m is Parse || m is Error,
    ensures
        with_context(m, context) matches Message::Typo(t) ==> (t.context == context && m
            == Message::Typo(Typo { context: m->Typo_0.context, ..t })),
        with_context(m, context) matches Message::Parse(p) ==> (p.context == context && m
            == Message::Parse(Parse { context: m->Parse_0.context, ..p })),
        with_context(m, context) matches Message::Error(e) ==> (e.context == context && m
            == Message::Error(Error { context: m->Error_0.context, ..e })),
{
}

impl Typo {
    /// The typo with its context replaced.
    pub fn context(self, context: Option<Context>) -> (r: Self)
        ensures
            r == (Typo { context, ..self }),
    {
        Typo { context, ..self }
    }
}

impl Parse {
    /// The parse event with its context replaced.
    pub fn context(self, context: Option<Context>) -> (r: Self)
        ensures
            r == (Parse { context, ..self }),
    {
        Parse { context, ..self }
    }
}

impl Error {
    /// An error without context.
    pub fn new(msg: String) -> (r: Self)
        ensures
            r.context is None,
            r.msg == msg,
    {
        Error { context: None, msg }
    }

    /// The error with its context replaced.
    pub fn context(self, context: Option<Context>) -> (r: Self)
        ensures
            r == (Error { context, ..self }),
    {
        Error { context, ..self }
    }
}

impl File {
    /// A visited file.
    pub fn new(path: String) -> (r: Self)
        ensures
            r.path == path,
    {
        File { path }
    }
}

impl BinaryFile {
    /// The event with its path replaced.
    pub fn path(self, path: String) -> (r: Self)
        ensures
            r == (BinaryFile { path, ..self }),
    {
        BinaryFile { path, ..self }
    }
}

impl Typo {
    /// The typo with its line buffer replaced.
    pub fn buffer(self, buffer: Vec<u8>) -> (r: Self)
        ensures
            r == (Typo { buffer, ..self }),
    {
        Typo { buffer, ..self }
    }

    /// The typo with its byte offset replaced.
    pub fn byte_offset(self, byte_offset: usize) -> (r: Self)
        ensures
            r == (Typo { byte_offset, ..self }),
    {
        Typo { byte_offset, ..self }
    }

    /// The typo with its token replaced.
    pub fn typo(self, typo: String) -> (r: Self)
        ensures
            r == (Typo { typo, ..self }),
    {
        Typo { typo, ..self }
    }

    /// The typo with its verdict replaced.
    pub fn corrections(self, corrections: Status) -> (r: Self)
        ensures
            r == (Typo { corrections, ..self }),
    {
        Typo { corrections, ..self }
    }
}

impl Default for Typo {
    fn default() -> (r: Self)
        ensures
            r.context is None,
            r.buffer@.len() == 0,
            r.byte_offset == 0,
            r.typo@.len() == 0,
            r.corrections is Invalid,
    {
        Typo {
            context: None,
            buffer: Vec::new(),
            byte_offset: 0,
            typo: String::new(),
            corrections: Status::Invalid,
        }
    }
}

impl FileContext {
    /// The context with its path replaced.
    pub fn path(self, path: String) -> (r: Self)
        ensures
            r == (FileContext { path, ..self }),
    {
        FileContext { path, ..self }
    }

    /// The context with its line number replaced.
    pub fn line_num(self, line_num: usize) -> (r: Self)
        ensures
            r == (FileContext { line_num, ..self }),
    {
        FileContext { line_num, ..self }
    }
}

impl Default for FileContext {
    fn default() -> (r: Self)
        ensures
            r.path@ == seq!['-'],
            r.line_num == 0,
    {
        proof {
            reveal_strlit("-");
        }
        FileContext { path: String::from_str("-"), line_num: 0 }
    }
}

impl PathContext {
    /// The context with its path replaced.
    pub fn path(self, path: String) -> (r: Self)
        ensures
            r == (PathContext { path, ..self }),
    {
        PathContext { path, ..self }
    }
}

impl Default for PathContext {
    fn default() -> (r: Self)
        ensures
            r.path@ == seq!['-'],
    {
        proof {
            reveal_strlit("-");
        }
        PathContext { path: String::from_str("-") }
    }
}

impl File {
    /// The event with its path replaced.
    pub fn path(self, path: String) -> (r: Self)
        ensures
            r == (File { path, ..self }),
    {
        File { path, ..self }
    }
}

impl Default for File {
    fn default() -> (r: Self)
        ensures
            r.path@ == seq!['-'],
    {
        proof {
            reveal_strlit("-");
        }
        File { path: String::from_str("-") }
    }
}

impl Parse {
    /// The event with its token kind replaced.
    pub fn kind(self, kind: ParseKind) -> (r: Self)
        ensures
            r == (Parse { kind, ..self }),
    {
        Parse { kind, ..self }
    }

    /// The event with its token text replaced.
    pub fn data(self, data: String) -> (r: Self)
        ensures
            r == (Parse { data, ..self }),
    {
        Parse { data, ..self }
    }
}

impl Default for Parse {
    fn default() -> (r: Self)
        ensures
            r.context is None,
            r.kind == ParseKind::Identifier,
            r.data@.len() == 0,
    {
        Parse { context: None, kind: ParseKind::Identifier, data: String::new() }
    }
}

impl Error {
    /// The error with its message replaced.
    pub fn msg(self, msg: String) -> (r: Self)
        ensures
            r == (Error { msg, ..self }),
    {
        Error { msg, ..self }
    }
}

impl Default for Error {
    fn default() -> (r: Self)
        ensures
            r.context is None,
            r.msg@.len() == 0,
    {
        Error { context: None, msg: String::new() }
    }
}

impl From<BinaryFile> for Message {
    fn from(v: BinaryFile) -> (r: Message)
        ensures
            r == Message::BinaryFile(v),
    {
        Message::BinaryFile(v)
    }
}

impl vstd::std_specs::convert::FromSpecImpl<BinaryFile> for Message {
    open spec fn obeys_from_spec() -> bool {
        true
    }

    open spec fn from_spec(v: BinaryFile) -> Message {
        Message::BinaryFile(v)
    }
}

impl From<Typo> for Message {
    fn from(v: Typo) -> (r: Message)
        ensures
            r == Message::Typo(v),
    {
        Message::Typo(v)
    }
}

impl vstd::std_specs::convert::FromSpecImpl<Typo> for Message {
    open spec fn obeys_from_spec() -> bool {
        true
    }

    open spec fn from_spec(v: Typo) -> Message {
        Message::Typo(v)
    }
}

impl From<File> for Message {
    fn from(v: File) -> (r: Message)
        ensures
            r == Message::File(v),
    {
        Message::File(v)
    }
}

impl vstd::std_specs::convert::FromSpecImpl<File> for Message {
    open spec fn obeys_from_spec() -> bool {
        true
    }

    open spec fn from_spec(v: File) -> Message {
        Message::File(v)
    }
}

impl From<Parse> for Message {
    fn from(v: Parse) -> (r: Message)
        ensures
            r == Message::Parse(v),
    {
        Message::Parse(v)
    }
}

impl vstd::std_specs::convert::FromSpecImpl<Parse> for Message {
    open spec fn obeys_from_spec() -> bool {
        true
    }

    open spec fn from_spec(v: Parse) -> Message {
        Message::Parse(v)
    }
}

impl From<Error> for Message {
    fn from(v: Error) -> (r: Message)
        ensures
            r == Message::Error(v),
    {
        Message::Error(v)
    }
}

impl vstd::std_specs::convert::FromSpecImpl<Error> for Message {
    open spec fn obeys_from_spec() -> bool {
        true
    }

    open spec fn from_spec(v: Error) -> Message {
        Message::Error(v)
    }
}

impl From<FileContext> for Context {
    fn from(v: FileContext) -> (r: Context)
        ensures
            r == Context::File(v),
    {
        Context::File(v)
    }
}

impl vstd::std_specs::convert::FromSpecImpl<FileContext> for Context {
    open spec fn obeys_from_spec() -> bool {
        true
    }

    open spec fn from_spec(v: FileContext) -> Context {
        Context::File(v)
    }
}

impl From<PathContext> for Context {
    fn from(v: PathContext) -> (r: Context)
        ensures
            r == Context::Path(v),
    {
        Context::Path(v)
    }
}

impl vstd::std_specs::convert::FromSpecImpl<PathContext> for Context {
    open spec fn obeys_from_spec() -> bool {
        true
    }

    open spec fn from_spec(v: PathContext) -> Context {
        Context::Path(v)
    }
}

} // verus!
