//! Extension seams: MCP tool client, LSP client (initialize, documents, hover)
//! and the PTY session manager. Filesystem and process access happen outside
//! this module.

use vstd::prelude::*;
use crate::json::{JsonValue, json_str_field, entries_of, str_entry, is_empty_object};
use crate::text::{owned, concat2, chars_of, string_of, str_eq, decimal, u64_to_decimal, usize_to_decimal,
    slice_vec};
use crate::tools::lines_of;

verus! {

// ---------------------------------------------------------------------------
// MCP
// ---------------------------------------------------------------------------

/// MCP client status.
pub struct McpStatus {
    pub status: String,
    pub message: String,
    pub tools: Vec<String>,
}

/// Outcome of an MCP tool call.
pub struct McpToolResult {
    pub ok: bool,
    pub tool: String,
    pub content: JsonValue,
}

/// What an MCP tool call needs.
pub enum McpCall {
    /// The call is already answered.
    Done(McpToolResult),
    /// List the directory at `path`.
    ListDir { path: String },
    /// Read the file at `path`.
    ReadFile { path: String },
}

/// MCP client with in-process tool handlers.
pub struct McpClient {
    pub tools: Vec<String>,
}

/// The tools the client offers.
pub open spec fn mcp_tool_names() -> Seq<Seq<char>> {
    seq!["mcp_filesystem_read"@, "mcp_filesystem_list"@, "mcp_echo"@]
}

/// The one-entry object `{key: "text"}`.
pub open spec fn is_single_str(v: JsonValue, key: Seq<char>, text: Seq<char>) -> bool {
    v is Object && entries_of(v).len() == 1 && str_entry(entries_of(v)[0], key, text)
}

/// `{key: value}`.
fn object1(key: &str, value: JsonValue) -> (r: JsonValue)
    ensures
        entries_of(r).len() == 1,
        entries_of(r)[0].0@ == key@,
        entries_of(r)[0].1 == value,
        r is Object,
{
    JsonValue::Object(vec![(owned(key), value)])
}

impl McpClient {
    /// A client offering `mcp_filesystem_read`, `mcp_filesystem_list`, `mcp_echo`.
    pub fn new() -> (r: Self)
        ensures
            r.tools@.map_values(|t: String| t@) == mcp_tool_names(),
    {
        let tools: Vec<String> = vec![
            owned("mcp_filesystem_read"),
            owned("mcp_filesystem_list"),
            owned("mcp_echo"),
        ];
        assert(tools@.map_values(|t: String| t@) =~= mcp_tool_names());
        McpClient { tools }
    }

    /// The offered tools.
    pub fn list_tools(&self) -> (r: Vec<String>)
        ensures
            r@ == self.tools@,
    {
        let mut r: Vec<String> = Vec::new();
        let mut i: usize = 0;
        while i < self.tools.len()
            invariant
                i <= self.tools@.len(),
                r@ == self.tools@.take(i as int),
            decreases self.tools@.len() - i,
        {
            r.push(self.tools[i].clone());
            i = i + 1;
            assert(r@ =~= self.tools@.take(i as int));
        }
        assert(self.tools@.take(self.tools@.len() as int) =~= self.tools@);
        r
    }

    /// Dispatches a tool call: `mcp_echo` answers with its arguments,
    /// `mcp_filesystem_list` lists `args.path` (default `.`),
    /// `mcp_filesystem_read` reads `args.path` (default empty), any other name
    /// fails with `{"error": "unknown tool: <name>"}`.
    pub fn call_tool(&self, name: &str, args: JsonValue) -> (r: McpCall)
        ensures
            name@ == "mcp_echo"@ ==> (r matches McpCall::Done(res) && res.ok && res.tool@ == name@
                && res.content == args),
            name@ == "mcp_filesystem_list"@ ==> (r matches McpCall::ListDir { path } && path@ == match json_str_field(
                args,
                "path"@,
            ) {
                Some(p) => p,
                None => "."@,
            }),
            name@ == "mcp_filesystem_read"@ ==> (r matches McpCall::ReadFile { path } && path@ == match json_str_field(
                args,
                "path"@,
            ) {
                Some(p) => p,
                None => ""@,
            }),
            !mcp_tool_names().contains(name@) ==> (r matches McpCall::Done(res) && !res.ok && res.tool@
                == name@ && is_single_str(res.content, "error"@, "unknown tool: "@ + name@)),
    {
        proof {
            reveal_strlit("mcp_echo");
            reveal_strlit("mcp_filesystem_list");
            reveal_strlit("mcp_filesystem_read");
            assert("mcp_echo"@.len() == 8);
            assert("mcp_filesystem_list"@.len() == 19 && "mcp_filesystem_read"@.len() == 19);
            assert("mcp_filesystem_list"@[15] == 'l' && "mcp_filesystem_read"@[15] == 'r');
        }
        if str_eq(name, "mcp_echo") {
            McpCall::Done(McpToolResult { ok: true, tool: owned(name), content: args })
        } else if str_eq(name, "mcp_filesystem_list") {
            let path = match args.get_str("path") {
                Some(p) => p.clone(),
                None => owned("."),
            };
            McpCall::ListDir { path }
        } else if str_eq(name, "mcp_filesystem_read") {
            let path = match args.get_str("path") {
                Some(p) => p.clone(),
                None => owned(""),
            };
            McpCall::ReadFile { path }
        } else {
            let content = object1("error", JsonValue::Str(concat2("unknown tool: ", name)));
            proof {
                assert(mcp_tool_names()[0] == "mcp_filesystem_read"@);
                assert(mcp_tool_names()[1] == "mcp_filesystem_list"@);
                assert(mcp_tool_names()[2] == "mcp_echo"@);
            }
            McpCall::Done(McpToolResult { ok: false, tool: owned(name), content })
        }
    }

    /// Status: `ready`, a description, and the offered tools.
    pub fn status(&self) -> (r: McpStatus)
        ensures
            r.status@ == "ready"@,
            r.message@ == "MCP client: list_tools + call_tool"@,
            r.tools@ == self.tools@,
    {
        McpStatus {
            status: owned("ready"),
            message: owned("MCP client: list_tools + call_tool"),
            tools: self.list_tools(),
        }
    }
}

/// Answer of a directory listing: `{"entries": [..]}`, or `{"error": ..}`.
pub fn list_dir_result(tool: &str, outcome: Result<Vec<String>, String>) -> (r: McpToolResult)
    ensures
        r.tool@ == tool@,
        outcome is Ok <==> r.ok,
        outcome matches Ok(v) ==> (r.content is Object && entries_of(r.content).len() == 1
            && entries_of(r.content)[0].0@ == "entries"@ && (entries_of(r.content)[0].1 matches JsonValue::Array(
            items,
        ) && items@.len() == v@.len() && forall|i: int|
            0 <= i < v@.len() ==> (#[trigger] items@[i] matches JsonValue::Str(s) && s == v@[i]))),
        outcome matches Err(e) ==> is_single_str(r.content, "error"@, e@),
{
    match outcome {
        Ok(v) => {
            let mut items: Vec<JsonValue> = Vec::new();
            let mut i: usize = 0;
            while i < v.len()
                invariant
                    i <= v@.len(),
                    items@.len() == i,
                    forall|j: int| 0 <= j < i ==> (#[trigger] items@[j] matches JsonValue::Str(s) && s == v@[j]),
                decreases v@.len() - i,
            {
                items.push(JsonValue::Str(v[i].clone()));
                i = i + 1;
            }
            let content = object1("entries", JsonValue::Array(items));
            McpToolResult { ok: true, tool: owned(tool), content }
        },
        Err(e) => {
            let content = object1("error", JsonValue::Str(e));
            McpToolResult { ok: false, tool: owned(tool), content }
        },
    }
}

/// Answer of a file read: `{"text": ..}`, or `{"error": ..}`.
pub fn read_file_result(tool: &str, outcome: Result<String, String>) -> (r: McpToolResult)
    ensures
        r.tool@ == tool@,
        outcome is Ok <==> r.ok,
        outcome matches Ok(t) ==> is_single_str(r.content, "text"@, t@),
        outcome matches Err(e) ==> is_single_str(r.content, "error"@, e@),
{
    match outcome {
        Ok(t) => {
            let content = object1("text", JsonValue::Str(t));
            McpToolResult { ok: true, tool: owned(tool), content }
        },
        Err(e) => {
            let content = object1("error", JsonValue::Str(e));
            McpToolResult { ok: false, tool: owned(tool), content }
        },
    }
}

// ---------------------------------------------------------------------------
// LSP
// ---------------------------------------------------------------------------

/// LSP client status.
pub struct LspStatus {
    pub status: String,
    pub initialized: bool,
    pub server_capabilities: JsonValue,
}

/// Hover answer.
#[derive(Debug)]
pub struct LspHoverResult {
    pub contents: String,
    pub range: Option<JsonValue>,
}

/// LSP client: initialization flag and the open documents (uri, text).
pub struct LspClient {
    pub initialized: bool,
    pub documents: Vec<(String, String)>,
}

/// `char::is_alphanumeric`.
pub uninterp spec fn char_is_alphanumeric(c: char) -> bool;

/// `char::is_alphanumeric`: whether the character is alphabetic or numeric
/// in Unicode terms. Among ASCII characters exactly the letters and digits are.
#[verifier::external_body]
fn is_alphanumeric(c: char) -> (r: bool)
    ensures
        r == char_is_alphanumeric(c),
        (c as int) < 128 ==> (r <==> (('a' <= c && c <= 'z') || ('A' <= c && c <= 'Z') || ('0' <= c
            && c <= '9'))),
{
    c.is_alphanumeric()
}

/// Characters that make up a word for hover: alphanumerics and `_`.
pub open spec fn is_word_char(c: char) -> bool {
    char_is_alphanumeric(c) || c == '_'
}

/// Length of the run of word characters that ends just before index `c`.
pub open spec fn run_left(chars: Seq<char>, c: int) -> nat
    decreases c,
{
    if 0 < c <= chars.len() && is_word_char(chars[c - 1]) {
        run_left(chars, c - 1) + 1
    } else {
        0
    }
}

/// Length of the run of word characters that starts at index `e`.
pub open spec fn run_right(chars: Seq<char>, e: int) -> nat
    decreases chars.len() - e,
{
    if 0 <= e < chars.len() && is_word_char(chars[e]) {
        run_right(chars, e + 1) + 1
    } else {
        0
    }
}

/// The word around a position: empty when the line does not exist or the
/// column is past its end, else the run of word characters before the column
/// joined with the run that starts at it.
pub open spec fn word_at_spec(text: Seq<char>, line: nat, character: nat) -> Seq<char> {
    let ls = lines_of(text);
    if line >= ls.len() {
        seq![]
    } else {
        let row = ls[line as int];
        if character >= row.len() {
            seq![]
        } else {
            row.subrange(
                character - run_left(row, character as int),
                (character + run_right(row, character as int)) as int,
            )
        }
    }
}

proof fn lemma_run_left_bound(chars: Seq<char>, c: int)
    requires
        0 <= c <= chars.len(),
    ensures
        run_left(chars, c) <= c,
    decreases c,
{
    if c > 0 {
        lemma_run_left_bound(chars, c - 1);
    }
}

proof fn lemma_run_right_bound(chars: Seq<char>, e: int)
    requires
        0 <= e <= chars.len(),
    ensures
        e + run_right(chars, e) <= chars.len(),
    decreases chars.len() - e,
{
    if e < chars.len() {
        lemma_run_right_bound(chars, e + 1);
    }
}

proof fn lemma_run_left_is_maximal(chars: Seq<char>, c: int)
    requires
        0 <= c <= chars.len(),
    ensures
        run_left(chars, c) <= c,
        forall|k: int| c - run_left(chars, c) <= k < c ==> is_word_char(#[trigger] chars[k]),
        c - run_left(chars, c) == 0 || !is_word_char(chars[c - run_left(chars, c) - 1]),
    decreases c,
{
    if c > 0 && is_word_char(chars[c - 1]) {
        lemma_run_left_is_maximal(chars, c - 1);
    }
}

proof fn lemma_run_right_is_maximal(chars: Seq<char>, e: int)
    requires
        0 <= e <= chars.len(),
    ensures
        e + run_right(chars, e) <= chars.len(),
        forall|k: int| e <= k < e + run_right(chars, e) ==> is_word_char(#[trigger] chars[k]),
        e + run_right(chars, e) == chars.len() || !is_word_char(chars[e + run_right(chars, e)]),
    decreases chars.len() - e,
{
    if e < chars.len() && is_word_char(chars[e]) {
        lemma_run_right_is_maximal(chars, e + 1);
    }
}

/// The hovered word is the longest run of characters that are alphanumeric
/// or `_` around the column: it starts at the line's start or after a
/// character that is neither, ends at the line's end or before such a
/// character, and holds only alphanumerics and `_`. Past the last line or
/// past the end of the line it is empty.
pub proof fn law_hover_word_is_maximal_run(text: Seq<char>, line: nat, character: nat)
    ensures
        ({
            let ls = lines_of(text);
            let w = word_at_spec(text, line, character);
            if line < ls.len() && character < ls[line as int].len() {
                let row = ls[line as int];
                exists|s: int, e: int|
                    #![trigger row.subrange(s, e)]
                    {
                        &&& 0 <= s <= character <= e <= row.len()
                        &&& w == row.subrange(s, e)
                        &&& forall|k: int|
                            s <= k < e ==> (char_is_alphanumeric(#[trigger] row[k]) || row[k] == '_')
                        &&& (s == 0 || !(char_is_alphanumeric(row[s - 1]) || row[s - 1] == '_'))
                        &&& (e == row.len() || !(char_is_alphanumeric(row[e]) || row[e] == '_'))
                    }
            } else {
                w == Seq::<char>::empty()
            }
        }),
{
    let ls = lines_of(text);
    if line < ls.len() && character < ls[line as int].len() {
        let row = ls[line as int];
        let c = character as int;
        lemma_run_left_is_maximal(row, c);
        lemma_run_right_is_maximal(row, c);
        let s = c - run_left(row, c);
        let e = c + run_right(row, c);
        assert(word_at_spec(text, line, character) == row.subrange(s, e));
        assert(forall|k: int|
            s <= k < e ==> (char_is_alphanumeric(#[trigger] row[k]) || row[k] == '_')) by {
            assert forall|k: int| s <= k < e implies (char_is_alphanumeric(#[trigger] row[k])
                || row[k] == '_') by {
                if k < c {
                    assert(is_word_char(row[k]));
                } else {
                    assert(is_word_char(row[k]));
                }
            }
        }
    }
}

/// The word at `line`, `character` of `text` (see `word_at_spec`).
pub fn word_at(text: &str, line: u32, character: u32) -> (r: String)
    ensures
        r@ == word_at_spec(text@, line as nat, character as nat),
{
    let t = chars_of(text);
    let rows = crate::tools::split_lines(t.as_slice());
    let ghost ls = lines_of(text@);
    assert(rows@.map_values(|l: Vec<char>| l@) == ls);
    if line as usize >= rows.len() {
        return String::new();
    }
    let row = &rows[line as usize];
    assert(row@ == ls[line as int]);
    let c = character as usize;
    if c >= row.len() {
        return String::new();
    }
    let mut start = c;
    while start > 0 && (is_alphanumeric(row[start - 1]) || row[start - 1] == '_')
        invariant
            start <= c < row@.len(),
            run_left(row@, c as int) == (c - start) + run_left(row@, start as int),
        decreases start,
    {
        start = start - 1;
    }
    let mut end = c;
    while end < row.len() && (is_alphanumeric(row[end]) || row[end] == '_')
        invariant
            c <= end <= row@.len(),
            run_right(row@, c as int) == (end - c) + run_right(row@, end as int),
        decreases row@.len() - end,
    {
        end = end + 1;
    }
    let w = slice_vec(row.as_slice(), start, end);
    string_of(w.as_slice())
}

/// The capabilities an initialized client reports:
/// `{"textDocumentSync": 1, "hoverProvider": true, "definitionProvider": true}`.
pub open spec fn is_server_capabilities(r: JsonValue) -> bool {
    &&& r is Object
    &&& entries_of(r).len() == 3
    &&& entries_of(r)[0].0@ == "textDocumentSync"@
    &&& (entries_of(r)[0].1 matches JsonValue::Number(n) && n@ == "1"@)
    &&& entries_of(r)[1].0@ == "hoverProvider"@ && entries_of(r)[1].1 == JsonValue::Bool(true)
    &&& entries_of(r)[2].0@ == "definitionProvider"@ && entries_of(r)[2].1 == JsonValue::Bool(true)
}

/// The capabilities an initialized client reports.
pub fn server_capabilities() -> (r: JsonValue)
    ensures
        is_server_capabilities(r),
{
    JsonValue::Object(
        vec![
            (owned("textDocumentSync"), JsonValue::Number(owned("1"))),
            (owned("hoverProvider"), JsonValue::Bool(true)),
            (owned("definitionProvider"), JsonValue::Bool(true)),
        ],
    )
}

/// The text of the open document `uri`.
pub open spec fn document_text(docs: Seq<(String, String)>, uri: Seq<char>) -> Option<Seq<char>>
    decreases docs.len(),
{
    if docs.len() == 0 {
        None
    } else if docs.last().0@ == uri {
        Some(docs.last().1@)
    } else {
        document_text(docs.drop_last(), uri)
    }
}

/// The text hover looks at: the open document, else a placeholder naming the uri.
pub open spec fn hover_text(docs: Seq<(String, String)>, uri: Seq<char>) -> Seq<char> {
    match document_text(docs, uri) {
        Some(t) => t,
        None => "(no document open for "@ + uri + ")"@,
    }
}

/// The position `{"line": line, "character": character}`.
pub open spec fn is_position(v: JsonValue, line: nat, character: nat) -> bool {
    &&& v is Object
    &&& entries_of(v).len() == 2
    &&& entries_of(v)[0].0@ == "line"@
    &&& (entries_of(v)[0].1 matches JsonValue::Number(n) && n@ == decimal(line))
    &&& entries_of(v)[1].0@ == "character"@
    &&& (entries_of(v)[1].1 matches JsonValue::Number(n) && n@ == decimal(character))
}

/// The range `{"start": start, "end": end}` of a hover on one line.
pub open spec fn is_hover_range(v: JsonValue, line: nat, start: nat, end: nat) -> bool {
    &&& v is Object
    &&& entries_of(v).len() == 2
    &&& entries_of(v)[0].0@ == "start"@ && is_position(entries_of(v)[0].1, line, start)
    &&& entries_of(v)[1].0@ == "end"@ && is_position(entries_of(v)[1].1, line, end)
}

/// A `{"line": .., "character": ..}` position.
fn position_json(line: u32, character: u64) -> (r: JsonValue)
    ensures
        is_position(r, line as nat, character as nat),
{
    JsonValue::Object(
        vec![
            (owned("line"), JsonValue::Number(u64_to_decimal(line as u64))),
            (owned("character"), JsonValue::Number(u64_to_decimal(character))),
        ],
    )
}

/// The `initialize` request the probe sends:
/// `{"jsonrpc": "2.0", "id": 1, "method": "initialize", "params": {"processId": null,
/// "rootUri": "file:///tmp/jereko", "capabilities": {}}}`.
pub open spec fn is_initialize_request(r: JsonValue) -> bool {
    &&& r is Object
    &&& entries_of(r).len() == 4
    &&& str_entry(entries_of(r)[0], "jsonrpc"@, "2.0"@)
    &&& entries_of(r)[1].0@ == "id"@ && (entries_of(r)[1].1 matches JsonValue::Number(n) && n@ == "1"@)
    &&& str_entry(entries_of(r)[2], "method"@, "initialize"@)
    &&& entries_of(r)[3].0@ == "params"@
    &&& ({
        let p = entries_of(r)[3].1;
        &&& p is Object
        &&& entries_of(p).len() == 3
        &&& entries_of(p)[0].0@ == "processId"@ && entries_of(p)[0].1 is Null
        &&& str_entry(entries_of(p)[1], "rootUri"@, "file:///tmp/jereko"@)
        &&& entries_of(p)[2].0@ == "capabilities"@ && is_empty_object(entries_of(p)[2].1)
    })
}

/// The `initialize` request the LSP probe sends.
pub fn initialize_request() -> (r: JsonValue)
    ensures
        is_initialize_request(r),
{
    let params = JsonValue::Object(
        vec![
            (owned("processId"), JsonValue::Null),
            (owned("rootUri"), JsonValue::Str(owned("file:///tmp/jereko"))),
            (owned("capabilities"), JsonValue::Object(Vec::new())),
        ],
    );
    JsonValue::Object(
        vec![
            (owned("jsonrpc"), JsonValue::Str(owned("2.0"))),
            (owned("id"), JsonValue::Number(owned("1"))),
            (owned("method"), JsonValue::Str(owned("initialize"))),
            (owned("params"), params),
        ],
    )
}

/// Frames a JSON-RPC body for the stdio transport:
/// `Content-Length: <bytes of body>\r\n\r\n<body>`.
pub fn lsp_frame(body: &str) -> (r: String)
    ensures
        r@ == "Content-Length: "@ + decimal(body.len() as nat) + "\r\n\r\n"@ + body@,
{
    let n = usize_to_decimal(body.len());
    let head = concat2("Content-Length: ", n.as_str());
    let head = concat2(head.as_str(), "\r\n\r\n");
    concat2(head.as_str(), body)
}

/// What the probe makes of a server's reply text.
pub enum ProbeReply {
    /// The text from its first `{` on, to be read as JSON.
    JsonText(String),
    /// No `{` in the reply: `{"raw": text}`.
    Raw(JsonValue),
}

/// Reads a probe reply: from its first `{` on it is JSON text; without any `{`
/// it becomes `{"raw": text}`.
pub fn classify_probe_reply(text: &str) -> (r: ProbeReply)
    ensures
        (exists|i: int| 0 <= i < text@.len() && text@[i] == '{') ==> (r matches ProbeReply::JsonText(t)
            && exists|i: int|
            0 <= i < text@.len() && text@[i] == '{' && (forall|j: int| 0 <= j < i ==> text@[j] != '{')
                && t@ == text@.skip(i)),
        !(exists|i: int| 0 <= i < text@.len() && text@[i] == '{') ==> (r matches ProbeReply::Raw(v) && v
            is Object && entries_of(v).len() == 1 && str_entry(entries_of(v)[0], "raw"@, text@)),
{
    let v = chars_of(text);
    let mut i: usize = 0;
    while i < v.len()
        invariant
            i <= v@.len(),
            v@ == text@,
            forall|j: int| 0 <= j < i ==> v@[j] != '{',
        decreases v@.len() - i,
    {
        if v[i] == '{' {
            let rest = slice_vec(v.as_slice(), i, v.len());
            assert(rest@ =~= text@.skip(i as int));
            return ProbeReply::JsonText(string_of(rest.as_slice()));
        }
        i = i + 1;
    }
    ProbeReply::Raw(JsonValue::Object(vec![(owned("raw"), JsonValue::Str(owned(text)))]))
}

impl LspClient {
    /// A client that is not initialized and has no open documents.
    pub fn new() -> (r: Self)
        ensures
            !r.initialized,
            r.documents@.len() == 0,
    {
        LspClient { initialized: false, documents: Vec::new() }
    }

    /// Initializes the client; answers `ready` with the server capabilities.
    pub fn initialize(&mut self, root_uri: &str) -> (r: LspStatus)
        ensures
            final(self).initialized,
            final(self).documents@ == old(self).documents@,
            r.status@ == "ready"@,
            r.initialized,
            is_server_capabilities(r.server_capabilities),
    {
        self.initialized = true;
        LspStatus { status: owned("ready"), initialized: true, server_capabilities: server_capabilities() }
    }

    /// Opens (or replaces) the document `uri` with `text`.
    pub fn open_document(&mut self, uri: &str, text: &str)
        ensures
            final(self).initialized == old(self).initialized,
            document_text(final(self).documents@, uri@) == Some(text@),
            forall|u: Seq<char>| u != uri@ ==> document_text(final(self).documents@, u) == document_text(
                old(self).documents@,
                u,
            ),
    {
        let ghost before = self.documents@;
        self.documents.push((owned(uri), owned(text)));
        assert(self.documents@.drop_last() =~= before);
    }

    fn find_document(&self, uri: &str) -> (r: Option<&String>)
        ensures
            r matches Some(t) ==> document_text(self.documents@, uri@) == Some(t@),
            r is None ==> document_text(self.documents@, uri@) is None,
    {
        let mut i: usize = self.documents.len();
        assert(self.documents@.take(i as int) =~= self.documents@);
        while i > 0
            invariant
                i <= self.documents@.len(),
                document_text(self.documents@, uri@) == document_text(self.documents@.take(i as int), uri@),
            decreases i,
        {
            assert(self.documents@.take(i as int).drop_last() =~= self.documents@.take((i - 1) as int));
            if str_eq(self.documents[i - 1].0.as_str(), uri) {
                return Some(&self.documents[i - 1].1);
            }
            i = i - 1;
        }
        None
    }

    /// The text a hover on `uri` looks at (see `hover_text`).
    fn text_for(&self, uri: &str) -> (r: String)
        ensures
            r@ == hover_text(self.documents@, uri@),
    {
        match self.find_document(uri) {
            Some(t) => t.clone(),
            None => {
                let mut t = owned("(no document open for ");
                t.append(uri);
                t.append(")");
                t
            },
        }
    }

    /// Hover at a position, when the end of the hovered word fits in a `u32`
    /// column: `None` when `character` plus the word's length exceeds
    /// `u32::MAX`, otherwise exactly what `hover` answers.
    pub fn hover_checked(&self, uri: &str, line: u32, character: u32) -> (r: Option<
        Result<LspHoverResult, String>,
    >)
        ensures
            ({
                let w = word_at_spec(hover_text(self.documents@, uri@), line as nat, character as nat);
                &&& character + w.len() > u32::MAX ==> r is None
                &&& character + w.len() <= u32::MAX ==> (r matches Some(x) && {
                    &&& !self.initialized ==> (x matches Err(e) && e@ == "LSP not initialized"@)
                    &&& self.initialized ==> (x matches Ok(h) && h.contents@ == "**"@ + w
                        + "** — jereko LSP hover"@ && (h.range matches Some(range) && is_hover_range(
                        range,
                        line as nat,
                        character as nat,
                        character as nat + w.len(),
                    )))
                })
            }),
    {
        let text = self.text_for(uri);
        let word = word_at(text.as_str(), line, character);
        let count = word.as_str().unicode_len();
        if count as u64 > (u32::MAX - character) as u64 {
            return None;
        }
        Some(self.hover(uri, line, character))
    }

    /// Hover at a position: fails with `LSP not initialized` before
    /// `initialize`; otherwise `**<word>** — jereko LSP hover` with the range
    /// from the position to the end of the word.
    pub fn hover(&self, uri: &str, line: u32, character: u32) -> (r: Result<LspHoverResult, String>)
        requires
            character + word_at_spec(hover_text(self.documents@, uri@), line as nat, character as nat).len()
                <= u32::MAX,
        ensures
            !self.initialized ==> (r matches Err(e) && e@ == "LSP not initialized"@),
            self.initialized ==> (r matches Ok(h) && h.contents@ == "**"@ + word_at_spec(
                hover_text(self.documents@, uri@),
                line as nat,
                character as nat,
            ) + "** — jereko LSP hover"@ && (h.range matches Some(range) && is_hover_range(
                range,
                line as nat,
                character as nat,
                character as nat + word_at_spec(hover_text(self.documents@, uri@), line as nat, character as nat).len(),
            ))),
    {
        if !self.initialized {
            return Err(owned("LSP not initialized"));
        }
        let text = self.text_for(uri);
        let word = word_at(text.as_str(), line, character);
        let mut contents = owned("**");
        contents.append(word.as_str());
        contents.append("** — jereko LSP hover");
        let count = word.as_str().unicode_len();
        let end = character as u64 + count as u64;
        let range = JsonValue::Object(
            vec![
                (owned("start"), position_json(line, character as u64)),
                (owned("end"), position_json(line, end)),
            ],
        );
        Ok(LspHoverResult { contents, range: Some(range) })
    }

    /// Status: `ready` with capabilities once initialized, else `idle` with `{}`.
    pub fn status(&self) -> (r: LspStatus)
        ensures
            r.initialized == self.initialized,
            self.initialized ==> r.status@ == "ready"@ && is_server_capabilities(r.server_capabilities),
            !self.initialized ==> r.status@ == "idle"@ && entries_of(r.server_capabilities).len() == 0
                && r.server_capabilities is Object,
    {
        if self.initialized {
            LspStatus { status: owned("ready"), initialized: true, server_capabilities: server_capabilities() }
        } else {
            LspStatus { status: owned("idle"), initialized: false, server_capabilities: JsonValue::empty_object() }
        }
    }
}

} // verus!
