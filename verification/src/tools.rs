//! Core agent tools (read, write, edit, bash, grep): argument handling, path
//! containment, edit and grep logic. Filesystem and process access happen
//! outside this module and hand their outcomes back as plain values.

use vstd::prelude::*;
use crate::json::{JsonValue, json_str_field};
use crate::text::{
    owned, concat2, chars_of, string_of, contains, seq_contains, find, occurs_at, slice_vec,
    extend_chars, decimal, usize_to_decimal, seq_starts_with, starts_with, str_eq,
};
use crate::loader::join_path;

verus! {

/// The tools an agent can call.
#[derive(Debug, Clone, Copy, PartialEq, Eq, Structural)]
pub enum ToolName {
    Read,
    Write,
    Edit,
    Bash,
    Grep,
}

/// A tool call: the tool and its JSON arguments.
pub struct ToolCall {
    pub name: ToolName,
    pub args: JsonValue,
}

/// Outcome of a tool call.
pub struct ToolResult {
    pub ok: bool,
    pub output: String,
}

/// What a tool call asks for once its arguments are read.
pub enum ToolPlan {
    /// The call is already answered (missing argument, policy refusal).
    Done(ToolResult),
    Read { path: String },
    Write { path: String, content: String },
    Edit { path: String, old_string: String, new_string: String },
    Bash { command: String },
    Grep { pattern: String, path: String },
}

/// Tool executor rooted at a project directory.
pub struct ToolExecutor {
    pub root: String,
    pub allow_bash: bool,
}

/// A failed result with `message`.
pub open spec fn failure_with(r: ToolResult, message: Seq<char>) -> bool {
    !r.ok && r.output@ == message
}

/// The string argument `key`, or `default` when absent.
pub open spec fn arg_or(args: JsonValue, key: Seq<char>, default: Seq<char>) -> Seq<char> {
    match json_str_field(args, key) {
        Some(s) => s,
        None => default,
    }
}

fn arg_or_str(args: &JsonValue, key: &str, default: &str) -> (r: String)
    ensures
        r@ == arg_or(*args, key@, default@),
{
    match args.get_str(key) {
        Some(s) => s.clone(),
        None => owned(default),
    }
}

fn failed(message: &str) -> (r: ToolResult)
    ensures
        failure_with(r, message@),
{
    ToolResult { ok: false, output: owned(message) }
}

/// What `plan` answers for a call.
pub open spec fn plan_spec(allow_bash: bool, call: ToolCall, p: ToolPlan) -> bool {
    let path = json_str_field(call.args, "path"@);
    match call.name {
        ToolName::Read => match path {
            None => p matches ToolPlan::Done(r) && failure_with(r, "missing path"@),
            Some(x) => p matches ToolPlan::Read { path } && path@ == x,
        },
        ToolName::Write => match path {
            None => p matches ToolPlan::Done(r) && failure_with(r, "missing path"@),
            Some(x) => p matches ToolPlan::Write { path, content } && path@ == x && content@ == arg_or(
                call.args,
                "content"@,
                ""@,
            ),
        },
        ToolName::Edit => match path {
            None => p matches ToolPlan::Done(r) && failure_with(r, "missing path"@),
            Some(x) => p matches ToolPlan::Edit { path, old_string, new_string } && path@ == x
                && old_string@ == arg_or(call.args, "old_string"@, ""@) && new_string@ == arg_or(
                call.args,
                "new_string"@,
                ""@,
            ),
        },
        ToolName::Bash => if !allow_bash {
            p matches ToolPlan::Done(r) && failure_with(r, "bash disabled by policy"@)
        } else {
            match json_str_field(call.args, "command"@) {
                None => p matches ToolPlan::Done(r) && failure_with(r, "missing command"@),
                Some(c) => p matches ToolPlan::Bash { command } && command@ == c,
            }
        },
        ToolName::Grep => match json_str_field(call.args, "pattern"@) {
            None => p matches ToolPlan::Done(r) && failure_with(r, "missing pattern"@),
            Some(pat) => p matches ToolPlan::Grep { pattern, path } && pattern@ == pat && path@ == arg_or(
                call.args,
                "path"@,
                "."@,
            ),
        },
    }
}

/// Where `root.join(rel)` leads, as the filesystem reports it.
pub enum CanonicalTarget {
    /// The candidate exists; its canonical path.
    Exists(String),
    /// The candidate does not exist but its parent does: the parent's canonical
    /// path and the candidate's file name.
    ParentExists { parent: String, file_name: String },
    /// Neither the candidate nor its parent exists.
    ParentMissing,
    /// The candidate has no parent.
    NoParent,
    /// Canonicalization failed with this message.
    Failed(String),
}

/// `path` lies inside `root`, component by component (as `Path::starts_with`).
pub open spec fn path_within(path: Seq<char>, root: Seq<char>) -> bool {
    seq_starts_with(path, root) && (path.len() == root.len() || (root.len() > 0 && root.last() == '/')
        || path[root.len() as int] == '/')
}

/// Whether `path` lies inside `root`, component by component.
pub fn is_within(path: &str, root: &str) -> (r: bool)
    ensures
        r == path_within(path@, root@),
{
    let p = chars_of(path);
    let q = chars_of(root);
    if !starts_with(p.as_slice(), q.as_slice()) {
        return false;
    }
    p.len() == q.len() || (q.len() > 0 && q[q.len() - 1] == '/') || p[q.len()] == '/'
}

/// An edit call carries its strings through unchanged: with a `path`, the plan
/// edits that path, replacing the call's `old_string` (empty when absent) by
/// its `new_string` (empty when absent); without one it answers `missing path`.
pub proof fn law_edit_plan_carries_strings(allow_bash: bool, call: ToolCall, p: ToolPlan)
    requires
        plan_spec(allow_bash, call, p),
        call.name is Edit,
    ensures
        json_str_field(call.args, "path"@) is None ==> (p matches ToolPlan::Done(r) && !r.ok
            && r.output@ == "missing path"@),
        json_str_field(call.args, "path"@) matches Some(x) ==> (p matches ToolPlan::Edit {
            path,
            old_string,
            new_string,
        } && path@ == x && old_string@ == (match json_str_field(call.args, "old_string"@) {
            Some(o) => o,
            None => Seq::<char>::empty(),
        }) && new_string@ == (match json_str_field(call.args, "new_string"@) {
            Some(n) => n,
            None => Seq::<char>::empty(),
        })),
{
    reveal_strlit("");
}

impl ToolExecutor {
    /// An executor rooted at `root`, bash allowed.
    pub fn new(root: String) -> (r: Self)
        ensures
            r.root == root,
            r.allow_bash,
    {
        ToolExecutor { root, allow_bash: true }
    }

    /// The same executor with bash allowed or not.
    pub fn with_bash(self, allow: bool) -> (r: Self)
        ensures
            r.root == self.root,
            r.allow_bash == allow,
    {
        ToolExecutor { allow_bash: allow, ..self }
    }

    /// Reads a call's arguments: which filesystem or process action it needs, or
    /// its answer when an argument is missing or bash is disabled.
    pub fn plan(&self, call: &ToolCall) -> (r: ToolPlan)
        ensures
            plan_spec(self.allow_bash, *call, r),
    {
        match call.name {
            ToolName::Read => match call.args.get_str("path") {
                None => ToolPlan::Done(failed("missing path")),
                Some(p) => ToolPlan::Read { path: p.clone() },
            },
            ToolName::Write => match call.args.get_str("path") {
                None => ToolPlan::Done(failed("missing path")),
                Some(p) => ToolPlan::Write {
                    path: p.clone(),
                    content: arg_or_str(&call.args, "content", ""),
                },
            },
            ToolName::Edit => match call.args.get_str("path") {
                None => ToolPlan::Done(failed("missing path")),
                Some(p) => ToolPlan::Edit {
                    path: p.clone(),
                    old_string: arg_or_str(&call.args, "old_string", ""),
                    new_string: arg_or_str(&call.args, "new_string", ""),
                },
            },
            ToolName::Bash => {
                if !self.allow_bash {
                    ToolPlan::Done(failed("bash disabled by policy"))
                } else {
                    match call.args.get_str("command") {
                        None => ToolPlan::Done(failed("missing command")),
                        Some(c) => ToolPlan::Bash { command: c.clone() },
                    }
                }
            },
            ToolName::Grep => match call.args.get_str("pattern") {
                None => ToolPlan::Done(failed("missing pattern")),
                Some(p) => ToolPlan::Grep { pattern: p.clone(), path: arg_or_str(&call.args, "path", ".") },
            },
        }
    }

    /// Resolves `rel` against the root: the canonical target path, which must lie
    /// inside the canonical root; otherwise `path escapes project root: <rel>`
    /// (also when the parent directory is missing), or `invalid path: <rel>`.
    pub fn resolve(&self, rel: &str, canonical_root: &str, target: CanonicalTarget) -> (r: Result<
        String,
        String,
    >)
        ensures
            match target {
                CanonicalTarget::Exists(c) => if path_within(c@, canonical_root@) {
                    r == Ok::<String, String>(c)
                } else {
                    r matches Err(e) && e@ == "path escapes project root: "@ + rel@
                },
                CanonicalTarget::ParentExists { parent, file_name } => {
                    let c = join_path(parent@, file_name@);
                    if path_within(c, canonical_root@) {
                        r matches Ok(p) && p@ == c
                    } else {
                        r matches Err(e) && e@ == "path escapes project root: "@ + rel@
                    }
                },
                CanonicalTarget::ParentMissing => r matches Err(e) && e@ == "path escapes project root: "@
                    + rel@,
                CanonicalTarget::NoParent => r matches Err(e) && e@ == "invalid path: "@ + rel@,
                CanonicalTarget::Failed(m) => r == Err::<String, String>(m),
            },
    {
        let canonical = match target {
            CanonicalTarget::Exists(c) => c,
            CanonicalTarget::ParentExists { parent, file_name } => crate::loader::join_path_str(
                parent.as_str(),
                file_name.as_str(),
            ),
            CanonicalTarget::ParentMissing => {
                return Err(concat2("path escapes project root: ", rel));
            },
            CanonicalTarget::NoParent => {
                return Err(concat2("invalid path: ", rel));
            },
            CanonicalTarget::Failed(m) => {
                return Err(m);
            },
        };
        if !is_within(canonical.as_str(), canonical_root) {
            return Err(concat2("path escapes project root: ", rel));
        }
        Ok(canonical)
    }
}

/// Result of a read: the file's text, or the error message.
pub fn read_outcome(outcome: Result<String, String>) -> (r: ToolResult)
    ensures
        outcome matches Ok(t) ==> r.ok && r.output == t,
        outcome matches Err(e) ==> !r.ok && r.output == e,
{
    match outcome {
        Ok(t) => ToolResult { ok: true, output: t },
        Err(e) => ToolResult { ok: false, output: e },
    }
}

/// Result of a write: `wrote <path>`, or the error message.
pub fn write_outcome(path: &str, outcome: Result<(), String>) -> (r: ToolResult)
    ensures
        outcome is Ok ==> r.ok && r.output@ == "wrote "@ + path@,
        outcome matches Err(e) ==> !r.ok && r.output == e,
{
    match outcome {
        Ok(()) => ToolResult { ok: true, output: concat2("wrote ", path) },
        Err(e) => ToolResult { ok: false, output: e },
    }
}

/// Result of an edit: `edited <path>`, or the error message.
pub fn edit_outcome(path: &str, outcome: Result<(), String>) -> (r: ToolResult)
    ensures
        outcome is Ok ==> r.ok && r.output@ == "edited "@ + path@,
        outcome matches Err(e) ==> !r.ok && r.output == e,
{
    match outcome {
        Ok(()) => ToolResult { ok: true, output: concat2("edited ", path) },
        Err(e) => ToolResult { ok: false, output: e },
    }
}

/// Index of the first occurrence of `p` in `s`.
pub open spec fn first_occurrence(s: Seq<char>, p: Seq<char>) -> int {
    choose|i: int| occurs_at(s, p, i) && forall|j: int| 0 <= j < i ==> !occurs_at(s, p, j)
}

/// `content` with its first occurrence of `old` replaced by `new`.
pub open spec fn replace_first(content: Seq<char>, old: Seq<char>, new: Seq<char>) -> Seq<char> {
    let i = first_occurrence(content, old);
    content.take(i) + new + content.skip(i + old.len())
}

/// Replaces the first occurrence of `old_string` in `content` by `new_string`;
/// `old_string not found` when it does not occur.
pub fn edit_content(content: &str, old_string: &str, new_string: &str) -> (r: Result<String, String>)
    ensures
        !seq_contains(content@, old_string@) ==> (r matches Err(e) && e@ == "old_string not found"@),
        seq_contains(content@, old_string@) ==> (r matches Ok(t) && t@ == replace_first(
            content@,
            old_string@,
            new_string@,
        )),
{
    let c = chars_of(content);
    let o = chars_of(old_string);
    match find(c.as_slice(), o.as_slice()) {
        None => Err(owned("old_string not found")),
        Some(i) => {
            let ghost first = first_occurrence(c@, o@);
            proof {
                assert(occurs_at(c@, o@, i as int) && forall|j: int|
                    0 <= j < i ==> !occurs_at(c@, o@, j));
                let f = first;
                assert(occurs_at(c@, o@, f) && forall|j: int| 0 <= j < f ==> !occurs_at(c@, o@, j));
                if f < i {
                    assert(!occurs_at(c@, o@, f));
                } else if f > i {
                    assert(!occurs_at(c@, o@, i as int));
                }
                assert(f == i);
            }
            let mut out = slice_vec(c.as_slice(), 0, i);
            let n = chars_of(new_string);
            extend_chars(&mut out, n.as_slice());
            assert(i + o@.len() <= c@.len());
            assert(c@.len() == c.len() && o@.len() == o.len());
            let tail = slice_vec(c.as_slice(), i + o.len(), c.len());
            extend_chars(&mut out, tail.as_slice());
            assert(c@.take(i as int) =~= c@.subrange(0, i as int));
            assert(c@.skip(i + o@.len()) =~= c@.subrange(i + o@.len(), c@.len() as int));
            Ok(string_of(out.as_slice()))
        },
    }
}

/// Output of a shell command: stdout, then stderr (on a new line when both are
/// non-empty); success is the command's exit status.
pub fn bash_outcome(stdout: String, stderr: String, success: bool) -> (r: ToolResult)
    ensures
        r.ok == success,
        r.output@ == (if stderr@.len() == 0 {
            stdout@
        } else if stdout@.len() == 0 {
            stderr@
        } else {
            stdout@ + seq!['\n'] + stderr@
        }),
{
    let mut text = stdout;
    if stderr.as_str().unicode_len() != 0 {
        if text.as_str().unicode_len() != 0 {
            text.append("\n");
            proof {
                reveal_strlit("\n");
            }
        }
        text.append(stderr.as_str());
    }
    ToolResult { ok: success, output: text }
}

// ---------------------------------------------------------------------------
// grep
// ---------------------------------------------------------------------------

/// Index of the first newline.
pub open spec fn first_newline(s: Seq<char>) -> Option<nat>
    decreases s.len(),
{
    if s.len() == 0 {
        None
    } else if s[0] == '\n' {
        Some(0)
    } else {
        match first_newline(s.drop_first()) {
            Some(k) => Some(k + 1),
            None => None,
        }
    }
}

/// A newline index lies inside the text.
pub proof fn lemma_first_newline_bound(s: Seq<char>)
    ensures
        first_newline(s) matches Some(k) ==> k < s.len(),
    decreases s.len(),
{
    if s.len() > 0 {
        lemma_first_newline_bound(s.drop_first());
    }
}

/// A line without the `\r` of a `\r\n` ending.
pub open spec fn strip_cr(line: Seq<char>) -> Seq<char> {
    if line.len() > 0 && line.last() == '\r' {
        line.drop_last()
    } else {
        line
    }
}

/// The lines of a text as `str::lines` yields them: split at `\n` (a `\r`
/// before it is dropped); a final line ending adds no empty line.
pub open spec fn lines_of(s: Seq<char>) -> Seq<Seq<char>>
    decreases s.len(),
{
    if s.len() == 0 {
        seq![]
    } else {
        match first_newline(s) {
            None => seq![s],
            Some(k) => {
                proof {
                    lemma_first_newline_bound(s);
                }
                seq![strip_cr(s.take(k as int))] + lines_of(s.skip(k + 1int))
            },
        }
    }
}

proof fn lemma_first_newline(s: Seq<char>, k: int)
    requires
        0 <= k <= s.len(),
        forall|j: int| 0 <= j < k ==> s[j] != '\n',
    ensures
        k < s.len() && s[k] == '\n' ==> first_newline(s) == Some(k as nat),
        k == s.len() ==> first_newline(s) is None,
    decreases k,
{
    if k > 0 {
        lemma_first_newline(s.drop_first(), k - 1);
    }
}

/// Splits a text into lines (see `lines_of`).
pub fn split_lines(text: &[char]) -> (r: Vec<Vec<char>>)
    ensures
        r@.map_values(|l: Vec<char>| l@) == lines_of(text@),
{
    let mut out: Vec<Vec<char>> = Vec::new();
    let mut start: usize = 0;
    let mut i: usize = 0;
    assert(text@.skip(0) =~= text@);
    while i < text.len()
        invariant
            start <= i <= text@.len(),
            forall|j: int| start <= j < i ==> text@[j] != '\n',
            lines_of(text@) == out@.map_values(|l: Vec<char>| l@) + lines_of(text@.skip(start as int)),
        decreases text@.len() - i,
    {
        if text[i] == '\n' {
            let ghost rest = text@.skip(start as int);
            proof {
                lemma_first_newline(rest, i - start);
                assert(rest.take(i - start) =~= text@.subrange(start as int, i as int));
                assert(rest.skip(i - start + 1) =~= text@.skip(i + 1));
            }
            let mut end = i;
            if end > start && text[end - 1] == '\r' {
                end = end - 1;
            }
            let line = slice_vec(text, start, end);
            assert(line@ == strip_cr(text@.subrange(start as int, i as int))) by {
                if i > start && text@[i - 1] == '\r' {
                    assert(text@.subrange(start as int, i as int).drop_last() =~= text@.subrange(
                        start as int,
                        end as int,
                    ));
                }
            }
            let ghost prev = out@;
            out.push(line);
            assert(out@.map_values(|l: Vec<char>| l@) =~= prev.map_values(|l: Vec<char>| l@).push(
                line@,
            ));
            start = i + 1;
        }
        i = i + 1;
    }
    let ghost rest = text@.skip(start as int);
    if start < text.len() {
        proof {
            lemma_first_newline(rest, rest.len() as int);
        }
        let line = slice_vec(text, start, text.len());
        assert(line@ =~= rest);
        let ghost prev = out@;
        out.push(line);
        assert(out@.map_values(|l: Vec<char>| l@) =~= prev.map_values(|l: Vec<char>| l@).push(line@));
        assert(lines_of(rest) == seq![rest]);
    } else {
        assert(rest.len() == 0);
    }
    assert(out@.map_values(|l: Vec<char>| l@) =~= lines_of(text@));
    out
}

/// One grep hit: `<rel>:<line number>:<line>`.
pub open spec fn grep_hit(rel: Seq<char>, number: nat, line: Seq<char>) -> Seq<char> {
    rel + seq![':'] + decimal(number) + seq![':'] + line
}

/// The grep hits of a file's lines, numbered from 1, in order.
pub open spec fn grep_hits(rel: Seq<char>, lines: Seq<Seq<char>>, pattern: Seq<char>) -> Seq<Seq<char>>
    decreases lines.len(),
{
    if lines.len() == 0 {
        seq![]
    } else {
        grep_hits(rel, lines.drop_last(), pattern) + if seq_contains(lines.last(), pattern) {
            seq![grep_hit(rel, lines.len(), lines.last())]
        } else {
            seq![]
        }
    }
}

/// Lines of `content` that contain `pattern`, as `<rel>:<line number>:<line>`.
pub fn grep_file(rel: &str, content: &str, pattern: &str) -> (r: Vec<String>)
    ensures
        r@.map_values(|s: String| s@) == grep_hits(rel@, lines_of(content@), pattern@),
{
    let c = chars_of(content);
    let p = chars_of(pattern);
    let lines = split_lines(c.as_slice());
    let ghost ls = lines_of(c@);
    let mut out: Vec<String> = Vec::new();
    let mut i: usize = 0;
    while i < lines.len()
        invariant
            i <= lines@.len(),
            lines@.map_values(|l: Vec<char>| l@) == ls,
            ls == lines_of(content@),
            p@ == pattern@,
            out@.map_values(|s: String| s@) == grep_hits(rel@, ls.take(i as int), pattern@),
        decreases lines@.len() - i,
    {
        assert(ls.take(i + 1).drop_last() =~= ls.take(i as int));
        assert(ls.take(i + 1).last() == lines@[i as int]@);
        if contains(lines[i].as_slice(), p.as_slice()) {
            let mut hit = owned(rel);
            hit.append(":");
            let num = usize_to_decimal(i + 1);
            hit.append(num.as_str());
            hit.append(":");
            let line = string_of(lines[i].as_slice());
            hit.append(line.as_str());
            proof {
                reveal_strlit(":");
            }
            assert(hit@ =~= grep_hit(rel@, (i + 1) as nat, lines@[i as int]@));
            let ghost prev = out@;
            out.push(hit);
            assert(out@.map_values(|s: String| s@) =~= prev.map_values(|s: String| s@).push(hit@));
        } else {
            assert(grep_hits(rel@, ls.take(i + 1), pattern@) =~= grep_hits(rel@, ls.take(i as int), pattern@));
        }
        i = i + 1;
    }
    assert(ls.take(lines@.len() as int) =~= ls);
    out
}

/// Lines joined with `\n` separators.
pub open spec fn join_with_newlines(v: Seq<Seq<char>>) -> Seq<char>
    decreases v.len(),
{
    if v.len() == 0 {
        seq![]
    } else if v.len() == 1 {
        v[0]
    } else {
        join_with_newlines(v.drop_last()) + seq!['\n'] + v.last()
    }
}

/// Joins lines with `\n` separators (as `[String]::join("\n")`).
pub fn join_lines(v: &Vec<String>) -> (r: String)
    ensures
        r@ == join_with_newlines(v@.map_values(|s: String| s@)),
{
    let ghost vs = v@.map_values(|s: String| s@);
    let mut r = String::new();
    let mut i: usize = 0;
    while i < v.len()
        invariant
            i <= v@.len(),
            vs == v@.map_values(|s: String| s@),
            r@ == join_with_newlines(vs.take(i as int)),
        decreases v@.len() - i,
    {
        assert(vs.take(i + 1).drop_last() =~= vs.take(i as int));
        if i > 0 {
            r.append("\n");
            proof {
                reveal_strlit("\n");
            }
        }
        r.append(v[i].as_str());
        i = i + 1;
        assert(r@ =~= join_with_newlines(vs.take(i as int)));
    }
    assert(vs.take(v@.len() as int) =~= vs);
    r
}

/// Directory entries grep does not descend into (`target`).
pub fn grep_skips(name: &str) -> (r: bool)
    ensures
        r == (name@ == "target"@),
{
    str_eq(name, "target")
}

/// Outcome of a grep over the collected hits (`\n`-joined), or the walk's error.
pub fn grep_outcome(outcome: Result<Vec<String>, String>) -> (r: ToolResult)
    ensures
        outcome matches Ok(v) ==> r.ok && r.output@ == join_with_newlines(v@.map_values(|s: String| s@)),
        outcome matches Err(e) ==> !r.ok && r.output == e,
{
    match outcome {
        Ok(v) => ToolResult { ok: true, output: join_lines(&v) },
        Err(e) => ToolResult { ok: false, output: e },
    }
}

} // verus!
