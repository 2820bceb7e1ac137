//! Sandbox / tool policy applied before tool execution.

use vstd::prelude::*;
use core::time::Duration;
use crate::text::{owned, chars_of, replace_char, replace_char_vec, trim_end_char, trim_end_char_vec,
    seq_starts_with, starts_with};

verus! {

/// Tool policy: whether bash may run, path prefixes that are denied, and the
/// bash wall-clock limit.
pub struct ToolPolicy {
    pub allow_bash: bool,
    /// Relative path prefixes that are denied even inside the project root.
    pub deny_path_prefixes: Vec<String>,
    /// Max bash wall-clock time, in seconds.
    pub bash_timeout_secs: u64,
}

impl Default for ToolPolicy {
    fn default() -> (r: Self)
        ensures
            r.allow_bash,
            r.deny_path_prefixes@.len() == 1,
            r.deny_path_prefixes@[0]@ == ".git/"@,
            r.bash_timeout_secs == 30,
    {
        let mut deny: Vec<String> = Vec::new();
        deny.push(owned(".git/"));
        ToolPolicy { allow_bash: true, deny_path_prefixes: deny, bash_timeout_secs: 30 }
    }
}

/// The `Duration` of `secs` whole seconds.
pub uninterp spec fn duration_of_secs(secs: u64) -> Duration;

/// `Duration::from_secs`: the duration of a whole number of seconds.
#[verifier::external_body]
fn duration_from_secs(secs: u64) -> (d: Duration)
    ensures
        d == duration_of_secs(secs),
{
    Duration::from_secs(secs)
}

/// A path in `/`-separated form.
pub open spec fn slashes(s: Seq<char>) -> Seq<char> {
    replace_char(s, '\\', '/')
}

/// `prefix` denies `rel`: in `/`-separated form, `rel` is the prefix without
/// its trailing slashes, or starts with the prefix.
pub open spec fn denied_by(prefix: Seq<char>, rel: Seq<char>) -> bool {
    let n = slashes(rel);
    let p = slashes(prefix);
    n == trim_end_char(p, '/') || seq_starts_with(n, p)
}

/// Some denied prefix covers `rel`.
pub open spec fn path_denied_spec(prefixes: Seq<String>, rel: Seq<char>) -> bool {
    exists|i: int| 0 <= i < prefixes.len() && denied_by(prefixes[i]@, rel)
}

fn vec_eq(a: &Vec<char>, b: &Vec<char>) -> (r: bool)
    ensures
        r == (a@ == b@),
{
    if a.len() != b.len() {
        return false;
    }
    let mut i: usize = 0;
    while i < a.len()
        invariant
            a@.len() == b@.len(),
            i <= a@.len(),
            forall|j: int| 0 <= j < i ==> a@[j] == b@[j],
        decreases a@.len() - i,
    {
        if a[i] != b[i] {
            return false;
        }
        i = i + 1;
    }
    assert(a@ =~= b@);
    true
}

impl ToolPolicy {
    /// Bash wall-clock limit: the configured seconds, at least one.
    pub fn bash_timeout(&self) -> (d: Duration)
        ensures
            d == duration_of_secs(if self.bash_timeout_secs >= 1 { self.bash_timeout_secs } else { 1 }),
    {
        let secs = if self.bash_timeout_secs >= 1 { self.bash_timeout_secs } else { 1 };
        duration_from_secs(secs)
    }

    /// Whether a relative path is denied (see `denied_by`).
    pub fn path_denied(&self, rel: &str) -> (r: bool)
        ensures
            r == path_denied_spec(self.deny_path_prefixes@, rel@),
    {
        let rv = chars_of(rel);
        let normalized = replace_char_vec(rv.as_slice(), '\\', '/');
        let mut i: usize = 0;
        while i < self.deny_path_prefixes.len()
            invariant
                i <= self.deny_path_prefixes@.len(),
                normalized@ == slashes(rel@),
                forall|j: int| 0 <= j < i ==> !denied_by(self.deny_path_prefixes@[j]@, rel@),
            decreases self.deny_path_prefixes@.len() - i,
        {
            let pv = chars_of(self.deny_path_prefixes[i].as_str());
            let pref = replace_char_vec(pv.as_slice(), '\\', '/');
            let trimmed = trim_end_char_vec(pref.as_slice(), '/');
            if vec_eq(&normalized, &trimmed) || starts_with(normalized.as_slice(), pref.as_slice()) {
                return true;
            }
            i = i + 1;
        }
        false
    }
}

/// Denial does not depend on the separator style: a path with `\` separators
/// is denied exactly when its `/`-separated form is.
pub proof fn law_denial_ignores_separator_style(prefixes: Seq<String>, rel: Seq<char>)
    ensures
        path_denied_spec(prefixes, rel) == path_denied_spec(prefixes, slashes(rel)),
{
    assert(slashes(slashes(rel)) =~= slashes(rel));
}

} // verus!
