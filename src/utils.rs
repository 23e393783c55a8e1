//! What an external command's run came to, and what it means.
use vstd::prelude::*;

use crate::text::{cat, cat3};

verus! {

/// How a run of an external command ended.
#[derive(Debug, Clone)]
pub enum CommandStatus {
    /// It ran and exited successfully.
    Success,
    /// It ran and exited unsuccessfully; the status, as text.
    Exited(String),
    /// It could not be started; the error, as text.
    SpawnFailed(String),
}

/// The warning for a command that did not succeed; `None` for one that did.
pub open spec fn failure_text(command: Seq<char>, status: CommandStatus) -> Option<Seq<char>> {
    match status {
        CommandStatus::Success => None,
        CommandStatus::Exited(s) => Some(command + " failed with status: "@ + s@),
        CommandStatus::SpawnFailed(e) => Some("Could not run "@ + command + ": "@ + e@),
    }
}

/// Interprets how a post-generation command ended: `Ok` if it succeeded,
/// otherwise the warning to show, which names the command and the cause.
pub fn run_post_generation_command(command: &str, status: &CommandStatus) -> (r: Result<
    (),
    String,
>)
    ensures
        r is Ok <==> status is Success,
        r is Err ==> Some(r->Err_0@) == failure_text(command@, *status),
{
    match status {
        CommandStatus::Success => Ok(()),
        CommandStatus::Exited(s) => Err(cat3(command, " failed with status: ", s.as_str())),
        CommandStatus::SpawnFailed(e) => Err(cat3(&cat("Could not run ", command), ": ", e.as_str())),
    }
}

/// A white-space character in Unicode's sense (the White_Space property),
/// which is what `str::trim` removes.
pub open spec fn is_white(c: char) -> bool {
    let u = c as u32;
    (9 <= u <= 13) || u == 32 || u == 0x85 || u == 0xA0 || u == 0x1680 || (0x2000 <= u <= 0x200A)
        || u == 0x2028 || u == 0x2029 || u == 0x202F || u == 0x205F || u == 0x3000
}

/// The text without its leading white space.
pub open spec fn trim_start_spec(s: Seq<char>) -> Seq<char>
    decreases s.len(),
{
    if s.len() > 0 && is_white(s[0]) {
        trim_start_spec(s.drop_first())
    } else {
        s
    }
}

/// The text without its trailing white space.
pub open spec fn trim_end_spec(s: Seq<char>) -> Seq<char>
    decreases s.len(),
{
    if s.len() > 0 && is_white(s.last()) {
        trim_end_spec(s.drop_last())
    } else {
        s
    }
}

/// The text without leading and trailing white space.
pub open spec fn trimmed_of(s: Seq<char>) -> Seq<char> {
    trim_end_spec(trim_start_spec(s))
}

fn white(c: char) -> (r: bool)
    ensures
        r == is_white(c),
{
    let u = c as u32;
    (9 <= u && u <= 13) || u == 32 || u == 0x85 || u == 0xA0 || u == 0x1680 || (0x2000 <= u && u
        <= 0x200A) || u == 0x2028 || u == 0x2029 || u == 0x202F || u == 0x205F || u == 0x3000
}

proof fn lemma_trim_start(s: Seq<char>, i: int)
    requires
        0 <= i <= s.len(),
        forall|k: int| 0 <= k < i ==> is_white(#[trigger] s[k]),
        i == s.len() || !is_white(s[i]),
    ensures
        trim_start_spec(s) == s.skip(i),
    decreases i,
{
    if i == 0 {
        assert(s.skip(0) =~= s);
    } else {
        let t = s.drop_first();
        assert forall|k: int| 0 <= k < i - 1 implies is_white(#[trigger] t[k]) by {
            assert(t[k] == s[k + 1]);
        }
        lemma_trim_start(t, i - 1);
        assert(t.skip(i - 1) =~= s.skip(i));
    }
}

proof fn lemma_trim_end(s: Seq<char>, j: int)
    requires
        0 <= j <= s.len(),
        forall|k: int| j <= k < s.len() ==> is_white(#[trigger] s[k]),
        j == 0 || !is_white(s[j - 1]),
    ensures
        trim_end_spec(s) == s.take(j),
    decreases s.len() - j,
{
    if j == s.len() {
        assert(s.take(j) =~= s);
    } else {
        let t = s.drop_last();
        lemma_trim_end(t, j);
        assert(t.take(j) =~= s.take(j));
    }
}

/// The text without leading and trailing white space, as `str::trim` gives it.
pub fn trim(s: &str) -> (r: String)
    ensures
        r@ == trimmed_of(s@),
{
    let x = crate::text::chars_of(s);
    let n = x.len();
    let mut i: usize = 0;
    while i < n && white(x[i])
        invariant
            n == x@.len(),
            x@ == s@,
            i <= n,
            forall|k: int| 0 <= k < i ==> is_white(#[trigger] s@[k]),
        decreases n - i,
    {
        i = i + 1;
    }
    let mut j: usize = n;
    while j > i && white(x[j - 1])
        invariant
            n == x@.len(),
            x@ == s@,
            i <= j <= n,
            forall|k: int| j <= k < n ==> is_white(#[trigger] s@[k]),
        decreases j,
    {
        j = j - 1;
    }
    proof {
        lemma_trim_start(s@, i as int);
        let t = s@.skip(i as int);
        assert forall|k: int| j - i <= k < t.len() implies is_white(#[trigger] t[k]) by {
            assert(t[k] == s@[k + i]);
        }
        if j > i {
            assert(t[j - i - 1] == s@[j - 1]);
        }
        lemma_trim_end(t, j - i);
        assert(t.take(j - i) =~= s@.subrange(i as int, j as int));
    }
    String::from_str(s.substring_char(i, j))
}

/// The value a `git config` query printed: `None` if the query failed or
/// printed nothing but white space, else the printed text without surrounding
/// white space.
pub fn git_config_value(succeeded: bool, printed: &str) -> (r: Option<String>)
    ensures
        (r is Some) <==> (succeeded && trimmed_of(printed@).len() > 0),
        r is Some ==> r->0@ == trimmed_of(printed@),
{
    if !succeeded {
        return None;
    }
    let t = trim(printed);
    if t.as_str().unicode_len() > 0 {
        Some(t)
    } else {
        None
    }
}

} // verus!
