//! Process launcher and supervisor: builds the environment overlay and
//! argument vector for the child process, then follows its standard
//! output line by line until the readiness sentinel appears, requests a
//! credential and delivers it.
//!
//! Lines are stripped of terminal color codes and forwarded to the log
//! collaborator until readiness; a child that exits before the sentinel
//! is a failure. The credential arrives on a line carrying a fixed
//! marker, as the last whitespace-separated word of that line.

use vstd::prelude::*;
use vstd::string::StrSliceExecFns;
use vstd::string::StringExecFns;

use crate::errors::SFError;
use crate::platform::Os;
use crate::text::contains_seq;
use crate::text::dec_of;
use crate::text::is_ws;

verus! {

/// The result of stripping ANSI escape sequences from `line`. The
/// stripper is outside code; this name stands for its result, which
/// depends on `line` alone.
pub uninterp spec fn ansi_stripped_of(line: Seq<char>) -> Seq<char>;

/// Every character of `s` is printable ASCII.
pub open spec fn printable_ascii(s: Seq<char>) -> bool {
    forall|i: int| 0 <= i < s.len() ==> 0x20 <= (#[trigger] s[i]) as u32 <= 0x7e
}

/// Relies on `strip_ansi_escapes::strip_str`: removes ANSI escape
/// sequences; printable characters outside escape sequences pass
/// through unchanged, so a line of printable ASCII is returned as it
/// came.
#[verifier::external_body]
fn strip_ansi(line: &str) -> (r: String)
    ensures
        r@ == ansi_stripped_of(line@),
        printable_ascii(line@) ==> r@ == line@,
{
    strip_ansi_escapes::strip_str(line)
}

/// The fixed phrase in the child's output that signals readiness.
pub fn ready_sentinel() -> (r: &'static str)
    ensures
        r@ == "Finished loading!"@,
{
    "Finished loading!"
}

/// The marker on the line that carries the credential.
pub fn token_marker() -> (r: &'static str)
    ensures
        r@ == "JWT"@,
{
    "JWT"
}

/// The command written to the child to request a credential.
pub fn token_command() -> (r: &'static str)
    ensures
        r@ == "generate-token api\n"@,
{
    "generate-token api\n"
}

/// `s` with trailing protocol whitespace removed.
pub open spec fn trim_ws_end(s: Seq<char>) -> Seq<char>
    decreases s.len(),
{
    if s.len() == 0 {
        s
    } else if is_ws(s[s.len() - 1]) {
        trim_ws_end(s.drop_last())
    } else {
        s
    }
}

/// The maximal run of non-whitespace characters at the end of `t`.
pub open spec fn suffix_token(t: Seq<char>) -> Seq<char>
    decreases t.len(),
{
    if t.len() == 0 || is_ws(t[t.len() - 1]) {
        Seq::<char>::empty()
    } else {
        suffix_token(t.drop_last()) + seq![t[t.len() - 1]]
    }
}

/// The last whitespace-separated word of `s`, after trailing whitespace
/// is dropped; empty when `s` holds no word at all.
pub open spec fn last_word(s: Seq<char>) -> Seq<char> {
    suffix_token(trim_ws_end(s))
}

/// Extracts the last whitespace-separated word of `line`; a line
/// without any word has no credential on it.
pub fn parse_token_line(line: &str) -> (r: Result<String, SFError>)
    ensures
        match r {
            Ok(tok) => tok@ == last_word(line@) && tok@.len() > 0,
            Err(e) => e == SFError::JwtLineInvalid && last_word(line@).len() == 0,
        },
{
    let n: usize = line.unicode_len();
    let mut end: usize = n;
    proof {
        assert(line@.take(n as int) =~= line@);
    }
    while end > 0 && crate::text::char_is_ws(line.get_char(end - 1))
        invariant
            0 <= end <= n,
            n == line@.len(),
            trim_ws_end(line@) == trim_ws_end(line@.take(end as int)),
        decreases end,
    {
        proof {
            assert(line@.take(end as int).drop_last() =~= line@.take(end - 1));
        }
        end = end - 1;
    }
    proof {
        if end > 0 {
            assert(!is_ws(line@.take(end as int)[end - 1]));
        }
        assert(trim_ws_end(line@.take(end as int)) == line@.take(end as int));
    }
    let mut start: usize = end;
    while start > 0 && !crate::text::char_is_ws(line.get_char(start - 1))
        invariant
            0 <= start <= end <= n,
            n == line@.len(),
            trim_ws_end(line@) == line@.take(end as int),
            suffix_token(line@.take(end as int)) == suffix_token(line@.take(start as int))
                + line@.subrange(start as int, end as int),
        decreases start,
    {
        proof {
            assert(line@.take(start as int).drop_last() =~= line@.take(start - 1));
            assert(suffix_token(line@.take(start as int)) == suffix_token(line@.take(start - 1))
                + seq![line@[start - 1]]);
            assert(suffix_token(line@.take(start - 1)) + seq![line@[start - 1]] + line@.subrange(
                start as int,
                end as int,
            ) =~= suffix_token(line@.take(start - 1)) + line@.subrange(start - 1, end as int));
        }
        start = start - 1;
    }
    proof {
        assert(suffix_token(line@.take(start as int)) =~= Seq::<char>::empty());
        assert(suffix_token(line@.take(end as int)) =~= line@.subrange(start as int, end as int));
    }
    if start == end {
        Err(SFError::JwtLineInvalid)
    } else {
        let tok = line.substring_char(start, end).to_owned();
        Ok(tok)
    }
}

/// Where the supervisor stands while draining the child's output.
#[derive(Clone, Copy, PartialEq, Eq, Structural, Debug)]
pub enum SupervisorState {
    /// Forwarding log lines, watching for the readiness sentinel.
    AwaitingReady,
    /// Readiness seen and the credential requested; watching for the
    /// marker line.
    AwaitingToken,
    /// The credential has been delivered.
    Ready,
    /// The child exited early or the marker line held no credential.
    Failed,
}

/// What the supervisor asks the embedding application to do next.
pub enum SupervisorAction {
    /// Forward this stripped line to the log collaborator.
    ForwardLog { line: String },
    /// Write the token request command to the child's input.
    RequestToken,
    /// Keep draining; the line is of no interest.
    Ignore,
    /// The credential, ready for use.
    Deliver { token: String },
    /// Supervision failed with `error`.
    Fail { error: SFError },
}

/// The supervisor of one child process.
pub struct Supervisor {
    state: SupervisorState,
}

impl Supervisor {
    /// Which state the supervisor is in.
    pub closed spec fn state(self) -> SupervisorState {
        self.state
    }

    /// A supervisor for a freshly spawned child.
    pub fn new() -> (r: Supervisor)
        ensures
            r.state() == SupervisorState::AwaitingReady,
    {
        Supervisor { state: SupervisorState::AwaitingReady }
    }

    /// Reports one line of the child's standard output. Before
    /// readiness, lines are stripped and forwarded until the sentinel
    /// appears, which triggers the credential request; after it, the
    /// marker line's last word is delivered as the credential.
    pub fn on_line(&mut self, line: &str) -> (r: SupervisorAction)
        requires
            old(self).state() == SupervisorState::AwaitingReady || old(self).state()
                == SupervisorState::AwaitingToken,
        ensures
            old(self).state() == SupervisorState::AwaitingReady ==> {
                &&& (contains_seq(ansi_stripped_of(line@), "Finished loading!"@) ==> final(self).state() == SupervisorState::AwaitingToken && r is RequestToken)
                &&& (!contains_seq(ansi_stripped_of(line@), "Finished loading!"@) ==> final(self).state() == SupervisorState::AwaitingReady && (
                r matches SupervisorAction::ForwardLog { line: l } && l@ == ansi_stripped_of(
                    line@,
                )))
            },
            old(self).state() == SupervisorState::AwaitingToken ==> {
                &&& (!contains_seq(line@, "JWT"@) ==> final(self).state()
                    == SupervisorState::AwaitingToken && r is Ignore)
                &&& (contains_seq(line@, "JWT"@) && last_word(line@).len() > 0 ==> final(self).state() == SupervisorState::Ready && (
                r matches SupervisorAction::Deliver { token } && token@ == last_word(line@)))
                &&& (contains_seq(line@, "JWT"@) && last_word(line@).len() == 0 ==> final(self).state() == SupervisorState::Failed && (
                r matches SupervisorAction::Fail { error } && error == SFError::JwtLineInvalid))
            },
    {
        match self.state {
            SupervisorState::AwaitingReady => {
                let stripped = strip_ansi(line);
                if crate::text::str_contains(stripped.as_str(), ready_sentinel()) {
                    self.state = SupervisorState::AwaitingToken;
                    SupervisorAction::RequestToken
                } else {
                    SupervisorAction::ForwardLog { line: stripped }
                }
            },
            SupervisorState::AwaitingToken | SupervisorState::Ready | SupervisorState::Failed => {
                if !crate::text::str_contains(line, token_marker()) {
                    SupervisorAction::Ignore
                } else {
                    match parse_token_line(line) {
                        Ok(token) => {
                            self.state = SupervisorState::Ready;
                            SupervisorAction::Deliver { token }
                        },
                        Err(e) => {
                            self.state = SupervisorState::Failed;
                            SupervisorAction::Fail { error: e }
                        },
                    }
                }
            },
        }
    }

    /// Reports that the child exited: before the credential is
    /// delivered, that is a failure.
    pub fn on_exit(&mut self) -> (r: SupervisorAction)
        requires
            old(self).state() == SupervisorState::AwaitingReady || old(self).state()
                == SupervisorState::AwaitingToken,
        ensures
            final(self).state() == SupervisorState::Failed,
            r matches SupervisorAction::Fail { error } && error == SFError::ProcessExitedEarly,
    {
        self.state = SupervisorState::Failed;
        SupervisorAction::Fail { error: SFError::ProcessExitedEarly }
    }
}

/// The full argument vector: the caller-supplied flags, the chosen port
/// and the path of the installed artifact.
pub fn build_jvm_args(jvm_args: Vec<String>, port: u16, jar_path: String) -> (r: Vec<String>)
    ensures
        r@.len() == jvm_args@.len() + 3,
        forall|i: int| 0 <= i < jvm_args@.len() ==> r@[i] == jvm_args@[i],
        r@[jvm_args@.len() as int]@ == "-Dsf.grpc.port="@ + dec_of(port as nat),
        r@[jvm_args@.len() as int + 1]@ == "-jar"@,
        r@[jvm_args@.len() as int + 2]@ == jar_path@,
{
    let mut r = jvm_args;
    let port_arg = "-Dsf.grpc.port=".to_owned().concat(crate::text::u64_to_dec(port as u64).as_str());
    r.push(port_arg);
    r.push("-jar".to_owned());
    r.push(jar_path);
    r
}

/// The runtime's home directory, accounting for the platform's nesting.
pub fn java_home_path(jvm_dir: &str, os: Os) -> (r: String)
    ensures
        os == Os::Mac ==> r@ == jvm_dir@ + "/Contents/Home"@,
        os != Os::Mac ==> r@ == jvm_dir@,
{
    if os == Os::Mac {
        jvm_dir.to_owned().concat("/Contents/Home")
    } else {
        jvm_dir.to_owned()
    }
}

/// The path of the Java launcher inside the runtime's home directory.
pub fn java_exec_path(java_home: &str, os: Os) -> (r: String)
    ensures
        r@ == java_home@ + "/bin/"@ + (if os == Os::Windows {
            "javaw.exe"@
        } else {
            "java"@
        }),
{
    java_home.to_owned().concat("/bin/").concat(crate::platform::get_java_exec_name(os))
}

/// The value of a library search path variable: the runtime's `lib` and
/// `lib/server` directories, then whatever the variable already held.
pub fn library_path_value(java_home: &str, current: &str) -> (r: String)
    ensures
        r@ == java_home@ + "/lib:"@ + java_home@ + "/lib/server:"@ + current@,
{
    let r = java_home.to_owned().concat("/lib:").concat(java_home).concat("/lib/server:").concat(
        current,
    );
    proof {
        assert(r@ =~= java_home@ + "/lib:"@ + java_home@ + "/lib/server:"@ + current@);
    }
    r
}

} // verus!
