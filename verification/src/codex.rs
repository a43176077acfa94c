//! The Codex executor: what it checks of its configuration, the command line
//! it runs, the retry schedule, and how the JSON-lines output becomes the
//! answer.

use vstd::prelude::*;

use crate::config::CodexConfig;
use crate::text::{is_blank, join, lines_of, trim};

verus! {

/// One event line of `codex exec --json`, as far as the executor reads it.
#[derive(Debug, Clone)]
pub enum CodexEvent {
    AgentMessage { content: String },
    TurnFailed { error: String },
    Other,
}

/// Why a Codex call failed.
#[derive(Debug, Clone, PartialEq, Eq)]
pub enum CodexError {
    EmptyCommand,
    ExecFailed(String),
    TurnFailed(String),
    NoAgentMessage,
}

pub open spec fn codex_error_message(e: CodexError) -> Seq<char> {
    match e {
        CodexError::EmptyCommand => "codex command is empty"@,
        CodexError::ExecFailed(stderr) => "codex exec failed: "@ + stderr@,
        CodexError::TurnFailed(error) => "codex turn failed: "@ + error@,
        CodexError::NoAgentMessage => "codex returned no agent message"@,
    }
}

impl CodexError {
    /// The error as it is reported.
    pub fn message(&self) -> (r: String)
        ensures
            r@ == codex_error_message(*self),
    {
        match self {
            CodexError::EmptyCommand => "codex command is empty".to_owned(),
            CodexError::ExecFailed(stderr) => crate::text::concat2("codex exec failed: ", stderr.as_str()),
            CodexError::TurnFailed(error) => crate::text::concat2("codex turn failed: ", error.as_str()),
            CodexError::NoAgentMessage => "codex returned no agent message".to_owned(),
        }
    }
}

/// The failure of a Codex process that exited unsuccessfully, with its
/// standard error trimmed.
pub fn exec_failure(stderr: &str) -> (r: CodexError)
    ensures
        r matches CodexError::ExecFailed(s) && s@ == trim(stderr@),
{
    CodexError::ExecFailed(crate::text::trimmed(stderr))
}

/// Runs Codex with a fixed configuration.
#[derive(Debug, Clone)]
pub struct CodexExecutor {
    config: CodexConfig,
}

/// The arguments of one Codex run, after the command itself.
pub open spec fn codex_args(model: Seq<char>, prompt: Seq<char>, work_dir: Option<Seq<char>>) -> Seq<Seq<char>> {
    let head = seq!["exec"@, "--model"@, model, "--approval-mode"@, "never"@, "--json"@];
    let dir = match work_dir {
        Some(d) => seq!["--path"@, d],
        None => Seq::<Seq<char>>::empty(),
    };
    head + dir + seq![prompt]
}

pub open spec fn strings_view(v: Seq<String>) -> Seq<Seq<char>> {
    v.map_values(|s: String| s@)
}

impl CodexExecutor {
    /// An executor for the configuration; refused when the command is blank.
    pub fn new(config: CodexConfig) -> (r: Result<CodexExecutor, CodexError>)
        ensures
            match r {
                Ok(e) => e.config() == config && !is_blank(config.command@),
                Err(err) => err == CodexError::EmptyCommand && is_blank(config.command@),
            },
    {
        if crate::text::blank(config.command.as_str()) {
            return Err(CodexError::EmptyCommand);
        }
        Ok(CodexExecutor { config })
    }

    pub closed spec fn config(&self) -> CodexConfig {
        self.config
    }

    /// The configuration the executor runs with.
    pub fn codex_config(&self) -> (r: &CodexConfig)
        ensures
            *r == self.config(),
    {
        &self.config
    }

    /// The arguments that follow the command: the model, no approvals, JSON
    /// output, the working directory when there is one, and the prompt.
    pub fn command_args(&self, prompt: &str, work_dir: Option<&str>) -> (r: Vec<String>)
        ensures
            strings_view(r@) == codex_args(
                self.config().model@,
                prompt@,
                match work_dir { Some(d) => Some(d@), None => None },
            ),
    {
        let mut r: Vec<String> = Vec::new();
        r.push("exec".to_owned());
        r.push("--model".to_owned());
        r.push(self.config.model.clone());
        r.push("--approval-mode".to_owned());
        r.push("never".to_owned());
        r.push("--json".to_owned());
        match work_dir {
            Some(d) => {
                r.push("--path".to_owned());
                r.push(d.to_owned());
            },
            None => {},
        }
        r.push(prompt.to_owned());
        proof {
            assert(strings_view(r@) =~= codex_args(
                self.config().model@,
                prompt@,
                match work_dir { Some(d) => Some(d@), None => None },
            ));
        }
        r
    }

    /// The API key handed to the process as `CODEX_API_KEY` and
    /// `OPENAI_API_KEY`; none when the configured key is blank, so that a
    /// local Codex login is used.
    pub fn api_key_env(&self) -> (r: Option<String>)
        ensures
            match r {
                Some(k) => k@ == self.config().api_key@ && !is_blank(k@),
                None => is_blank(self.config().api_key@),
            },
    {
        if crate::text::blank(self.config.api_key.as_str()) {
            None
        } else {
            Some(self.config.api_key.clone())
        }
    }

    /// Seconds to wait after the failed attempt `attempt` (counted from 0)
    /// before the next one; none when no attempt is left. There are
    /// `max_retries + 1` attempts, and the wait doubles each time, from two
    /// seconds: 2 s, then 4 s, and so on.
    pub fn retry_delay_secs(&self, attempt: usize) -> (r: Option<u64>)
        requires
            attempt < self.config().max_retries ==> attempt < 63,
        ensures
            r == (if attempt < self.config().max_retries {
                Some(1u64 << ((attempt + 1) as u64))
            } else {
                None::<u64>
            }),
    {
        if attempt < self.config.max_retries {
            let shift: u64 = (attempt + 1) as u64;
            Some(1u64 << shift)
        } else {
            None
        }
    }

    /// What follows attempt `attempt` (counted from 0) of a prompt: stop on
    /// success; after a failure, wait and try again while retries are left,
    /// else give up with that failure.
    pub fn after_attempt(&self, attempt: usize, succeeded: bool) -> (r: RetryAction)
        requires
            attempt < self.config().max_retries ==> attempt < 63,
        ensures
            succeeded ==> r == RetryAction::Done,
            !succeeded && attempt < self.config().max_retries ==> r == RetryAction::RetryAfter(1u64 << ((attempt + 1) as u64)),
            !succeeded && attempt >= self.config().max_retries ==> r == RetryAction::GiveUp,
            (r is RetryAfter) == continues_after(self.config().max_retries as int, attempt as int, succeeded),
    {
        if succeeded {
            RetryAction::Done
        } else {
            match self.retry_delay_secs(attempt) {
                Some(delay) => RetryAction::RetryAfter(delay),
                None => RetryAction::GiveUp,
            }
        }
    }

    /// How many times a prompt is tried: once, then once per retry.
    pub fn attempts(&self) -> (r: usize)
        requires
            self.config().max_retries < usize::MAX,
        ensures
            r == self.config().max_retries + 1,
    {
        self.config.max_retries + 1
    }
}

/// What the runner does after an attempt.
#[derive(Debug, Clone, Copy, PartialEq, Eq)]
pub enum RetryAction {
    /// The attempt succeeded: its answer is returned.
    Done,
    /// The attempt failed: wait this many seconds, then try again.
    RetryAfter(u64),
    /// The attempt failed and no retry is left: its error is returned.
    GiveUp,
}

/// Another attempt follows attempt `attempt`.
pub open spec fn continues_after(max_retries: int, attempt: int, succeeded: bool) -> bool {
    !succeeded && attempt < max_retries
}

/// How many attempts are made, from attempt `attempt` on, when the attempts
/// succeed or fail as `outcomes` says.
pub open spec fn attempts_made(max_retries: int, outcomes: Seq<bool>, attempt: int) -> int
    decreases outcomes.len() - attempt,
{
    if attempt < 0 || attempt >= outcomes.len() {
        attempt
    } else if continues_after(max_retries, attempt, outcomes[attempt]) {
        attempts_made(max_retries, outcomes, attempt + 1)
    } else {
        attempt + 1
    }
}

/// The retry law: when every attempt fails, the command runs exactly
/// `max_retries + 1` times; when attempt `k` is the first to succeed (and
/// `k <= max_retries`), it runs `k + 1` times and no run follows the success.
pub proof fn lemma_attempts_made(max_retries: int, outcomes: Seq<bool>, k: int)
    requires
        0 <= max_retries < outcomes.len(),
        0 <= k <= max_retries,
        forall|i: int| 0 <= i < k ==> !(#[trigger] outcomes[i]),
    ensures
        outcomes[k] ==> attempts_made(max_retries, outcomes, 0) == k + 1,
        (forall|i: int| 0 <= i <= max_retries ==> !(#[trigger] outcomes[i])) ==> attempts_made(max_retries, outcomes, 0) == max_retries + 1,
{
    lemma_attempts_from(max_retries, outcomes, 0, k);
    if forall|i: int| 0 <= i <= max_retries ==> !(#[trigger] outcomes[i]) {
        lemma_attempts_from(max_retries, outcomes, 0, max_retries);
    }
}

proof fn lemma_attempts_from(max_retries: int, outcomes: Seq<bool>, a: int, k: int)
    requires
        0 <= max_retries < outcomes.len(),
        0 <= a <= k <= max_retries,
        forall|i: int| a <= i < k ==> !(#[trigger] outcomes[i]),
    ensures
        outcomes[k] ==> attempts_made(max_retries, outcomes, a) == k + 1,
        (k == max_retries && !outcomes[k]) ==> attempts_made(max_retries, outcomes, a) == max_retries + 1,
    decreases k - a,
{
    if a < k {
        assert(!outcomes[a]);
        lemma_attempts_from(max_retries, outcomes, a + 1, k);
    }
}

/// The lines of `ls` that are not blank, in order.
pub open spec fn nonblank_lines(ls: Seq<Seq<char>>) -> Seq<Seq<char>>
    decreases ls.len(),
{
    if ls.len() == 0 {
        Seq::empty()
    } else if is_blank(ls.last()) {
        nonblank_lines(ls.drop_last())
    } else {
        nonblank_lines(ls.drop_last()).push(ls.last())
    }
}

/// The lines of the output that are not blank.
pub open spec fn content_lines(stdout: Seq<char>) -> Seq<Seq<char>> {
    nonblank_lines(lines_of(stdout))
}

/// What one line adds to the messages: the content of an agent message that
/// is not blank, the line itself when it is no event, nothing for other
/// events; a failed turn ends the output with its error.
pub open spec fn message_step(ms: Seq<Seq<char>>, line: Seq<char>, event: Option<CodexEvent>) -> Result<Seq<Seq<char>>, Seq<char>> {
    match event {
        Some(CodexEvent::AgentMessage { content }) => if is_blank(content@) {
            Ok(ms)
        } else {
            Ok(ms.push(content@))
        },
        Some(CodexEvent::TurnFailed { error }) => Err(error@),
        Some(CodexEvent::Other) => Ok(ms),
        None => Ok(ms.push(line)),
    }
}

/// The messages of the first `n` lines, or the error of the first failed turn.
pub open spec fn collect_messages(lines: Seq<Seq<char>>, events: Seq<Option<CodexEvent>>, n: nat) -> Result<Seq<Seq<char>>, Seq<char>>
    decreases n,
{
    if n == 0 {
        Ok(Seq::empty())
    } else {
        match collect_messages(lines, events, (n - 1) as nat) {
            Err(e) => Err(e),
            Ok(ms) => message_step(ms, lines[n - 1], events[n - 1]),
        }
    }
}

/// The lines of the output that carry content, in order.
pub fn output_lines(stdout: &str) -> (r: Vec<String>)
    ensures
        strings_view(r@) == content_lines(stdout@),
{
    let chars = crate::text::chars_of(stdout);
    let ls = crate::text::lines_vec(&chars);
    let ghost all = lines_of(stdout@);
    let mut r: Vec<String> = Vec::new();
    let mut i: usize = 0;
    while i < ls.len()
        invariant
            i <= ls.len(),
            ls@.len() == all.len(),
            forall|j: int| 0 <= j < ls@.len() ==> (#[trigger] ls@[j])@ == all[j],
            strings_view(r@) == nonblank_lines(all.take(i as int)),
        decreases ls.len() - i,
    {
        let line = crate::text::string_of(&ls[i]);
        proof {
            assert(all.take(i + 1).drop_last() =~= all.take(i as int));
            assert(all.take(i + 1).last() == all[i as int]);
        }
        if !crate::text::blank(line.as_str()) {
            r.push(line);
            proof {
                assert(strings_view(r@) =~= nonblank_lines(all.take(i + 1)));
            }
        }
        i = i + 1;
    }
    proof {
        assert(all.take(ls.len() as int) =~= all);
    }
    r
}

proof fn lemma_failed_turn_ends(lines: Seq<Seq<char>>, events: Seq<Option<CodexEvent>>, k: nat, n: nat, e: Seq<char>)
    requires
        k <= n,
        collect_messages(lines, events, k) == Err::<Seq<Seq<char>>, Seq<char>>(e),
    ensures
        collect_messages(lines, events, n) == Err::<Seq<Seq<char>>, Seq<char>>(e),
    decreases n - k,
{
    if k < n {
        lemma_failed_turn_ends(lines, events, k, (n - 1) as nat, e);
    }
}

/// Assembles the answer of a Codex run from its content lines and, for each,
/// the event it parses as (none when it is no event): the messages joined
/// by newlines and trimmed. A failed turn, or an empty answer, is an error.
pub fn parse_codex_output(lines: &Vec<String>, events: &Vec<Option<CodexEvent>>) -> (r: Result<String, CodexError>)
    requires
        lines.len() == events.len(),
    ensures
        match r {
            Ok(out) => collect_messages(strings_view(lines@), events@, lines@.len()) matches Ok(ms)
                && out@ == trim(join(ms, seq!['\n'])) && out@.len() > 0,
            Err(CodexError::TurnFailed(e)) => collect_messages(strings_view(lines@), events@, lines@.len())
                == Err::<Seq<Seq<char>>, Seq<char>>(e@),
            Err(CodexError::NoAgentMessage) => collect_messages(strings_view(lines@), events@, lines@.len()) matches Ok(ms)
                && trim(join(ms, seq!['\n'])).len() == 0,
            Err(_) => false,
        },
{
    let ghost lv = strings_view(lines@);
    let mut ms: Vec<Vec<char>> = Vec::new();
    assert(ms@.map_values(|m: Vec<char>| m@) =~= Seq::<Seq<char>>::empty());
    let mut i: usize = 0;
    while i < lines.len()
        invariant
            i <= lines.len() == events.len(),
            lv == strings_view(lines@),
            collect_messages(lv, events@, i as nat) == Ok::<Seq<Seq<char>>, Seq<char>>(
                ms@.map_values(|m: Vec<char>| m@),
            ),
        decreases lines.len() - i,
    {
        let ghost before = ms@.map_values(|m: Vec<char>| m@);
        match &events[i] {
            Some(CodexEvent::AgentMessage { content }) => {
                if !crate::text::blank(content.as_str()) {
                    ms.push(crate::text::chars_of(content.as_str()));
                }
            },
            Some(CodexEvent::TurnFailed { error }) => {
                let e = error.clone();
                proof {
                    assert(collect_messages(lv, events@, (i + 1) as nat) == Err::<Seq<Seq<char>>, Seq<char>>(e@));
                    lemma_failed_turn_ends(lv, events@, (i + 1) as nat, lines@.len(), e@);
                }
                return Err(CodexError::TurnFailed(e));
            },
            Some(CodexEvent::Other) => {},
            None => {
                ms.push(crate::text::chars_of(lines[i].as_str()));
            },
        }
        proof {
            assert(ms@.map_values(|m: Vec<char>| m@) =~= match message_step(before, lv[i as int], events@[i as int]) {
                Ok(x) => x,
                Err(_) => before,
            });
        }
        i = i + 1;
    }
    let newline: Vec<char> = vec!['\n'];
    assert(newline@ =~= seq!['\n']);
    let joined = crate::text::join_vec(&ms, &newline);
    let out = crate::text::trim_chars(&joined);
    if out.len() == 0 {
        return Err(CodexError::NoAgentMessage);
    }
    Ok(crate::text::string_of(&out))
}

} // verus!
