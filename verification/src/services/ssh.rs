//! Delivery of the disk passphrase over an interactive remote shell.
//!
//! The boot-time environment of the target offers no protocol, only a
//! terminal. The exchange is therefore a fixed sequence of steps, each of
//! which the caller performs against the network and reports back. This
//! module decides what the next step is and how the exchange ends; it never
//! touches the network itself.

use vstd::prelude::*;
use vstd::string::*;
use crate::text::prefixed;

verus! {

/// Account that the passphrase prompt runs under.
pub const SSH_USER: &'static str = "root";

/// Terminal type asked for with the pseudo-terminal.
pub const PTY_TERM: &'static str = "xterm";

/// Width of the pseudo-terminal, in columns.
pub const PTY_COLS: u32 = 80;

/// Height of the pseudo-terminal, in rows.
pub const PTY_ROWS: u32 = 24;

/// Longest time that opening the transport may take, in milliseconds.
pub const CONNECT_TIMEOUT_MS: u64 = 5000;

/// Whether the key that the host shows is accepted unseen. It is: the
/// boot-time environment of the target makes a new key at every boot, so
/// there is none to hold it against. This is a relaxation for this one
/// target and no policy for hosts in general.
pub const ACCEPT_ANY_HOST_KEY: bool = true;

/// Time given to the remote side to show its prompt, in milliseconds.
pub const PROMPT_GRACE_MS: u64 = 1000;

/// Time given to the remote side to read the passphrase, in milliseconds.
pub const DELIVERY_GRACE_MS: u64 = 500;

/// Why a delivery ended without the passphrase having been written.
#[derive(Debug)]
pub enum SshError {
    KeyLoadFailed(String),
    ConnectionFailed(String),
    AuthFailed,
    ChannelFailed(String),
    SendFailed(String),
}

/// Mathematical value of an [`SshError`].
pub ghost enum SshErrorView {
    KeyLoadFailed(Seq<char>),
    ConnectionFailed(Seq<char>),
    AuthFailed,
    ChannelFailed(Seq<char>),
    SendFailed(Seq<char>),
}

impl View for SshError {
    type V = SshErrorView;

    open spec fn view(&self) -> SshErrorView {
        match self {
            SshError::KeyLoadFailed(m) => SshErrorView::KeyLoadFailed(m@),
            SshError::ConnectionFailed(m) => SshErrorView::ConnectionFailed(m@),
            SshError::AuthFailed => SshErrorView::AuthFailed,
            SshError::ChannelFailed(m) => SshErrorView::ChannelFailed(m@),
            SshError::SendFailed(m) => SshErrorView::SendFailed(m@),
        }
    }
}

/// Text shown for an error.
pub open spec fn ssh_error_text(e: SshErrorView) -> Seq<char> {
    match e {
        SshErrorView::KeyLoadFailed(m) => "Failed to load SSH key: "@ + m,
        SshErrorView::ConnectionFailed(m) => "SSH connection failed: "@ + m,
        SshErrorView::AuthFailed => "SSH authentication failed"@,
        SshErrorView::ChannelFailed(m) => "Failed to open channel: "@ + m,
        SshErrorView::SendFailed(m) => "Failed to send passphrase: "@ + m,
    }
}

impl SshError {
    /// Human-readable description of the error.
    pub fn message(&self) -> (text: String)
        ensures
            text@ == ssh_error_text(self@),
    {
        match self {
            SshError::KeyLoadFailed(m) => prefixed("Failed to load SSH key: ", m.as_str()),
            SshError::ConnectionFailed(m) => prefixed("SSH connection failed: ", m.as_str()),
            SshError::AuthFailed => "SSH authentication failed".to_owned(),
            SshError::ChannelFailed(m) => prefixed("Failed to open channel: ", m.as_str()),
            SshError::SendFailed(m) => prefixed("Failed to send passphrase: ", m.as_str()),
        }
    }
}

/// Where a delivery stands: the step that is to be performed next.
#[derive(Debug, Clone, Copy, PartialEq, Eq, Structural)]
pub enum Stage {
    /// Read the private key.
    LoadKey,
    /// Open the transport to the host.
    Connect,
    /// Present the key for [`SSH_USER`].
    Authenticate,
    /// Open the session channel.
    OpenChannel,
    /// Ask for a pseudo-terminal on the channel.
    RequestPty,
    /// Ask for a shell on the channel; this starts the passphrase prompt.
    RequestShell,
    /// Let the prompt appear.
    AwaitPrompt,
    /// Write the passphrase and a line feed.
    SendPassphrase,
    /// Let the remote side read what was written.
    AwaitDelivery,
    /// Signal end of input.
    SendEof,
    /// Nothing is left to do.
    Done,
}

/// What came of performing a step.
#[derive(Debug)]
pub enum StepResult {
    /// The step was carried out.
    Completed,
    /// The remote side answered and said no. Only authentication has such
    /// an answer; at every other step this counts as `Completed`.
    Declined,
    /// The step could not be carried out; the text says why.
    Failed(String),
}

/// Mathematical value of a [`StepResult`].
pub ghost enum StepResultView {
    Completed,
    Declined,
    Failed(Seq<char>),
}

impl View for StepResult {
    type V = StepResultView;

    open spec fn view(&self) -> StepResultView {
        match self {
            StepResult::Completed => StepResultView::Completed,
            StepResult::Declined => StepResultView::Declined,
            StepResult::Failed(m) => StepResultView::Failed(m@),
        }
    }
}

/// Mathematical value of the way a delivery ended.
pub open spec fn outcome_view(outcome: Result<(), SshError>) -> Result<(), SshErrorView> {
    match outcome {
        Ok(_) => Ok(()),
        Err(e) => Err(e@),
    }
}

/// What the caller is asked to do. An action may hold the passphrase, so
/// it cannot be printed.
pub enum Action {
    /// Read the private key stored at `path`, without a key passphrase.
    LoadKey { path: String },
    /// Open the transport to `host:port` and give up after
    /// `timeout_millis` milliseconds; an attempt that was given up has
    /// failed. With `accept_any_host_key` the key that the host shows is
    /// accepted as it comes.
    Connect { host: String, port: u16, timeout_millis: u64, accept_any_host_key: bool },
    /// Authenticate as `user` with the key that was loaded.
    Authenticate { user: String },
    /// Open a session channel.
    OpenChannel,
    /// Ask for a pseudo-terminal, without waiting for a reply.
    RequestPty { term: String, cols: u32, rows: u32 },
    /// Ask for a shell, without waiting for a reply.
    RequestShell,
    /// Do nothing for `millis` milliseconds.
    Wait { millis: u64 },
    /// Write `data` to the channel.
    Send { data: Vec<u8> },
    /// Signal end of input on the channel.
    SendEof,
    /// Stop. The delivery ended as `outcome` says.
    Finish { outcome: Result<(), SshError> },
}

/// Mathematical value of an [`Action`].
pub ghost enum ActionView {
    LoadKey { path: Seq<char> },
    Connect { host: Seq<char>, port: u16, timeout_millis: u64, accept_any_host_key: bool },
    Authenticate { user: Seq<char> },
    OpenChannel,
    RequestPty { term: Seq<char>, cols: u32, rows: u32 },
    RequestShell,
    Wait { millis: u64 },
    Send { data: Seq<u8> },
    SendEof,
    Finish { outcome: Result<(), SshErrorView> },
}

impl View for Action {
    type V = ActionView;

    open spec fn view(&self) -> ActionView {
        match self {
            Action::LoadKey { path } => ActionView::LoadKey { path: path@ },
            Action::Connect { host, port, timeout_millis, accept_any_host_key } => {
                ActionView::Connect {
                    host: host@,
                    port: *port,
                    timeout_millis: *timeout_millis,
                    accept_any_host_key: *accept_any_host_key,
                }
            },
            Action::Authenticate { user } => ActionView::Authenticate { user: user@ },
            Action::OpenChannel => ActionView::OpenChannel,
            Action::RequestPty { term, cols, rows } => ActionView::RequestPty {
                term: term@,
                cols: *cols,
                rows: *rows,
            },
            Action::RequestShell => ActionView::RequestShell,
            Action::Wait { millis } => ActionView::Wait { millis: *millis },
            Action::Send { data } => ActionView::Send { data: data@ },
            Action::SendEof => ActionView::SendEof,
            Action::Finish { outcome } => ActionView::Finish { outcome: outcome_view(*outcome) },
        }
    }
}

/// Mathematical value of an [`UnlockSession`].
pub ghost struct UnlockSessionView {
    pub host: Seq<char>,
    pub port: u16,
    pub key_path: Seq<char>,
    pub passphrase: Seq<char>,
    pub stage: Stage,
    pub failure: Option<SshErrorView>,
}

/// The stage that follows `stage` when its step did not fail.
pub open spec fn stage_after(stage: Stage) -> Stage {
    match stage {
        Stage::LoadKey => Stage::Connect,
        Stage::Connect => Stage::Authenticate,
        Stage::Authenticate => Stage::OpenChannel,
        Stage::OpenChannel => Stage::RequestPty,
        Stage::RequestPty => Stage::RequestShell,
        Stage::RequestShell => Stage::AwaitPrompt,
        Stage::AwaitPrompt => Stage::SendPassphrase,
        Stage::SendPassphrase => Stage::AwaitDelivery,
        Stage::AwaitDelivery => Stage::SendEof,
        Stage::SendEof => Stage::Done,
        Stage::Done => Stage::Done,
    }
}

/// The error that the step of `stage` leaves behind when it is answered
/// by `result`, if it leaves one.
///
/// A failure to load the key, to connect, to authenticate, to set up the
/// channel or to write the passphrase is an error of the delivery. A
/// transport failure during authentication counts as a connection failure;
/// a refusal is reported as such. The two waits cannot fail, and a failure
/// to signal end of input is let pass: nothing can be done about it.
pub open spec fn stage_failure(stage: Stage, result: StepResultView) -> Option<SshErrorView> {
    match (stage, result) {
        (Stage::LoadKey, StepResultView::Failed(m)) => Some(SshErrorView::KeyLoadFailed(m)),
        (Stage::Connect, StepResultView::Failed(m)) => Some(SshErrorView::ConnectionFailed(m)),
        (Stage::Authenticate, StepResultView::Failed(m)) => Some(
            SshErrorView::ConnectionFailed(m),
        ),
        (Stage::Authenticate, StepResultView::Declined) => Some(SshErrorView::AuthFailed),
        (Stage::OpenChannel, StepResultView::Failed(m)) => Some(SshErrorView::ChannelFailed(m)),
        (Stage::RequestPty, StepResultView::Failed(m)) => Some(SshErrorView::ChannelFailed(m)),
        (Stage::RequestShell, StepResultView::Failed(m)) => Some(SshErrorView::ChannelFailed(m)),
        (Stage::SendPassphrase, StepResultView::Failed(m)) => Some(SshErrorView::SendFailed(m)),
        _ => None,
    }
}

/// Whether the channel is open at `stage`: it has been opened and end of
/// input has not been signalled on it yet.
pub open spec fn channel_open(stage: Stage) -> bool {
    match stage {
        Stage::RequestPty
        | Stage::RequestShell
        | Stage::AwaitPrompt
        | Stage::SendPassphrase
        | Stage::AwaitDelivery
        | Stage::SendEof => true,
        _ => false,
    }
}

/// The stage that follows `stage` when its step left an error behind. With
/// the channel open, end of input is signalled before the delivery ends;
/// without one, the delivery ends at once.
pub open spec fn stage_after_failure(stage: Stage) -> Stage {
    if channel_open(stage) {
        Stage::SendEof
    } else {
        Stage::Done
    }
}

/// The session after the step of its stage was answered by `result`. The
/// first error is kept: no step after it can leave another.
pub open spec fn step(s: UnlockSessionView, result: StepResultView) -> UnlockSessionView {
    if s.stage == Stage::Done {
        s
    } else {
        match stage_failure(s.stage, result) {
            Some(e) => UnlockSessionView {
                stage: stage_after_failure(s.stage),
                failure: Some(e),
                ..s
            },
            None => UnlockSessionView { stage: stage_after(s.stage), ..s },
        }
    }
}

/// The bytes written at the prompt: the passphrase in UTF-8 and a line feed.
pub open spec fn passphrase_line(passphrase: Seq<char>) -> Seq<u8> {
    vstd::utf8::encode_utf8(passphrase).push(10u8)
}

/// What is to be done in the state `s`.
pub open spec fn action_of(s: UnlockSessionView) -> ActionView {
    match s.stage {
        Stage::LoadKey => ActionView::LoadKey { path: s.key_path },
        Stage::Connect => ActionView::Connect {
            host: s.host,
            port: s.port,
            timeout_millis: CONNECT_TIMEOUT_MS,
            accept_any_host_key: ACCEPT_ANY_HOST_KEY,
        },
        Stage::Authenticate => ActionView::Authenticate { user: SSH_USER@ },
        Stage::OpenChannel => ActionView::OpenChannel,
        Stage::RequestPty => ActionView::RequestPty {
            term: PTY_TERM@,
            cols: PTY_COLS,
            rows: PTY_ROWS,
        },
        Stage::RequestShell => ActionView::RequestShell,
        Stage::AwaitPrompt => ActionView::Wait { millis: PROMPT_GRACE_MS },
        Stage::SendPassphrase => ActionView::Send { data: passphrase_line(s.passphrase) },
        Stage::AwaitDelivery => ActionView::Wait { millis: DELIVERY_GRACE_MS },
        Stage::SendEof => ActionView::SendEof,
        Stage::Done => ActionView::Finish { outcome: final_outcome(s) },
    }
}

/// How a delivery that stands in `s` ends, once it has reached the last
/// stage: with the error that a step left behind or, without one, well.
pub open spec fn final_outcome(s: UnlockSessionView) -> Result<(), SshErrorView> {
    match s.failure {
        Some(e) => Err(e),
        None => Ok(()),
    }
}

/// The state in which every delivery begins.
pub open spec fn initial_session(
    host: Seq<char>,
    port: u16,
    key_path: Seq<char>,
    passphrase: Seq<char>,
) -> UnlockSessionView {
    UnlockSessionView { host, port, key_path, passphrase, stage: Stage::LoadKey, failure: None }
}

/// One delivery of the passphrase, from the loading of the key to the end
/// of input. It lives for one call and is not reused.
pub struct UnlockSession {
    host: String,
    port: u16,
    key_path: String,
    passphrase: String,
    stage: Stage,
    failure: Option<SshError>,
}

impl View for UnlockSession {
    type V = UnlockSessionView;

    closed spec fn view(&self) -> UnlockSessionView {
        UnlockSessionView {
            host: self.host@,
            port: self.port,
            key_path: self.key_path@,
            passphrase: self.passphrase@,
            stage: self.stage,
            failure: match self.failure {
                Some(e) => Some(e@),
                None => None,
            },
        }
    }
}

impl UnlockSession {
    /// A delivery of `passphrase` to `host:port`, authenticated with the key
    /// at `key_path`, with nothing done yet.
    pub fn new(host: &str, port: u16, key_path: &str, passphrase: &str) -> (session: Self)
        ensures
            session@ == initial_session(host@, port, key_path@, passphrase@),
    {
        UnlockSession {
            host: host.to_owned(),
            port,
            key_path: key_path.to_owned(),
            passphrase: passphrase.to_owned(),
            stage: Stage::LoadKey,
            failure: None,
        }
    }

    /// The step to perform next.
    pub fn stage(&self) -> (stage: Stage)
        ensures
            stage == self@.stage,
    {
        self.stage
    }

    /// Whether the delivery has ended.
    pub fn is_done(&self) -> (done: bool)
        ensures
            done == (self@.stage == Stage::Done),
    {
        self.stage == Stage::Done
    }

    /// What the caller is to do now. Asking changes nothing: the same
    /// action is named until [`UnlockSession::advance`] is called.
    pub fn action(&self) -> (action: Action)
        ensures
            action@ == action_of(self@),
    {
        match self.stage {
            Stage::LoadKey => Action::LoadKey { path: self.key_path.clone() },
            Stage::Connect => Action::Connect {
                host: self.host.clone(),
                port: self.port,
                timeout_millis: CONNECT_TIMEOUT_MS,
                accept_any_host_key: ACCEPT_ANY_HOST_KEY,
            },
            Stage::Authenticate => Action::Authenticate { user: SSH_USER.to_owned() },
            Stage::OpenChannel => Action::OpenChannel,
            Stage::RequestPty => Action::RequestPty {
                term: PTY_TERM.to_owned(),
                cols: PTY_COLS,
                rows: PTY_ROWS,
            },
            Stage::RequestShell => Action::RequestShell,
            Stage::AwaitPrompt => Action::Wait { millis: PROMPT_GRACE_MS },
            Stage::SendPassphrase => {
                let mut data = self.passphrase.as_str().as_bytes_vec();
                data.push(10u8);
                Action::Send { data }
            },
            Stage::AwaitDelivery => Action::Wait { millis: DELIVERY_GRACE_MS },
            Stage::SendEof => Action::SendEof,
            Stage::Done => Action::Finish { outcome: self.outcome_now() },
        }
    }

    /// Takes in what came of the step that [`UnlockSession::action`] named.
    /// Each step is tried once; nothing is repeated. A step that fails
    /// before there is a channel ends the delivery; one that fails on the
    /// open channel leaves only the end of input to be signalled.
    pub fn advance(&mut self, result: StepResult)
        ensures
            final(self)@ == step(old(self)@, result@),
    {
        let failure = match self.stage {
            Stage::Done => {
                return;
            },
            Stage::LoadKey => match result {
                StepResult::Failed(m) => Some(SshError::KeyLoadFailed(m)),
                _ => None,
            },
            Stage::Connect => match result {
                StepResult::Failed(m) => Some(SshError::ConnectionFailed(m)),
                _ => None,
            },
            Stage::Authenticate => match result {
                StepResult::Failed(m) => Some(SshError::ConnectionFailed(m)),
                StepResult::Declined => Some(SshError::AuthFailed),
                StepResult::Completed => None,
            },
            Stage::OpenChannel | Stage::RequestPty | Stage::RequestShell => match result {
                StepResult::Failed(m) => Some(SshError::ChannelFailed(m)),
                _ => None,
            },
            Stage::SendPassphrase => match result {
                StepResult::Failed(m) => Some(SshError::SendFailed(m)),
                _ => None,
            },
            Stage::AwaitPrompt | Stage::AwaitDelivery | Stage::SendEof => None,
        };
        match failure {
            Some(e) => {
                self.stage = failure_stage(self.stage);
                self.failure = Some(e);
            },
            None => {
                self.stage = next_stage(self.stage);
            },
        }
    }

    /// How the delivery ended, once it has: `Ok` says that the passphrase
    /// was written to the channel, not that the disk was unlocked.
    pub fn outcome(&self) -> (outcome: Option<Result<(), SshError>>)
        ensures
            self@.stage != Stage::Done ==> outcome is None,
            self@.stage == Stage::Done ==> outcome is Some && outcome_view(outcome->0)
                == final_outcome(self@),
    {
        if self.stage == Stage::Done {
            Some(self.outcome_now())
        } else {
            None
        }
    }

    fn outcome_now(&self) -> (outcome: Result<(), SshError>)
        ensures
            outcome_view(outcome) == final_outcome(self@),
    {
        match &self.failure {
            None => Ok(()),
            Some(e) => Err(e.duplicate()),
        }
    }
}

impl SshError {
    /// A copy of the error.
    pub fn duplicate(&self) -> (copy: SshError)
        ensures
            copy@ == self@,
    {
        match self {
            SshError::KeyLoadFailed(m) => SshError::KeyLoadFailed(m.clone()),
            SshError::ConnectionFailed(m) => SshError::ConnectionFailed(m.clone()),
            SshError::AuthFailed => SshError::AuthFailed,
            SshError::ChannelFailed(m) => SshError::ChannelFailed(m.clone()),
            SshError::SendFailed(m) => SshError::SendFailed(m.clone()),
        }
    }
}

/// The session `s` after its steps were answered by `results`, in order.
pub open spec fn run(s: UnlockSessionView, results: Seq<StepResultView>) -> UnlockSessionView
    decreases results.len(),
{
    if results.len() == 0 {
        s
    } else {
        step(run(s, results.drop_last()), results.last())
    }
}

/// Number of steps that lie between `stage` and the end of the delivery.
pub open spec fn steps_left(stage: Stage) -> nat {
    match stage {
        Stage::LoadKey => 10,
        Stage::Connect => 9,
        Stage::Authenticate => 8,
        Stage::OpenChannel => 7,
        Stage::RequestPty => 6,
        Stage::RequestShell => 5,
        Stage::AwaitPrompt => 4,
        Stage::SendPassphrase => 3,
        Stage::AwaitDelivery => 2,
        Stage::SendEof => 1,
        Stage::Done => 0,
    }
}

/// A delivery that has ended stays as it is, whatever is reported to it.
pub proof fn law_ended_delivery_stays_ended(s: UnlockSessionView, results: Seq<StepResultView>)
    requires
        s.stage == Stage::Done,
    ensures
        run(s, results) == s,
    decreases results.len(),
{
    if results.len() > 0 {
        law_ended_delivery_stays_ended(s, results.drop_last());
    }
}

/// Every answer brings a delivery nearer to its end, and none changes
/// whom it is for or what it carries.
pub proof fn lemma_step_progress(s: UnlockSessionView, result: StepResultView)
    ensures
        s.stage != Stage::Done ==> steps_left(step(s, result).stage) < steps_left(s.stage),
        step(s, result).host == s.host,
        step(s, result).port == s.port,
        step(s, result).key_path == s.key_path,
        step(s, result).passphrase == s.passphrase,
{
}

/// A delivery ends after ten answers at the latest.
pub proof fn law_delivery_ends_within_ten_answers(s: UnlockSessionView, results: Seq<StepResultView>)
    ensures
        steps_left(run(s, results).stage) + results.len() <= steps_left(s.stage)
            || run(s, results).stage == Stage::Done,
        results.len() >= 10 ==> run(s, results).stage == Stage::Done,
    decreases results.len(),
{
    if results.len() > 0 {
        law_delivery_ends_within_ten_answers(s, results.drop_last());
        lemma_step_progress(run(s, results.drop_last()), results.last());
    }
}

/// A step that fails before a channel is open ends the delivery there and
/// then: whatever is reported afterwards, the only action named is to
/// finish with that failure. In particular a key that cannot be loaded
/// ends the delivery before the network is touched, and a refused
/// authentication ends it before a channel is asked for.
pub proof fn law_failure_without_channel_ends_delivery(
    s: UnlockSessionView,
    result: StepResultView,
    later: Seq<StepResultView>,
)
    requires
        s.stage != Stage::Done,
        !channel_open(s.stage),
        stage_failure(s.stage, result) is Some,
    ensures
        run(step(s, result), later).stage == Stage::Done,
        action_of(run(step(s, result), later)) == (ActionView::Finish {
            outcome: Err(stage_failure(s.stage, result)->0),
        }),
{
    law_ended_delivery_stays_ended(step(s, result), later);
}

/// A step that fails on the open channel leaves one thing to do: to signal
/// end of input. Whatever comes of that, the delivery then ends with the
/// failure of that step, and whatever is reported afterwards, the only
/// action named is to finish with it.
pub proof fn law_failure_on_channel_signals_end_of_input(
    s: UnlockSessionView,
    result: StepResultView,
    eof_result: StepResultView,
    later: Seq<StepResultView>,
)
    requires
        channel_open(s.stage),
        stage_failure(s.stage, result) is Some,
    ensures
        action_of(step(s, result)) == ActionView::SendEof,
        run(step(step(s, result), eof_result), later).stage == Stage::Done,
        action_of(run(step(step(s, result), eof_result), later)) == (ActionView::Finish {
            outcome: Err(stage_failure(s.stage, result)->0),
        }),
{
    law_ended_delivery_stays_ended(step(step(s, result), eof_result), later);
}

/// No delivery ends with its channel open: the answer that ends one is the
/// answer to the end of input, or to a step that failed before there was a
/// channel.
pub proof fn law_no_end_with_open_channel(s: UnlockSessionView, result: StepResultView)
    requires
        s.stage != Stage::Done,
        step(s, result).stage == Stage::Done,
    ensures
        s.stage == Stage::SendEof || (!channel_open(s.stage) && stage_failure(s.stage, result)
            is Some),
{
}

/// The passphrase is written only after the key was loaded, the transport
/// opened, the user authenticated and the channel, terminal and shell set
/// up, every one of them without failure, and the first wait has passed.
pub proof fn law_passphrase_only_after_setup(
    host: Seq<char>,
    port: u16,
    key_path: Seq<char>,
    passphrase: Seq<char>,
    results: Seq<StepResultView>,
)
    requires
        run(initial_session(host, port, key_path, passphrase), results).stage
            == Stage::SendPassphrase,
    ensures
        results.len() == 7,
        forall|i: int|
            0 <= i < 7 ==> stage_failure(
                run(initial_session(host, port, key_path, passphrase), results.take(i)).stage,
                #[trigger] results[i],
            ) is None,
        action_of(run(initial_session(host, port, key_path, passphrase), results)) == (
        ActionView::Send { data: passphrase_line(passphrase) }),
{
    let init = initial_session(host, port, key_path, passphrase);
    lemma_run_prefix_stages(init, results);
    lemma_run_keeps_request(init, results);
}

/// A delivery that ends well has gone through every step: nothing failed
/// on the way, the passphrase was written and end of input was signalled.
pub proof fn law_success_means_every_step(
    host: Seq<char>,
    port: u16,
    key_path: Seq<char>,
    passphrase: Seq<char>,
    results: Seq<StepResultView>,
)
    requires
        run(initial_session(host, port, key_path, passphrase), results).stage == Stage::Done,
        final_outcome(run(initial_session(host, port, key_path, passphrase), results)) is Ok,
    ensures
        results.len() >= 10,
        run(initial_session(host, port, key_path, passphrase), results.take(7)).stage
            == Stage::SendPassphrase,
        run(initial_session(host, port, key_path, passphrase), results.take(9)).stage
            == Stage::SendEof,
        forall|i: int|
            0 <= i < 10 ==> stage_failure(
                run(initial_session(host, port, key_path, passphrase), results.take(i)).stage,
                #[trigger] results[i],
            ) is None,
{
    let init = initial_session(host, port, key_path, passphrase);
    lemma_run_without_failure(init, results);
    lemma_answer_without_failure(init, results, 7);
    lemma_answer_without_failure(init, results, 9);
    assert forall|i: int| 0 <= i < 10 implies stage_failure(
        run(init, results.take(i)).stage,
        #[trigger] results[i],
    ) is None by {
        lemma_answer_without_failure(init, results, i);
    }
}

/// In a delivery that stands without an error, the answer numbered `i`
/// was given to the step that lies `i` stages from the start, and was no
/// failure.
pub proof fn lemma_answer_without_failure(
    s: UnlockSessionView,
    results: Seq<StepResultView>,
    i: int,
)
    requires
        0 <= i < results.len(),
        i < steps_left(s.stage),
        run(s, results).failure is None,
    ensures
        steps_left(run(s, results.take(i)).stage) + i == steps_left(s.stage),
        stage_failure(run(s, results.take(i)).stage, results[i]) is None,
{
    let upto = results.take(i + 1);
    lemma_failure_is_kept(s, results, i + 1);
    lemma_failure_is_kept(s, results, i);
    lemma_run_without_failure(s, results.take(i));
    assert(upto.drop_last() =~= results.take(i));
    assert(upto.last() == results[i]);
    assert(run(s, upto) == step(run(s, results.take(i)), results[i]));
}

/// An error that a step has left behind stays: a delivery that stands
/// without one stood without one after each of its answers.
pub proof fn lemma_failure_is_kept(s: UnlockSessionView, results: Seq<StepResultView>, i: int)
    requires
        0 <= i <= results.len(),
        run(s, results).failure is None,
    ensures
        run(s, results.take(i)).failure is None,
    decreases results.len(),
{
    if i == results.len() {
        assert(results.take(i) =~= results);
    } else {
        assert(results.drop_last().take(i) =~= results.take(i));
        lemma_failure_is_kept(s, results.drop_last(), i);
    }
}

/// As long as no step has left an error behind, a delivery stands as many
/// stages from its start as answers were given, until it has ended.
pub proof fn lemma_run_without_failure(s: UnlockSessionView, results: Seq<StepResultView>)
    requires
        run(s, results).failure is None,
    ensures
        results.len() <= steps_left(s.stage) ==> steps_left(run(s, results).stage)
            + results.len() == steps_left(s.stage),
        results.len() >= steps_left(s.stage) ==> run(s, results).stage == Stage::Done,
    decreases results.len(),
{
    if results.len() > 0 {
        lemma_run_without_failure(s, results.drop_last());
    }
}

/// As long as a delivery has neither ended nor come to signal end of
/// input, it stands as many stages from its start as answers were given,
/// and none of them was a failure.
pub proof fn lemma_run_prefix_stages(s: UnlockSessionView, results: Seq<StepResultView>)
    requires
        run(s, results).stage != Stage::Done,
        run(s, results).stage != Stage::SendEof,
    ensures
        steps_left(run(s, results).stage) + results.len() == steps_left(s.stage),
        forall|i: int|
            0 <= i < results.len() ==> stage_failure(
                run(s, results.take(i)).stage,
                #[trigger] results[i],
            ) is None,
    decreases results.len(),
{
    if results.len() > 0 {
        let before = results.drop_last();
        let mid = run(s, before);
        assert(run(s, results) == step(mid, results.last()));
        assert(mid.stage != Stage::Done);
        assert(mid.stage != Stage::SendEof);
        assert(stage_failure(mid.stage, results.last()) is None);
        lemma_run_prefix_stages(s, before);
        assert forall|i: int| 0 <= i < results.len() implies stage_failure(
            run(s, results.take(i)).stage,
            #[trigger] results[i],
        ) is None by {
            if i < before.len() {
                assert(results.take(i) =~= before.take(i));
                assert(results[i] == before[i]);
            } else {
                assert(results.take(i) =~= before);
            }
        }
    }
}

/// Answers change neither whom a delivery is for nor what it carries.
pub proof fn lemma_run_keeps_request(s: UnlockSessionView, results: Seq<StepResultView>)
    ensures
        run(s, results).host == s.host,
        run(s, results).port == s.port,
        run(s, results).key_path == s.key_path,
        run(s, results).passphrase == s.passphrase,
    decreases results.len(),
{
    if results.len() > 0 {
        lemma_run_keeps_request(s, results.drop_last());
    }
}

/// The stage that follows `stage` when its step left an error behind.
pub fn failure_stage(stage: Stage) -> (next: Stage)
    ensures
        next == stage_after_failure(stage),
{
    match stage {
        Stage::RequestPty
        | Stage::RequestShell
        | Stage::AwaitPrompt
        | Stage::SendPassphrase
        | Stage::AwaitDelivery
        | Stage::SendEof => Stage::SendEof,
        _ => Stage::Done,
    }
}

/// The stage that follows `stage` when its step did not fail.
pub fn next_stage(stage: Stage) -> (next: Stage)
    ensures
        next == stage_after(stage),
{
    match stage {
        Stage::LoadKey => Stage::Connect,
        Stage::Connect => Stage::Authenticate,
        Stage::Authenticate => Stage::OpenChannel,
        Stage::OpenChannel => Stage::RequestPty,
        Stage::RequestPty => Stage::RequestShell,
        Stage::RequestShell => Stage::AwaitPrompt,
        Stage::AwaitPrompt => Stage::SendPassphrase,
        Stage::SendPassphrase => Stage::AwaitDelivery,
        Stage::AwaitDelivery => Stage::SendEof,
        Stage::SendEof => Stage::Done,
        Stage::Done => Stage::Done,
    }
}

} // verus!
