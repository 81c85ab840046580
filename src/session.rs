//! Installing an app bundle on a physical device: a transfer, then an install, each in a
//! session of its own that is always closed. The installer hands out one call of the device
//! management service at a time and takes back its answer, so that the protocol is a state
//! machine whose runs can be reasoned about.

use vstd::prelude::*;

use crate::error::DeployError;
use crate::native::{translate, translated, NativeError};

verus! {

/// A request to the device management service, for the device being worked on.
#[derive(Clone, Copy, Debug, PartialEq, Eq, Structural)]
pub enum DeviceCall {
    Connect,
    IsPaired,
    ValidatePairing,
    StartSession,
    SecureTransferPath,
    SecureInstallApplication,
    StopSession,
    Disconnect,
}

/// The two phases of an install on a physical device, each in a session of its own.
#[derive(Clone, Copy, Debug, PartialEq, Eq, Structural)]
pub enum Phase {
    Transfer,
    Install,
}

/// Why a session, or the work done in it, failed.
#[derive(Clone, Copy, Debug, PartialEq, Eq, Structural)]
pub enum SessionFailure {
    Native(NativeError),
    Untrusted,
}

/// Where an install on a physical device stands. Each state but `Finished` waits for the
/// answer to one call.
#[derive(Clone, Copy, Debug, PartialEq, Eq, Structural)]
pub enum InstallState {
    Connecting(Phase),
    CheckingPairing(Phase),
    ValidatingPairing(Phase),
    StartingSession(Phase),
    Working(Phase),
    Stopping(Phase, Option<SessionFailure>),
    Disconnecting(Phase, Option<SessionFailure>),
    Finished(Option<SessionFailure>),
}

/// The call whose answer a state waits for.
pub open spec fn pending_call(s: InstallState) -> Option<DeviceCall> {
    match s {
        InstallState::Connecting(_) => Some(DeviceCall::Connect),
        InstallState::CheckingPairing(_) => Some(DeviceCall::IsPaired),
        InstallState::ValidatingPairing(_) => Some(DeviceCall::ValidatePairing),
        InstallState::StartingSession(_) => Some(DeviceCall::StartSession),
        InstallState::Working(Phase::Transfer) => Some(DeviceCall::SecureTransferPath),
        InstallState::Working(Phase::Install) => Some(DeviceCall::SecureInstallApplication),
        InstallState::Stopping(_, _) => Some(DeviceCall::StopSession),
        InstallState::Disconnecting(_, _) => Some(DeviceCall::Disconnect),
        InstallState::Finished(_) => None,
    }
}

/// The failure that a non-zero status stands for.
pub open spec fn status_failure(code: i32) -> Option<SessionFailure> {
    match translated(code) {
        Ok(_) => None,
        Err(e) => Some(SessionFailure::Native(e)),
    }
}

/// After a step of the session that failed or succeeded with `code`: on failure, close the
/// session; on success, go on to `next`.
pub open spec fn after_status(p: Phase, code: i32, next: InstallState) -> InstallState {
    if code == 0 {
        next
    } else {
        InstallState::Stopping(p, status_failure(code))
    }
}

/// The state that follows `s` once its call has been answered with `reply`. A connection that
/// fails leaves nothing to close; every later failure closes the session first, and the
/// answers of the two closing calls are ignored.
pub open spec fn next_state(s: InstallState, reply: i32) -> InstallState {
    match s {
        InstallState::Connecting(p) => if reply == 0 {
            InstallState::CheckingPairing(p)
        } else {
            InstallState::Finished(status_failure(reply))
        },
        InstallState::CheckingPairing(p) => if reply == 0 {
            InstallState::Stopping(p, Some(SessionFailure::Untrusted))
        } else {
            InstallState::ValidatingPairing(p)
        },
        InstallState::ValidatingPairing(p) => after_status(p, reply, InstallState::StartingSession(p)),
        InstallState::StartingSession(p) => after_status(p, reply, InstallState::Working(p)),
        InstallState::Working(p) => InstallState::Stopping(p, status_failure(reply)),
        InstallState::Stopping(p, f) => InstallState::Disconnecting(p, f),
        InstallState::Disconnecting(p, f) => match (f, p) {
            (None, Phase::Transfer) => InstallState::Connecting(Phase::Install),
            _ => InstallState::Finished(f),
        },
        InstallState::Finished(f) => InstallState::Finished(f),
    }
}

/// The state after the answers `replies`, one for each call, beginning in `s`.
pub open spec fn run(s: InstallState, replies: Seq<i32>) -> InstallState
    decreases replies.len(),
{
    if replies.len() == 0 || s is Finished {
        s
    } else {
        run(next_state(s, replies[0]), replies.drop_first())
    }
}

/// The calls made, beginning in `s`, when they are answered with `replies` in turn.
pub open spec fn calls(s: InstallState, replies: Seq<i32>) -> Seq<DeviceCall>
    decreases replies.len(),
{
    match pending_call(s) {
        None => Seq::empty(),
        Some(c) => if replies.len() == 0 {
            seq![c]
        } else {
            seq![c] + calls(next_state(s, replies[0]), replies.drop_first())
        },
    }
}

/// How often `c` occurs in `cs`.
pub open spec fn count_calls(cs: Seq<DeviceCall>, c: DeviceCall) -> nat
    decreases cs.len(),
{
    if cs.len() == 0 {
        0
    } else {
        (if cs[0] == c { 1nat } else { 0nat }) + count_calls(cs.drop_first(), c)
    }
}

/// How many sessions were opened: the connections that were answered with success.
pub open spec fn sessions_opened(cs: Seq<DeviceCall>, replies: Seq<i32>) -> nat
    decreases cs.len(),
{
    if cs.len() == 0 || replies.len() == 0 {
        0
    } else {
        (if cs[0] == DeviceCall::Connect && replies[0] == 0 { 1nat } else { 0nat })
            + sessions_opened(cs.drop_first(), replies.drop_first())
    }
}

/// Whether every stop call in `cs` is followed at once by a disconnect call.
pub open spec fn stops_then_disconnects(cs: Seq<DeviceCall>) -> bool {
    forall|i: int|
        0 <= i < cs.len() && #[trigger] cs[i] == DeviceCall::StopSession
            ==> i + 1 < cs.len() && cs[i + 1] == DeviceCall::Disconnect
}

/// The state in which an install on a physical device begins.
pub open spec fn install_start() -> InstallState {
    InstallState::Connecting(Phase::Transfer)
}

/// Whether `s` holds a session whose stop call has not been made yet.
pub open spec fn owes_stop(s: InstallState) -> bool {
    match s {
        InstallState::CheckingPairing(_) | InstallState::ValidatingPairing(_)
        | InstallState::StartingSession(_) | InstallState::Working(_)
        | InstallState::Stopping(_, _) => true,
        _ => false,
    }
}

/// Whether `s` holds a connection whose disconnect call has not been made yet.
pub open spec fn owes_disconnect(s: InstallState) -> bool {
    owes_stop(s) || s is Disconnecting
}

proof fn lemma_calls_step(s: InstallState, replies: Seq<i32>)
    requires
        !(s is Finished),
        replies.len() > 0,
    ensures
        calls(s, replies).len() > 0,
        calls(s, replies)[0] == pending_call(s).unwrap(),
        calls(s, replies).drop_first() == calls(next_state(s, replies[0]), replies.drop_first()),
{
    let c = pending_call(s).unwrap();
    let tail = calls(next_state(s, replies[0]), replies.drop_first());
    assert((seq![c] + tail).drop_first() =~= tail);
}

proof fn lemma_owed_step(s: InstallState, reply: i32)
    requires
        !(s is Finished),
    ensures
        (if pending_call(s) == Some(DeviceCall::StopSession) { 1nat } else { 0nat })
            + (if owes_stop(next_state(s, reply)) { 1nat } else { 0nat })
            == (if pending_call(s) == Some(DeviceCall::Connect) && reply == 0 { 1nat } else { 0nat })
            + (if owes_stop(s) { 1nat } else { 0nat }),
        (if pending_call(s) == Some(DeviceCall::Disconnect) { 1nat } else { 0nat })
            + (if owes_disconnect(next_state(s, reply)) { 1nat } else { 0nat })
            == (if pending_call(s) == Some(DeviceCall::Connect) && reply == 0 { 1nat } else { 0nat })
            + (if owes_disconnect(s) { 1nat } else { 0nat }),
        pending_call(s) == Some(DeviceCall::StopSession) ==> next_state(s, reply) is Disconnecting,
{
}

proof fn lemma_sessions_closed_from(s: InstallState, replies: Seq<i32>)
    requires
        run(s, replies) is Finished,
    ensures
        count_calls(calls(s, replies), DeviceCall::StopSession)
            == sessions_opened(calls(s, replies), replies) + (if owes_stop(s) { 1nat } else { 0nat }),
        count_calls(calls(s, replies), DeviceCall::Disconnect)
            == sessions_opened(calls(s, replies), replies) + (if owes_disconnect(s) { 1nat } else { 0nat }),
        stops_then_disconnects(calls(s, replies)),
    decreases replies.len(),
{
    if s is Finished {
        assert(calls(s, replies) =~= Seq::empty());
    } else if replies.len() == 0 {
        assert(false);
    } else {
        let next = next_state(s, replies[0]);
        let rest = replies.drop_first();
        lemma_sessions_closed_from(next, rest);
        lemma_calls_step(s, replies);
        lemma_owed_step(s, replies[0]);
        let cs = calls(s, replies);
        let tail = calls(next, rest);
        assert(cs.drop_first() == tail);
        assert(count_calls(cs, DeviceCall::StopSession)
            == (if cs[0] == DeviceCall::StopSession { 1nat } else { 0nat }) + count_calls(tail, DeviceCall::StopSession));
        assert(count_calls(cs, DeviceCall::Disconnect)
            == (if cs[0] == DeviceCall::Disconnect { 1nat } else { 0nat }) + count_calls(tail, DeviceCall::Disconnect));
        assert(sessions_opened(cs, replies)
            == (if cs[0] == DeviceCall::Connect && replies[0] == 0 { 1nat } else { 0nat }) + sessions_opened(tail, rest));
        if cs[0] == DeviceCall::StopSession {
            assert(!(next is Finished));
            if rest.len() == 0 {
                assert(run(next, rest) == next);
            }
            lemma_calls_step(next, rest);
        }
        assert forall|i: int|
            0 <= i < cs.len() && #[trigger] cs[i] == DeviceCall::StopSession
                implies i + 1 < cs.len() && cs[i + 1] == DeviceCall::Disconnect by {
            if i > 0 {
                assert(cs[i] == tail[i - 1]);
                assert(cs[i + 1] == tail[i]);
            }
        }
    }
}

/// Every session that an install opens is closed: the stop call and the disconnect call are
/// each made once for every connection that succeeded, whatever the outcome, and each stop is
/// followed at once by its disconnect.
pub proof fn lemma_every_session_closed(replies: Seq<i32>)
    requires
        run(install_start(), replies) is Finished,
    ensures
        count_calls(calls(install_start(), replies), DeviceCall::StopSession)
            == sessions_opened(calls(install_start(), replies), replies),
        count_calls(calls(install_start(), replies), DeviceCall::Disconnect)
            == sessions_opened(calls(install_start(), replies), replies),
        stops_then_disconnects(calls(install_start(), replies)),
{
    lemma_sessions_closed_from(install_start(), replies);
}

/// How many transfers succeeded: the transfer calls that were answered with success.
pub open spec fn transfers_succeeded(cs: Seq<DeviceCall>, replies: Seq<i32>) -> nat
    decreases cs.len(),
{
    if cs.len() == 0 || replies.len() == 0 {
        0
    } else {
        (if cs[0] == DeviceCall::SecureTransferPath && replies[0] == 0 { 1nat } else { 0nat })
            + transfers_succeeded(cs.drop_first(), replies.drop_first())
    }
}

/// Whether `s` may still make the install call, the transfer having succeeded.
pub open spec fn install_owed(s: InstallState) -> bool {
    match s {
        InstallState::Stopping(Phase::Transfer, None) | InstallState::Disconnecting(Phase::Transfer, None)
        | InstallState::Connecting(Phase::Install) | InstallState::CheckingPairing(Phase::Install)
        | InstallState::ValidatingPairing(Phase::Install) | InstallState::StartingSession(Phase::Install)
        | InstallState::Working(Phase::Install) => true,
        _ => false,
    }
}

proof fn lemma_install_owed_step(s: InstallState, reply: i32)
    requires
        !(s is Finished),
    ensures
        (if pending_call(s) == Some(DeviceCall::SecureInstallApplication) { 1nat } else { 0nat })
            + (if install_owed(next_state(s, reply)) { 1nat } else { 0nat })
            <= (if pending_call(s) == Some(DeviceCall::SecureTransferPath) && reply == 0 { 1nat } else { 0nat })
            + (if install_owed(s) { 1nat } else { 0nat }),
{
}

proof fn lemma_install_after_transfer_from(s: InstallState, replies: Seq<i32>)
    ensures
        count_calls(calls(s, replies), DeviceCall::SecureInstallApplication)
            <= transfers_succeeded(calls(s, replies), replies) + (if install_owed(s) { 1nat } else { 0nat }),
    decreases replies.len(),
{
    let cs = calls(s, replies);
    if s is Finished {
        assert(cs =~= Seq::empty());
    } else if replies.len() == 0 {
        assert(cs =~= seq![pending_call(s).unwrap()]);
        assert(cs.drop_first() =~= Seq::empty());
        assert(count_calls(cs.drop_first(), DeviceCall::SecureInstallApplication) == 0);
        assert(count_calls(cs, DeviceCall::SecureInstallApplication)
            == (if cs[0] == DeviceCall::SecureInstallApplication { 1nat } else { 0nat }));
        if cs[0] == DeviceCall::SecureInstallApplication {
            assert(s == InstallState::Working(Phase::Install));
        }
    } else {
        let next = next_state(s, replies[0]);
        let rest = replies.drop_first();
        lemma_install_after_transfer_from(next, rest);
        lemma_calls_step(s, replies);
        lemma_install_owed_step(s, replies[0]);
        let tail = calls(next, rest);
        assert(count_calls(cs, DeviceCall::SecureInstallApplication)
            == (if cs[0] == DeviceCall::SecureInstallApplication { 1nat } else { 0nat })
            + count_calls(tail, DeviceCall::SecureInstallApplication));
        assert(transfers_succeeded(cs, replies)
            == (if cs[0] == DeviceCall::SecureTransferPath && replies[0] == 0 { 1nat } else { 0nat })
            + transfers_succeeded(tail, rest));
    }
}

/// The install phase comes only after a transfer that succeeded: an install never makes more
/// install calls than it had successful transfers, whatever the answers.
pub proof fn lemma_install_only_after_transfer(replies: Seq<i32>)
    ensures
        count_calls(calls(install_start(), replies), DeviceCall::SecureInstallApplication)
            <= transfers_succeeded(calls(install_start(), replies), replies),
{
    lemma_install_after_transfer_from(install_start(), replies);
}

fn failure_of(code: i32) -> (r: Option<SessionFailure>)
    ensures
        r == status_failure(code),
{
    match translate(code) {
        Ok(_) => None,
        Err(e) => Some(SessionFailure::Native(e)),
    }
}

/// The state that follows `s` once its call has been answered with `reply`.
pub fn advance(s: InstallState, reply: i32) -> (r: InstallState)
    ensures
        r == next_state(s, reply),
{
    match s {
        InstallState::Connecting(p) => if reply == 0 {
            InstallState::CheckingPairing(p)
        } else {
            InstallState::Finished(failure_of(reply))
        },
        InstallState::CheckingPairing(p) => if reply == 0 {
            InstallState::Stopping(p, Some(SessionFailure::Untrusted))
        } else {
            InstallState::ValidatingPairing(p)
        },
        InstallState::ValidatingPairing(p) => if reply == 0 {
            InstallState::StartingSession(p)
        } else {
            InstallState::Stopping(p, failure_of(reply))
        },
        InstallState::StartingSession(p) => if reply == 0 {
            InstallState::Working(p)
        } else {
            InstallState::Stopping(p, failure_of(reply))
        },
        InstallState::Working(p) => InstallState::Stopping(p, failure_of(reply)),
        InstallState::Stopping(p, f) => InstallState::Disconnecting(p, f),
        InstallState::Disconnecting(p, f) => match (f, p) {
            (None, Phase::Transfer) => InstallState::Connecting(Phase::Install),
            _ => InstallState::Finished(f),
        },
        InstallState::Finished(f) => InstallState::Finished(f),
    }
}

/// The call whose answer `s` waits for.
pub fn call_for(s: InstallState) -> (r: Option<DeviceCall>)
    ensures
        r == pending_call(s),
{
    match s {
        InstallState::Connecting(_) => Some(DeviceCall::Connect),
        InstallState::CheckingPairing(_) => Some(DeviceCall::IsPaired),
        InstallState::ValidatingPairing(_) => Some(DeviceCall::ValidatePairing),
        InstallState::StartingSession(_) => Some(DeviceCall::StartSession),
        InstallState::Working(Phase::Transfer) => Some(DeviceCall::SecureTransferPath),
        InstallState::Working(Phase::Install) => Some(DeviceCall::SecureInstallApplication),
        InstallState::Stopping(_, _) => Some(DeviceCall::StopSession),
        InstallState::Disconnecting(_, _) => Some(DeviceCall::Disconnect),
        InstallState::Finished(_) => None,
    }
}

/// The error that a session failure is reported with.
pub open spec fn failure_error(f: SessionFailure) -> DeployError {
    match f {
        SessionFailure::Native(e) => DeployError::Native(e),
        SessionFailure::Untrusted => DeployError::UntrustedDevice,
    }
}

/// An install of an app bundle on a physical device: a transfer in one session, then an
/// install in a fresh one. The caller makes each call that it hands out and passes back the
/// answer.
pub struct DeviceInstall {
    pub state: InstallState,
}

impl DeviceInstall {
    /// Begins an install, once the caller has looked at the bundle on disk. A bundle that is
    /// missing or not a directory fails at once, before any call is made.
    pub fn start(bundle_path: &String, bundle_is_dir: bool) -> (r: Result<(DeviceInstall, DeviceCall), DeployError>)
        ensures
            bundle_is_dir ==> r == Ok::<(DeviceInstall, DeviceCall), DeployError>(
                (DeviceInstall { state: install_start() }, DeviceCall::Connect),
            ),
            !bundle_is_dir ==> (match r {
                Err(DeployError::BundleNotFound { path }) => path@ == bundle_path@,
                _ => false,
            }),
    {
        if !bundle_is_dir {
            return Err(DeployError::BundleNotFound { path: bundle_path.clone() });
        }
        Ok((DeviceInstall { state: InstallState::Connecting(Phase::Transfer) }, DeviceCall::Connect))
    }

    /// Takes the answer to the last call handed out, and hands out the next call, if any.
    pub fn resume(&mut self, reply: i32) -> (r: Option<DeviceCall>)
        ensures
            final(self).state == next_state(old(self).state, reply),
            r == pending_call(final(self).state),
    {
        self.state = advance(self.state, reply);
        call_for(self.state)
    }

    /// The outcome, once no call is left to make.
    pub fn outcome(&self) -> (r: Option<Result<(), DeployError>>)
        ensures
            match self.state {
                InstallState::Finished(None) => r == Some(Ok::<(), DeployError>(())),
                InstallState::Finished(Some(f)) => r == Some(Err::<(), DeployError>(failure_error(f))),
                _ => r is None,
            },
    {
        match self.state {
            InstallState::Finished(None) => Some(Ok(())),
            InstallState::Finished(Some(SessionFailure::Native(e))) => Some(Err(DeployError::Native(e))),
            InstallState::Finished(Some(SessionFailure::Untrusted)) => Some(Err(DeployError::UntrustedDevice)),
            _ => None,
        }
    }
}

} // verus!
