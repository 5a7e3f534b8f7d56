use vstd::prelude::*;
use crate::addr::{MacAddress, PrinterAddr};
use crate::config::{AppSettings, DirectoryLoadError, ReadD30CliConfigError, persisted_preference};
use crate::directory::DeviceDirectory;
use crate::preview::{decide, decide_spec};
use crate::resolve::{ResolveError, resolve, resolve_spec};

verus! {

/// The transport operations, in their fixed order. Each is an independent
/// failure point, and a failure is surfaced with the step it came from.
#[derive(Clone, Copy, Debug, PartialEq, Eq, Structural)]
pub enum TransportStep {
    Connect,
    WriteInit,
    WritePayload,
    Flush,
}

/// Why a session ended in failure.
#[derive(Clone, Copy, Debug, PartialEq, Eq, Structural)]
pub enum FailureReason {
    Resolve(ResolveError),
    Render,
    ViewerLaunch,
    ConfirmPrompt,
    Transport(TransportStep),
}

/// Where a session stands. A session advances strictly forward; `Done`,
/// `Aborted` and `Failed` are terminal.
#[derive(Clone, Copy, Debug, PartialEq, Eq, Structural)]
pub enum State {
    AddressResolved,
    Rendered,
    PreviewShown,
    Confirmed,
    Connected,
    InitWritten,
    PayloadWritten,
    Sent,
    Done,
    Aborted,
    Failed(FailureReason),
}

/// What the host must perform next on the session's behalf. `Skip` asks
/// for nothing: the state machine advances without outside work.
#[derive(Clone, Copy, Debug, PartialEq, Eq, Structural)]
pub enum Action {
    Render,
    ShowPreview,
    AskConfirm,
    Transport(TransportStep),
    Skip,
    Finish,
}

/// The outcome the host reports for the action it was asked to perform.
#[derive(Clone, Copy, Debug, PartialEq, Eq, Structural)]
pub enum Event {
    Succeeded,
    Failed,
    Answered(bool),
}

/// Whether the session has ended, one way or the other.
pub open spec fn session_over(st: State) -> bool {
    st is Done || st is Aborted || st is Failed
}

/// Whether the session ended without error. An aborted print is a
/// success: printing nothing is not an error.
pub open spec fn session_succeeded(st: State) -> bool {
    st is Done || st is Aborted
}

/// The transport action owed in live mode; in dry-run mode the machine
/// advances without one.
pub open spec fn transport_or_skip(dry_run: bool, t: TransportStep) -> Action {
    if dry_run {
        Action::Skip
    } else {
        Action::Transport(t)
    }
}

/// One end-to-end invocation: the resolved address, the loaded directory
/// (if any), the computed preview flag, the dry-run flag, and where the
/// session stands.
pub struct Session {
    pub addr: MacAddress,
    pub directory: Option<DeviceDirectory>,
    pub show_preview: bool,
    pub dry_run: bool,
    pub state: State,
}

impl Session {
    /// The action owed in each state. Failure states and finished
    /// sessions owe nothing.
    pub open spec fn next_action_spec(self) -> Action {
        match self.state {
            State::AddressResolved => Action::Render,
            State::Rendered => if self.show_preview {
                Action::ShowPreview
            } else {
                transport_or_skip(self.dry_run, TransportStep::Connect)
            },
            State::PreviewShown => Action::AskConfirm,
            State::Confirmed => transport_or_skip(self.dry_run, TransportStep::Connect),
            State::Connected => transport_or_skip(self.dry_run, TransportStep::WriteInit),
            State::InitWritten => transport_or_skip(self.dry_run, TransportStep::WritePayload),
            State::PayloadWritten => transport_or_skip(self.dry_run, TransportStep::Flush),
            State::Sent => Action::Skip,
            State::Done => Action::Finish,
            State::Aborted => Action::Finish,
            State::Failed(_) => Action::Finish,
        }
    }

    /// The transition table: where the session moves when the host
    /// reports `ev` for the action last asked for. An outcome that the
    /// pending action cannot produce leaves the state as it is.
    pub open spec fn step_spec(self, ev: Event) -> State {
        match self.state {
            State::AddressResolved => match ev {
                Event::Succeeded => State::Rendered,
                Event::Failed => State::Failed(FailureReason::Render),
                Event::Answered(_) => self.state,
            },
            State::Rendered => if self.show_preview {
                match ev {
                    Event::Succeeded => State::PreviewShown,
                    Event::Failed => State::Failed(FailureReason::ViewerLaunch),
                    Event::Answered(_) => self.state,
                }
            } else {
                match ev {
                    Event::Succeeded => State::Connected,
                    Event::Failed => State::Failed(
                        FailureReason::Transport(TransportStep::Connect),
                    ),
                    Event::Answered(_) => self.state,
                }
            },
            State::PreviewShown => match ev {
                Event::Answered(yes) => if yes {
                    State::Confirmed
                } else {
                    State::Aborted
                },
                Event::Failed => State::Failed(FailureReason::ConfirmPrompt),
                Event::Succeeded => self.state,
            },
            State::Confirmed => match ev {
                Event::Succeeded => State::Connected,
                Event::Failed => State::Failed(FailureReason::Transport(TransportStep::Connect)),
                Event::Answered(_) => self.state,
            },
            State::Connected => match ev {
                Event::Succeeded => State::InitWritten,
                Event::Failed => State::Failed(
                    FailureReason::Transport(TransportStep::WriteInit),
                ),
                Event::Answered(_) => self.state,
            },
            State::InitWritten => match ev {
                Event::Succeeded => State::PayloadWritten,
                Event::Failed => State::Failed(
                    FailureReason::Transport(TransportStep::WritePayload),
                ),
                Event::Answered(_) => self.state,
            },
            State::PayloadWritten => match ev {
                Event::Succeeded => State::Sent,
                Event::Failed => State::Failed(FailureReason::Transport(TransportStep::Flush)),
                Event::Answered(_) => self.state,
            },
            State::Sent => match ev {
                Event::Succeeded => State::Done,
                Event::Failed => self.state,
                Event::Answered(_) => self.state,
            },
            State::Done => self.state,
            State::Aborted => self.state,
            State::Failed(_) => self.state,
        }
    }

    /// Opens a session: resolves the address and computes the preview
    /// flag. A resolution failure puts the session in a terminal failure
    /// state that carries the exact resolution error.
    pub fn begin(
        user_input: Option<PrinterAddr>,
        directory: Result<DeviceDirectory, DirectoryLoadError>,
        settings: Result<AppSettings, ReadD30CliConfigError>,
        cli_override: Option<bool>,
        dry_run: bool,
    ) -> (s: Session)
        ensures
            s.dry_run == dry_run,
            s.show_preview == decide_spec(cli_override, persisted_preference(settings)),
            match resolve_spec(user_input, directory) {
                Ok(a) => s.state == State::AddressResolved && s.addr == a,
                Err(e) => s.state == State::Failed(FailureReason::Resolve(e)),
            },
            directory matches Ok(d) ==> s.directory == Some(d),
            directory is Err ==> s.directory is None,
    {
        let persisted = match &settings {
            Ok(s) => s.show_preview,
            Err(_) => None,
        };
        let show_preview = decide(cli_override, persisted);
        let resolved = resolve(&user_input, &directory);
        let directory = match directory {
            Ok(d) => Some(d),
            Err(_) => None,
        };
        match resolved {
            Ok(addr) => Session {
                addr,
                directory,
                show_preview,
                dry_run,
                state: State::AddressResolved,
            },
            Err(e) => Session {
                addr: MacAddress { octets: [0u8, 0u8, 0u8, 0u8, 0u8, 0u8] },
                directory,
                show_preview,
                dry_run,
                state: State::Failed(FailureReason::Resolve(e)),
            },
        }
    }

    /// The action owed now.
    pub fn next_action(&self) -> (a: Action)
        ensures
            a == self.next_action_spec(),
    {
        match self.state {
            State::AddressResolved => Action::Render,
            State::Rendered => if self.show_preview {
                Action::ShowPreview
            } else if self.dry_run {
                Action::Skip
            } else {
                Action::Transport(TransportStep::Connect)
            },
            State::PreviewShown => Action::AskConfirm,
            State::Confirmed => if self.dry_run {
                Action::Skip
            } else {
                Action::Transport(TransportStep::Connect)
            },
            State::Connected => if self.dry_run {
                Action::Skip
            } else {
                Action::Transport(TransportStep::WriteInit)
            },
            State::InitWritten => if self.dry_run {
                Action::Skip
            } else {
                Action::Transport(TransportStep::WritePayload)
            },
            State::PayloadWritten => if self.dry_run {
                Action::Skip
            } else {
                Action::Transport(TransportStep::Flush)
            },
            State::Sent => Action::Skip,
            State::Done => Action::Finish,
            State::Aborted => Action::Finish,
            State::Failed(_) => Action::Finish,
        }
    }

    /// Advances the session by one reported outcome. Only the state
    /// moves; the address, directory and flags stay as they were.
    pub fn step(&mut self, ev: Event)
        ensures
            final(self).state == old(self).step_spec(ev),
            final(self).addr == old(self).addr,
            final(self).directory == old(self).directory,
            final(self).show_preview == old(self).show_preview,
            final(self).dry_run == old(self).dry_run,
    {
        let next = match self.state {
            State::AddressResolved => match ev {
                Event::Succeeded => State::Rendered,
                Event::Failed => State::Failed(FailureReason::Render),
                Event::Answered(_) => self.state,
            },
            State::Rendered => if self.show_preview {
                match ev {
                    Event::Succeeded => State::PreviewShown,
                    Event::Failed => State::Failed(FailureReason::ViewerLaunch),
                    Event::Answered(_) => self.state,
                }
            } else {
                match ev {
                    Event::Succeeded => State::Connected,
                    Event::Failed => State::Failed(
                        FailureReason::Transport(TransportStep::Connect),
                    ),
                    Event::Answered(_) => self.state,
                }
            },
            State::PreviewShown => match ev {
                Event::Answered(yes) => if yes {
                    State::Confirmed
                } else {
                    State::Aborted
                },
                Event::Failed => State::Failed(FailureReason::ConfirmPrompt),
                Event::Succeeded => self.state,
            },
            State::Confirmed => match ev {
                Event::Succeeded => State::Connected,
                Event::Failed => State::Failed(FailureReason::Transport(TransportStep::Connect)),
                Event::Answered(_) => self.state,
            },
            State::Connected => match ev {
                Event::Succeeded => State::InitWritten,
                Event::Failed => State::Failed(
                    FailureReason::Transport(TransportStep::WriteInit),
                ),
                Event::Answered(_) => self.state,
            },
            State::InitWritten => match ev {
                Event::Succeeded => State::PayloadWritten,
                Event::Failed => State::Failed(
                    FailureReason::Transport(TransportStep::WritePayload),
                ),
                Event::Answered(_) => self.state,
            },
            State::PayloadWritten => match ev {
                Event::Succeeded => State::Sent,
                Event::Failed => State::Failed(FailureReason::Transport(TransportStep::Flush)),
                Event::Answered(_) => self.state,
            },
            State::Sent => match ev {
                Event::Succeeded => State::Done,
                Event::Failed => self.state,
                Event::Answered(_) => self.state,
            },
            State::Done => self.state,
            State::Aborted => self.state,
            State::Failed(_) => self.state,
        };
        self.state = next;
    }

    /// The outcome that lets the session advance: an affirmative answer
    /// at the confirmation step, plain success everywhere else.
    pub open spec fn favorable_event(self) -> Event {
        if self.state is PreviewShown {
            Event::Answered(true)
        } else {
            Event::Succeeded
        }
    }
}

/// One favorable step of the machine: the state moves, everything else
/// stays.
pub open spec fn advance_ok(s: Session) -> Session {
    Session { state: s.step_spec(s.favorable_event()), ..s }
}

/// `n` favorable steps of the machine.
pub open spec fn run_ok(s: Session, n: nat) -> Session
    decreases n,
{
    if n == 0 {
        s
    } else {
        advance_ok(run_ok(s, (n - 1) as nat))
    }
}

/// In dry-run mode no state ever owes a transport action: connect, the
/// writes and the flush are skipped entirely.
pub proof fn lemma_dry_run_never_transport(s: Session)
    requires
        s.dry_run,
    ensures
        !(s.next_action_spec() is Transport),
{
}

/// Stepping never touches the configuration: the flags a session was
/// opened with hold in every later state.
pub proof fn lemma_run_preserves_flags(s: Session, n: nat)
    ensures
        run_ok(s, n).dry_run == s.dry_run,
        run_ok(s, n).show_preview == s.show_preview,
        run_ok(s, n).addr == s.addr,
    decreases n,
{
    if n > 0 {
        lemma_run_preserves_flags(s, (n - 1) as nat);
    }
}

/// However far a dry-run session has advanced, it owes no transport
/// action at that point either: the whole run goes without connect,
/// writes or flush.
pub proof fn lemma_dry_run_owes_no_transport_ever(s: Session, n: nat)
    requires
        s.dry_run,
    ensures
        !(run_ok(s, n).next_action_spec() is Transport),
{
    lemma_run_preserves_flags(s, n);
    lemma_dry_run_never_transport(run_ok(s, n));
}

/// A dry-run session whose outside work succeeds and whose confirmation
/// is affirmative runs to `Done`: dry-run exercises every state yet (by
/// `lemma_dry_run_owes_no_transport_ever`) asks for no transport work.
pub proof fn lemma_dry_run_reaches_done(s: Session)
    requires
        s.dry_run,
        s.state is AddressResolved,
    ensures
        run_ok(s, 8).state is Done,
{
    let s1 = run_ok(s, 1);
    let s2 = run_ok(s, 2);
    let s3 = run_ok(s, 3);
    let s4 = run_ok(s, 4);
    let s5 = run_ok(s, 5);
    let s6 = run_ok(s, 6);
    let s7 = run_ok(s, 7);
    let s8 = run_ok(s, 8);
    assert(run_ok(s, 0) == s);
    assert(s1 == advance_ok(s));
    assert(s2 == advance_ok(s1));
    assert(s3 == advance_ok(s2));
    assert(s4 == advance_ok(s3));
    assert(s5 == advance_ok(s4));
    assert(s6 == advance_ok(s5));
    assert(s7 == advance_ok(s6));
    assert(s8 == advance_ok(s7));
    assert(s1.state is Rendered);
    if s.show_preview {
        assert(s2.state is PreviewShown);
        assert(s3.state is Confirmed);
        assert(s4.state is Connected);
        assert(s5.state is InitWritten);
        assert(s6.state is PayloadWritten);
        assert(s7.state is Sent);
        assert(s8.state is Done);
    } else {
        assert(s2.state is Connected);
        assert(s3.state is InitWritten);
        assert(s4.state is PayloadWritten);
        assert(s5.state is Sent);
        assert(s6.state is Done);
        assert(s7.state is Done);
        assert(s8.state is Done);
    }
}

/// Answering anything but an explicit yes at the confirmation step ends
/// the session: the state is `Aborted`, which counts as success, owes no
/// further action, and never moves again.
pub proof fn lemma_abort_ends_cleanly(s: Session, later: Event)
    requires
        s.state is PreviewShown,
    ensures
        ({
            let aborted = Session { state: s.step_spec(Event::Answered(false)), ..s };
            &&& aborted.state is Aborted
            &&& session_over(aborted.state)
            &&& session_succeeded(aborted.state)
            &&& aborted.next_action_spec() == Action::Finish
            &&& aborted.step_spec(later) == aborted.state
        }),
{
}

/// Builds the one logical payload of the send step: the device's fixed
/// pre-image marker sequence followed by the packed bytes of the rendered
/// bitmap, in that order, nothing else.
pub fn build_payload(precursor: &Vec<u8>, packed: &Vec<u8>) -> (r: Vec<u8>)
    ensures
        r@ == precursor@ + packed@,
{
    let mut out: Vec<u8> = Vec::new();
    let mut i: usize = 0;
    while i < precursor.len()
        invariant
            0 <= i <= precursor@.len(),
            out@ == precursor@.take(i as int),
        decreases precursor@.len() - i,
    {
        out.push(precursor[i]);
        proof {
            assert(precursor@.take(i as int).push(precursor@[i as int]) =~= precursor@.take(
                i as int + 1,
            ));
        }
        i = i + 1;
    }
    proof {
        assert(precursor@.take(precursor@.len() as int) =~= precursor@);
    }
    let mut j: usize = 0;
    while j < packed.len()
        invariant
            0 <= j <= packed@.len(),
            out@ == precursor@ + packed@.take(j as int),
        decreases packed@.len() - j,
    {
        out.push(packed[j]);
        proof {
            assert((precursor@ + packed@.take(j as int)).push(packed@[j as int]) =~= precursor@
                + packed@.take(j as int + 1));
        }
        j = j + 1;
    }
    proof {
        assert(precursor@ + packed@.take(packed@.len() as int) =~= precursor@ + packed@);
    }
    out
}

/// A session that has ended stays where it is, whatever else is
/// reported.
pub proof fn lemma_terminal_states_stay(s: Session, ev: Event)
    requires
        session_over(s.state),
    ensures
        s.step_spec(ev) == s.state,
{
}

} // verus!
