use d30_cli::addr::{MacAddress, PrinterAddr};
use d30_cli::config::{AppSettings, DirectoryLoadError, ReadD30CliConfigError};
use d30_cli::directory::{DeviceDirectory, DirectoryEntry};
use d30_cli::resolve::ResolveError;
use d30_cli::session::{
    Action, Event, FailureReason, Session, State, TransportStep, build_payload,
};

fn mac(octets: [u8; 6]) -> MacAddress {
    MacAddress { octets }
}

fn loaded_directory() -> Result<DeviceDirectory, DirectoryLoadError> {
    Ok(DeviceDirectory {
        default: PrinterAddr::MacAddress(mac([1, 2, 3, 4, 5, 6])),
        entries: vec![DirectoryEntry {
            name: String::from("office"),
            addr: mac([0xAA, 0xBB, 0xCC, 0xDD, 0xEE, 0xFF]),
        }],
    })
}

fn no_settings() -> Result<AppSettings, ReadD30CliConfigError> {
    Err(ReadD30CliConfigError::CouldNotReadFile)
}

/// Drives a session to its end, answering the confirmation prompt with
/// `confirm` and failing the given transport step (if any); returns the
/// transport steps that were actually requested.
fn drive(session: &mut Session, confirm: bool, fail_at: Option<TransportStep>) -> Vec<TransportStep> {
    let mut transports = Vec::new();
    let mut guard = 0;
    loop {
        guard += 1;
        assert!(guard < 100, "session did not terminate");
        match session.next_action() {
            Action::Finish => return transports,
            Action::AskConfirm => session.step(Event::Answered(confirm)),
            Action::Transport(t) => {
                transports.push(t);
                if fail_at == Some(t) {
                    session.step(Event::Failed);
                } else {
                    session.step(Event::Succeeded);
                }
            }
            Action::Render | Action::ShowPreview | Action::Skip => {
                session.step(Event::Succeeded)
            }
        }
    }
}

#[test]
fn begin_resolves_and_computes_preview() {
    let s = Session::begin(
        None,
        loaded_directory(),
        Ok(AppSettings { show_preview: Some(true) }),
        None,
        false,
    );
    assert!(matches!(s.state, State::AddressResolved));
    assert_eq!(s.addr, mac([1, 2, 3, 4, 5, 6]));
    assert!(s.show_preview);
    assert!(!s.dry_run);
}

#[test]
fn begin_carries_resolution_failure() {
    let s = Session::begin(
        Some(PrinterAddr::Name(String::from("office"))),
        Err(DirectoryLoadError::CouldNotReadFile),
        no_settings(),
        None,
        false,
    );
    assert!(matches!(
        s.state,
        State::Failed(FailureReason::Resolve(ResolveError::DirectoryUnavailable))
    ));
}

#[test]
fn live_session_sends_all_four_transport_steps() {
    let mut s = Session::begin(None, loaded_directory(), no_settings(), None, false);
    let transports = drive(&mut s, true, None);
    assert!(matches!(s.state, State::Done));
    assert_eq!(
        transports,
        vec![
            TransportStep::Connect,
            TransportStep::WriteInit,
            TransportStep::WritePayload,
            TransportStep::Flush,
        ],
    );
}

#[test]
fn dry_run_reaches_done_without_transport() {
    let mut s = Session::begin(None, loaded_directory(), no_settings(), Some(true), true);
    assert!(s.show_preview);
    let transports = drive(&mut s, true, None);
    assert!(matches!(s.state, State::Done));
    assert!(transports.is_empty());
}

#[test]
fn dry_run_without_preview_also_reaches_done() {
    let mut s = Session::begin(None, loaded_directory(), no_settings(), None, true);
    assert!(!s.show_preview);
    let transports = drive(&mut s, true, None);
    assert!(matches!(s.state, State::Done));
    assert!(transports.is_empty());
}

#[test]
fn declined_confirmation_aborts_without_transport() {
    let mut s = Session::begin(
        None,
        loaded_directory(),
        no_settings(),
        Some(true),
        false,
    );
    let transports = drive(&mut s, false, None);
    assert!(matches!(s.state, State::Aborted));
    assert!(transports.is_empty());
}

#[test]
fn each_transport_step_is_its_own_failure_point() {
    for step in [
        TransportStep::Connect,
        TransportStep::WriteInit,
        TransportStep::WritePayload,
        TransportStep::Flush,
    ] {
        let mut s = Session::begin(None, loaded_directory(), no_settings(), None, false);
        drive(&mut s, true, Some(step));
        assert!(matches!(
            s.state,
            State::Failed(FailureReason::Transport(t)) if t == step
        ));
    }
}

#[test]
fn render_failure_fails_the_session() {
    let mut s = Session::begin(None, loaded_directory(), no_settings(), None, false);
    assert!(matches!(s.next_action(), Action::Render));
    s.step(Event::Failed);
    assert!(matches!(s.state, State::Failed(FailureReason::Render)));
    assert!(matches!(s.next_action(), Action::Finish));
}

#[test]
fn viewer_failure_fails_the_session() {
    let mut s = Session::begin(None, loaded_directory(), no_settings(), Some(true), false);
    s.step(Event::Succeeded);
    assert!(matches!(s.state, State::Rendered));
    assert!(matches!(s.next_action(), Action::ShowPreview));
    s.step(Event::Failed);
    assert!(matches!(s.state, State::Failed(FailureReason::ViewerLaunch)));
}

#[test]
fn prompt_failure_fails_the_session() {
    let mut s = Session::begin(None, loaded_directory(), no_settings(), Some(true), false);
    s.step(Event::Succeeded);
    s.step(Event::Succeeded);
    assert!(matches!(s.state, State::PreviewShown));
    assert!(matches!(s.next_action(), Action::AskConfirm));
    s.step(Event::Failed);
    assert!(matches!(s.state, State::Failed(FailureReason::ConfirmPrompt)));
}

#[test]
fn terminal_states_never_move() {
    let mut s = Session::begin(None, loaded_directory(), no_settings(), Some(true), false);
    drive(&mut s, false, None);
    assert!(matches!(s.state, State::Aborted));
    s.step(Event::Succeeded);
    s.step(Event::Failed);
    s.step(Event::Answered(true));
    assert!(matches!(s.state, State::Aborted));
}

#[test]
fn payload_is_precursor_then_packed_bytes() {
    let precursor = vec![31u8, 17, 36, 0];
    let packed = vec![0xF0u8, 0x0F, 0xAA];
    let payload = build_payload(&precursor, &packed);
    assert_eq!(payload, vec![31u8, 17, 36, 0, 0xF0, 0x0F, 0xAA]);
}

#[test]
fn payload_of_empty_image_is_just_the_precursor() {
    let precursor = vec![31u8, 17, 36, 0];
    let packed: Vec<u8> = Vec::new();
    let payload = build_payload(&precursor, &packed);
    assert_eq!(payload, precursor);
}
