use wifi_select::client::{authenticate, list_networks, CmdOutput, ConnectOutcome};
use wifi_select::render::outcome_text;
use wifi_select::state::{Action, Controller, KeyEvent, SessionState};

fn scanned_controller() -> Controller {
    let mut c = Controller::new();
    let run = Ok(CmdOutput {
        success: true,
        stdout: b"HEADER\nAA:BB SSID_ONE more cols\nCC:DD SSID_TWO\n".to_vec(),
        stderr: Vec::new(),
    });
    c.apply_scan(list_networks(run).unwrap());
    c
}

#[test]
fn refresh_key_asks_for_exactly_a_rescan() {
    let mut c = scanned_controller();
    let a = c.handle_event(&KeyEvent::Char('r'));
    assert_eq!(a, Action::Rescan);
    assert_eq!(c.state, SessionState::Browsing);
}

#[test]
fn quit_key_in_browsing_quits_without_a_connect() {
    let mut c = scanned_controller();
    let a = c.handle_event(&KeyEvent::Char('q'));
    assert_eq!(a, Action::Quit);
    assert_eq!(c.state, SessionState::Browsing);
}

#[test]
fn escape_in_password_entry_quits_discarding_the_password() {
    let mut c = scanned_controller();
    c.handle_event(&KeyEvent::Enter);
    c.handle_event(&KeyEvent::Char('s'));
    c.handle_event(&KeyEvent::Char('3'));
    let a = c.handle_event(&KeyEvent::Esc);
    assert_eq!(a, Action::Quit);
}

#[test]
fn unrecognized_keys_are_no_ops() {
    let mut c = scanned_controller();
    assert_eq!(c.handle_event(&KeyEvent::Esc), Action::Stay);
    assert_eq!(c.handle_event(&KeyEvent::Other), Action::Stay);
    assert_eq!(c.handle_event(&KeyEvent::Char('x')), Action::Stay);
    assert_eq!(c.state, SessionState::Browsing);
    assert_eq!(c.sel.index, 0);
}

#[test]
fn enter_on_an_empty_list_cannot_proceed() {
    let mut c = Controller::new();
    assert_eq!(c.handle_event(&KeyEvent::Enter), Action::Stay);
    assert_eq!(c.state, SessionState::Browsing);
}

#[test]
fn navigation_on_an_empty_list_is_a_no_op() {
    let mut c = Controller::new();
    assert_eq!(c.handle_event(&KeyEvent::Down), Action::MoveMarker { from: 0, to: 0 });
    assert_eq!(c.handle_event(&KeyEvent::Up), Action::MoveMarker { from: 0, to: 0 });
    assert_eq!(c.sel.index, 0);
}

#[test]
fn rescan_replaces_the_list_wholesale_and_clamps_the_selection() {
    let mut c = scanned_controller();
    c.handle_event(&KeyEvent::Down);
    assert_eq!(c.sel.index, 1);
    let run = Ok(CmdOutput {
        success: true,
        stdout: b"HEADER\nAA:BB ONLY_ONE\n".to_vec(),
        stderr: Vec::new(),
    });
    c.apply_scan(list_networks(run).unwrap());
    assert_eq!(c.networks.ssids, vec!["ONLY_ONE".to_string()]);
    assert_eq!(c.sel.index, 0);
}

#[test]
fn whole_session_from_scan_to_connected() {
    let mut c = scanned_controller();
    assert_eq!(c.networks.len(), 2);
    assert_eq!(c.state, SessionState::Browsing);

    let a = c.handle_event(&KeyEvent::Down);
    assert_eq!(a, Action::MoveMarker { from: 0, to: 1 });

    let a = c.handle_event(&KeyEvent::Enter);
    assert_eq!(a, Action::PromptPassword);
    assert_eq!(
        c.state,
        SessionState::EnteringPassword {
            ssid: "SSID_TWO".to_string(),
            partial_password: String::new(),
        }
    );

    for ch in "hunter2".chars() {
        assert_eq!(c.handle_event(&KeyEvent::Char(ch)), Action::Stay);
    }
    let a = c.handle_event(&KeyEvent::Enter);
    let (ssid, password) = match a {
        Action::Connect { ssid, password } => (ssid, password),
        other => panic!("expected a connect action, got {:?}", other),
    };
    assert_eq!(ssid, "SSID_TWO");
    assert_eq!(password, "hunter2");
    assert_eq!(
        c.state,
        SessionState::Connecting { ssid: "SSID_TWO".to_string(), password: "hunter2".to_string() }
    );

    let run = Ok(CmdOutput { success: true, stdout: b"Connected.\n".to_vec(), stderr: Vec::new() });
    let outcome = authenticate(run).unwrap();
    assert_eq!(outcome, ConnectOutcome::Connected("Connected.\n".to_string()));
    c.complete_connect(outcome);
    let outcome = match &c.state {
        SessionState::Finished { outcome } => outcome,
        other => panic!("expected a finished session, got {:?}", other),
    };
    assert_eq!(
        outcome_text("SSID_TWO", outcome),
        "You are connected to SSID_TWO\nCommand Output:\nConnected.\n"
    );
}

#[test]
fn events_after_connecting_are_ignored() {
    let mut c = scanned_controller();
    c.handle_event(&KeyEvent::Enter);
    c.handle_event(&KeyEvent::Enter);
    assert_eq!(c.handle_event(&KeyEvent::Char('q')), Action::Stay);
}
