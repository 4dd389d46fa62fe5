use wifi_select::client::ConnectOutcome;
use wifi_select::render::{connected_text, failed_text, outcome_text, prompt_text};
use wifi_select::term::{full_screen_text, marker_text, move_marker_text};

#[test]
fn full_screen_clears_then_writes_from_the_origin() {
    assert_eq!(full_screen_text("hello"), "\x1b[2J\x1b[1;1Hhello");
}

#[test]
fn marker_goes_to_column_one_of_the_given_row() {
    assert_eq!(marker_text(2), "\x1b[2;1H>");
    assert_eq!(marker_text(12), "\x1b[12;1H>");
}

#[test]
fn moving_the_marker_blanks_the_old_row_first() {
    assert_eq!(move_marker_text(2, 3), "\x1b[2;1H \x1b[3;1H>");
}

#[test]
fn prompt_names_the_chosen_network() {
    assert_eq!(prompt_text("SSID_TWO"), "CONNECTING\nSSID: SSID_TWO\nPassword: ");
}

#[test]
fn connected_screen_carries_the_command_output() {
    assert_eq!(
        connected_text("NET", "done\n"),
        "You are connected to NET\nCommand Output:\ndone\n"
    );
}

#[test]
fn failed_screen_carries_the_diagnostic() {
    assert_eq!(
        failed_text("Secrets were required...\n"),
        "The connect command reported an error:\nSecrets were required...\n"
    );
}

#[test]
fn outcome_screen_matches_the_outcome() {
    let ok = ConnectOutcome::Connected("fine\n".to_string());
    let bad = ConnectOutcome::Failed("no\n".to_string());
    assert_eq!(outcome_text("A", &ok), "You are connected to A\nCommand Output:\nfine\n");
    assert_eq!(outcome_text("A", &bad), "The connect command reported an error:\nno\n");
}
