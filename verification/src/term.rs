//! The terminal surface: full-screen rendering, the selection marker,
//! and the raw-mode discipline.
//!
//! The terminal is kept in raw input mode so that single keystrokes
//! and escape sequences arrive unbuffered. Writing a whole screen, and
//! password entry, want the ordinary cooked mode back; every such
//! suspension of raw mode must be paired with a reactivation request on
//! every path, including error paths. The pairing is the point proved
//! here: `in_raw_mode` models whether a suspension is pending, each
//! operation's contract says it leaves none behind, and the only
//! places the model changes are beside the corresponding mode calls.

use std::io::Write;
use termion::raw::IntoRawMode;
use vstd::prelude::*;
use vstd::string::StringExecFns;
use crate::client::NetworkList;
use crate::errors::WifiError;
use crate::selection::Selection;

verus! {

/// The decimal digits of `n`, most significant first.
pub open spec fn dec_digits(n: nat) -> Seq<char>
    decreases n,
{
    if n < 10 {
        seq![((48 + n) as u8) as char]
    } else {
        dec_digits(n / 10).push(((48 + n % 10) as u8) as char)
    }
}

/// The control sequence that moves the cursor to column `x` of row
/// `y`, both 1-based.
pub open spec fn goto_seq(x: nat, y: nat) -> Seq<char> {
    seq!['\u{1b}', '['] + dec_digits(y) + seq![';'] + dec_digits(x) + seq!['H']
}

/// The control sequence that clears the whole screen.
pub open spec fn clear_seq() -> Seq<char> {
    seq!['\u{1b}', '[', '2', 'J']
}

/// Holds the raw-mode handle to the process's standard output. Opaque:
/// everything known about the terminal is in `Terminal`'s model.
#[verifier::external_body]
struct RawOutput {
    inner: termion::raw::RawTerminal<std::io::Stdout>,
}

/// Relies on `std::io::stdout` and termion's
/// `IntoRawMode::into_raw_mode`: puts the terminal into raw input mode
/// and hands back the restoring handle.
#[verifier::external_body]
fn raw_output_new() -> (r: Result<RawOutput, String>) {
    match std::io::stdout().into_raw_mode() {
        Ok(inner) => Ok(RawOutput { inner }),
        Err(e) => Err(format!("{}", e)),
    }
}

/// Relies on termion's `RawTerminal::suspend_raw_mode`: restores the
/// terminal attributes saved when raw mode was entered.
#[verifier::external_body]
fn raw_output_suspend(out: &RawOutput) -> (r: Result<(), String>) {
    out.inner.suspend_raw_mode().map_err(|e| format!("{}", e))
}

/// Relies on termion's `RawTerminal::activate_raw_mode`: puts the
/// terminal back into raw input mode.
#[verifier::external_body]
fn raw_output_activate(out: &RawOutput) -> (r: Result<(), String>) {
    out.inner.activate_raw_mode().map_err(|e| format!("{}", e))
}

/// Relies on `write!` through termion's `RawTerminal`, which forwards
/// to the wrapped standard output.
#[verifier::external_body]
fn raw_output_write(out: &mut RawOutput, text: &str) -> (r: Result<(), String>) {
    write!(out.inner, "{}", text).map_err(|e| format!("{}", e))
}

/// Relies on `std::io::Write::flush` through termion's `RawTerminal`.
#[verifier::external_body]
fn raw_output_flush(out: &mut RawOutput) -> (r: Result<(), String>) {
    out.inner.flush().map_err(|e| format!("{}", e))
}

/// Relies on the `Display` impl of `termion::cursor::Goto`: it writes
/// the cursor-position sequence, the row first, in the usual decimal
/// digits.
#[verifier::external_body]
fn goto_text(x: u16, y: u16) -> (r: String)
    requires
        x >= 1,
        y >= 1,
    ensures
        r@ == goto_seq(x as nat, y as nat),
{
    format!("{}", termion::cursor::Goto(x, y))
}

/// Relies on the `Display` impl of `termion::clear::All`: it writes
/// the clear-screen sequence.
#[verifier::external_body]
fn clear_text() -> (r: String)
    ensures
        r@ == clear_seq(),
{
    format!("{}", termion::clear::All)
}

/// The text that paints the selection marker at column 1 of the given
/// 1-based row.
pub fn marker_text(row: u16) -> (r: String)
    requires
        row >= 1,
    ensures
        r@ == goto_seq(1, row as nat) + seq!['>'],
{
    let mut t = goto_text(1, row);
    t.append(">");
    proof {
        reveal_strlit(">");
        assert(t@ =~= goto_seq(1, row as nat) + seq!['>']);
    }
    t
}

/// The text that lifts the marker off one row and paints it on
/// another: a blank over the old marker cell, then the marker.
pub fn move_marker_text(from_row: u16, to_row: u16) -> (r: String)
    requires
        from_row >= 1,
        to_row >= 1,
    ensures
        r@ == goto_seq(1, from_row as nat) + seq![' '] + goto_seq(1, to_row as nat) + seq!['>'],
{
    let mut t = goto_text(1, from_row);
    t.append(" ");
    let rest = marker_text(to_row);
    t.append(rest.as_str());
    proof {
        reveal_strlit(" ");
        assert(t@ =~= goto_seq(1, from_row as nat) + seq![' '] + goto_seq(1, to_row as nat)
            + seq!['>']);
    }
    t
}

/// The text of one full-screen write: clear everything, then `text`
/// from the top-left origin.
pub fn full_screen_text(text: &str) -> (r: String)
    ensures
        r@ == clear_seq() + goto_seq(1, 1) + text@,
{
    let mut t = clear_text();
    t.append(goto_text(1, 1).as_str());
    t.append(text);
    proof {
        assert(t@ =~= clear_seq() + goto_seq(1, 1) + text@);
    }
    t
}

/// The terminal surface. `in_raw_mode` is the library's model of the
/// raw-mode flag: false exactly while a suspension is pending, that
/// is, after a successful suspend whose reactivation has not yet been
/// requested.
pub struct Terminal {
    out: RawOutput,
    suspended: bool,
}

impl Terminal {
    /// No suspension is pending: every successful suspend has been
    /// followed by a reactivation request.
    pub closed spec fn in_raw_mode(&self) -> bool {
        !self.suspended
    }

    /// Takes over the terminal, entering raw input mode.
    pub fn new() -> (r: Result<Terminal, WifiError>)
        ensures
            r matches Ok(t) ==> t.in_raw_mode(),
    {
        match raw_output_new() {
            Ok(out) => Ok(Terminal { out, suspended: false }),
            Err(m) => Err(WifiError::Io(m)),
        }
    }

    /// Writes a full screen: suspends raw mode, clears, writes `text`
    /// from the top-left origin, flushes, and requests raw mode back —
    /// on every path, also when a write in between fails.
    pub fn clear_and_render(&mut self, text: &str) -> (r: Result<(), WifiError>)
        requires
            old(self).in_raw_mode(),
        ensures
            final(self).in_raw_mode(),
    {
        match raw_output_suspend(&self.out) {
            Ok(()) => {
                self.suspended = true;
            },
            Err(m) => {
                // The suspend itself failed: raw mode never left.
                return Err(WifiError::Io(m));
            },
        }
        let screen = full_screen_text(text);
        let wrote = match raw_output_write(&mut self.out, screen.as_str()) {
            Ok(()) => raw_output_flush(&mut self.out),
            Err(m) => Err(m),
        };
        // Request raw mode back whether or not the write went through.
        self.suspended = false;
        let back = raw_output_activate(&self.out);
        match wrote {
            Err(m) => Err(WifiError::Io(m)),
            Ok(()) => match back {
                Err(m) => Err(WifiError::Io(m)),
                Ok(()) => Ok(()),
            },
        }
    }

    /// Paints the selection marker at column 1 of `row` without
    /// clearing anything; raw mode stays on.
    pub fn place_marker(&mut self, row: u16) -> (r: Result<(), WifiError>)
        requires
            old(self).in_raw_mode(),
            row >= 1,
        ensures
            final(self).in_raw_mode(),
    {
        let t = marker_text(row);
        self.write_and_flush(t.as_str())
    }

    /// Moves the selection marker from one row to another: blanks the
    /// old cell, paints the new one; raw mode stays on.
    pub fn move_marker(&mut self, from_row: u16, to_row: u16) -> (r: Result<(), WifiError>)
        requires
            old(self).in_raw_mode(),
            from_row >= 1,
            to_row >= 1,
        ensures
            final(self).in_raw_mode(),
    {
        let t = move_marker_text(from_row, to_row);
        self.write_and_flush(t.as_str())
    }

    /// Switches to cooked line-edit input for password entry. On
    /// failure raw mode is still on.
    pub fn enter_line_edit_mode(&mut self) -> (r: Result<(), WifiError>)
        requires
            old(self).in_raw_mode(),
        ensures
            r is Ok ==> !final(self).in_raw_mode(),
            r is Err ==> final(self).in_raw_mode(),
    {
        match raw_output_suspend(&self.out) {
            Ok(()) => {
                self.suspended = true;
                Ok(())
            },
            Err(m) => Err(WifiError::Io(m)),
        }
    }

    /// Requests raw interactive input back after line editing.
    pub fn resume_interactive_mode(&mut self) -> (r: Result<(), WifiError>)
        requires
            !old(self).in_raw_mode(),
        ensures
            final(self).in_raw_mode(),
    {
        self.suspended = false;
        match raw_output_activate(&self.out) {
            Ok(()) => Ok(()),
            Err(m) => Err(WifiError::Io(m)),
        }
    }

    /// Renders the whole listing and the selection marker: the full
    /// render owed on every entry to Browsing. The marker sits at
    /// column 1 of the highlighted entry's row, under the header line.
    pub fn render_browsing(&mut self, list: &NetworkList, sel: &Selection) -> (r: Result<
        (),
        WifiError,
    >)
        requires
            old(self).in_raw_mode(),
            sel.index + 2 <= u16::MAX,
        ensures
            final(self).in_raw_mode(),
    {
        match self.clear_and_render(list.raw.as_str()) {
            Ok(()) => self.place_marker(sel.index as u16 + 2),
            Err(e) => Err(e),
        }
    }

    /// One raw-mode write followed by a flush; the mode is untouched.
    fn write_and_flush(&mut self, text: &str) -> (r: Result<(), WifiError>)
        ensures
            final(self).in_raw_mode() == old(self).in_raw_mode(),
    {
        match raw_output_write(&mut self.out, text) {
            Ok(()) => match raw_output_flush(&mut self.out) {
                Ok(()) => Ok(()),
                Err(m) => Err(WifiError::Io(m)),
            },
            Err(m) => Err(WifiError::Io(m)),
        }
    }
}

} // verus!
