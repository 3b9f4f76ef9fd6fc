//! The in-place rendering protocol of the menu.
//!
//! Every redraw is one string: reposition the cursor to a fixed offset from
//! the anchor row, save the cursor, rewrite the header and the whole option
//! list (the selected entry marked and coloured, the others plain), then
//! restore the cursor — so a redraw replaces the previous frame in place
//! instead of scrolling. The ANSI encodings of the cursor commands and of
//! the colour come from the terminal crates behind trusted wrappers; the
//! frame is assembled and specified here.

use vstd::prelude::*;
use vstd::string::StringExecFns;
use owo_colors::OwoColorize;

verus! {

/// The character a decimal digit prints as.
pub open spec fn dec_digit(d: int) -> char {
    if d == 0 {
        '0'
    } else if d == 1 {
        '1'
    } else if d == 2 {
        '2'
    } else if d == 3 {
        '3'
    } else if d == 4 {
        '4'
    } else if d == 5 {
        '5'
    } else if d == 6 {
        '6'
    } else if d == 7 {
        '7'
    } else if d == 8 {
        '8'
    } else {
        '9'
    }
}

/// The decimal rendering of `n`, most significant digit first, no leading
/// zeros.
pub open spec fn dec_rep(n: nat) -> Seq<char>
    decreases n,
{
    if n < 10 {
        seq![dec_digit(n as int)]
    } else {
        dec_rep(n / 10) + seq![dec_digit((n % 10) as int)]
    }
}

/// The ANSI sequence that puts the cursor at (`col`, `row`), both
/// zero-based: escape, bracket, one-based row, semicolon, one-based
/// column, `H`.
pub open spec fn ansi_move_to(col: nat, row: nat) -> Seq<char> {
    "\u{1b}["@ + dec_rep(row + 1) + ";"@ + dec_rep(col + 1) + "H"@
}

/// The ANSI sequence that saves the cursor position.
pub open spec fn ansi_save() -> Seq<char> {
    "\u{1b}7"@
}

/// The ANSI sequence that restores the saved cursor position.
pub open spec fn ansi_restore() -> Seq<char> {
    "\u{1b}8"@
}

/// `s` wrapped in the ANSI codes for green foreground and default
/// foreground.
pub open spec fn green_wrap(s: Seq<char>) -> Seq<char> {
    "\u{1b}[32m"@ + s + "\u{1b}[39m"@
}

/// Relies on `crossterm::cursor::MoveTo`'s `Display` impl: it writes
/// `ESC [`, the one-based row, `;`, the one-based column, `H`, with the
/// numbers in decimal. The bounds keep the crate's internal `+ 1` from
/// overflowing.
#[verifier::external_body]
fn move_to_ansi(col: u16, row: u16) -> (r: String)
    requires
        col < u16::MAX,
        row < u16::MAX,
    ensures
        r@ == ansi_move_to(col as nat, row as nat),
{
    format!("{}", crossterm::cursor::MoveTo(col, row))
}

/// Relies on `crossterm::cursor::SavePosition`'s `Display` impl: it writes
/// `ESC 7`.
#[verifier::external_body]
fn save_position_ansi() -> (r: String)
    ensures
        r@ == ansi_save(),
{
    format!("{}", crossterm::cursor::SavePosition)
}

/// Relies on `crossterm::cursor::RestorePosition`'s `Display` impl: it
/// writes `ESC 8`.
#[verifier::external_body]
fn restore_position_ansi() -> (r: String)
    ensures
        r@ == ansi_restore(),
{
    format!("{}", crossterm::cursor::RestorePosition)
}

/// Relies on `owo_colors`: the `Display` impl of a green foreground writes
/// the green ANSI code, the text unchanged, and the default-foreground
/// code.
#[verifier::external_body]
fn green_ansi(text: &str) -> (r: String)
    ensures
        r@ == green_wrap(text@),
{
    format!("{}", text.green())
}

/// The line the menu prints above the options.
pub open spec fn header_text() -> Seq<char> {
    "Please select an option below using arrow keys (or `j` and `k`):"@
}

/// The line rendering the option `opt` at terminal row `row`: reposition,
/// a space, then the entry — the selected one carries the `>` marker and
/// the green style, the others a plain two-space marker — and a newline.
pub open spec fn entry_line(opt: Seq<char>, is_selected: bool, row: nat) -> Seq<char> {
    ansi_move_to(1, row) + " "@ + (if is_selected {
        green_wrap(" > "@ + opt + " "@)
    } else {
        "  "@ + opt + " "@
    }) + "\n"@
}

/// The lines of the first `k` options, each at its fixed row below the
/// anchor.
pub open spec fn lines_upto(
    opts: Seq<Seq<char>>,
    selected: int,
    anchor: nat,
    k: int,
) -> Seq<char>
    decreases k,
{
    if k <= 0 {
        Seq::empty()
    } else {
        lines_upto(opts, selected, anchor, k - 1) + entry_line(
            opts[k - 1],
            k - 1 == selected,
            (anchor + 4 + k - 1) as nat,
        )
    }
}

/// One whole frame: reposition to the anchor's offset, save the cursor,
/// header and a blank line, every option at its fixed row, a closing blank
/// line, and restore the cursor.
pub open spec fn frame_spec(opts: Seq<Seq<char>>, selected: int, anchor: nat) -> Seq<char> {
    ansi_move_to(1, anchor + 2) + ansi_save() + header_text() + "\n\n"@ + lines_upto(
        opts,
        selected,
        anchor,
        opts.len() as int,
    ) + "\n\r\n"@ + ansi_restore()
}

/// Build the frame for one redraw: the exact character sequence the caller
/// writes to the terminal, `frame_spec` of the options, the cursor and the
/// anchor row.
pub fn render_frame(options: &Vec<String>, selected: usize, anchor: u16) -> (r: String)
    requires
        selected < options@.len(),
        options@.len() + anchor as int + 6 <= u16::MAX as int,
    ensures
        r@ == frame_spec(options.deep_view(), selected as int, anchor as nat),
{
    let mut out: String = move_to_ansi(1, anchor + 2);
    let save: String = save_position_ansi();
    out.append(save.as_str());
    out.append("Please select an option below using arrow keys (or `j` and `k`):");
    out.append("\n\n");
    assert(out@ =~= ansi_move_to(1, anchor as nat + 2) + ansi_save() + header_text() + "\n\n"@);
    let ghost prefix: Seq<char> = out@;
    let mut i: usize = 0;
    while i < options.len()
        invariant
            i <= options@.len(),
            selected < options@.len(),
            options@.len() + anchor as int + 6 <= u16::MAX as int,
            out@ == prefix + lines_upto(options.deep_view(), selected as int, anchor as nat, i as int),
        decreases options@.len() - i,
    {
        let row: u16 = anchor + 4 + (i as u16);
        let pos: String = move_to_ansi(1, row);
        out.append(pos.as_str());
        out.append(" ");
        if i == selected {
            let mut inner: String = " > ".to_owned();
            inner.append(options[i].as_str());
            inner.append(" ");
            let styled: String = green_ansi(inner.as_str());
            out.append(styled.as_str());
        } else {
            out.append("  ");
            out.append(options[i].as_str());
            out.append(" ");
        }
        out.append("\n");
        proof {
            assert(options.deep_view()[i as int] == options@[i as int]@);
            assert(out@ =~= prefix + lines_upto(
                options.deep_view(),
                selected as int,
                anchor as nat,
                i as int,
            ) + entry_line(
                options.deep_view()[i as int],
                i as int == selected as int,
                (anchor + 4 + i) as nat,
            ));
        }
        i = i + 1;
    }
    out.append("\n\r\n");
    let restore: String = restore_position_ansi();
    out.append(restore.as_str());
    assert(out@ =~= frame_spec(options.deep_view(), selected as int, anchor as nat));
    out
}

/// The reposition written after a selection is confirmed: column zero, six
/// rows below the last option, where the prompts and the action's output
/// begin.
pub fn below_menu_ansi(anchor: u16, n_options: usize) -> (r: String)
    requires
        1 <= n_options,
        n_options + anchor as int + 6 < u16::MAX as int,
    ensures
        r@ == ansi_move_to(0, anchor as nat + n_options as nat + 6),
{
    move_to_ansi(0, anchor + (n_options as u16) + 6)
}

} // verus!
