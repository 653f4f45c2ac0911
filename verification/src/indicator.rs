use vstd::prelude::*;
use vstd::string::*;

verus! {

/// The glyph of one animation frame, from the fixed four-glyph cycle.
pub open spec fn frame_glyph(i: nat) -> Seq<char> {
    if i % 4 == 0 {
        "-"@
    } else if i % 4 == 1 {
        "\\"@
    } else if i % 4 == 2 {
        "|"@
    } else {
        "/"@
    }
}

/// One rendered status line: carriage return, the frame's glyph, a space,
/// and the message. It never holds a newline of its own, so the next frame
/// overwrites it in place.
pub open spec fn frame_line_chars(i: nat, msg: Seq<char>) -> Seq<char> {
    "\r"@ + frame_glyph(i) + " "@ + msg
}

/// The control sequence that returns to the start of the line and erases it.
pub open spec fn clear_chars() -> Seq<char> {
    "\r\u{1b}[2K"@
}

/// Renders the status line for frame `i` of the cycle.
pub fn frame_line(i: usize, msg: &String) -> (r: String)
    ensures
        r@ == frame_line_chars(i as nat, msg@),
{
    let mut s: String = ("\r").to_owned();
    let g: &'static str = if i % 4 == 0 {
        "-"
    } else if i % 4 == 1 {
        "\\"
    } else if i % 4 == 2 {
        "|"
    } else {
        "/"
    };
    s.append(g);
    s.append(" ");
    s.append(msg.as_str());
    proof {
        assert(s@ =~= frame_line_chars(i as nat, msg@));
    }
    s
}

/// The clear-line sequence written exactly once when the indicator stops.
pub fn clear_line() -> (r: &'static str)
    ensures
        r@ == clear_chars(),
{
    "\r\u{1b}[2K"
}

/// One decision of the indicator loop: while the stop flag is off, the text
/// to render is the next animation frame; once it is set, the text is the
/// clear-line sequence and the loop must end.
pub fn indicator_step(stop: bool, i: usize, msg: &String) -> (r: (String, bool))
    ensures
        !stop ==> r.0@ == frame_line_chars(i as nat, msg@) && r.1,
        stop ==> r.0@ == clear_chars() && !r.1,
{
    if !stop {
        (frame_line(i, msg), true)
    } else {
        (clear_line().to_owned(), false)
    }
}

} // verus!
