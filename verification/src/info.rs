use vstd::prelude::*;
use vstd::string::StrSliceExecFns;
use vstd::string::StringExecFns;

use crate::editor::Size;
use crate::text::clipped_slice;
use crate::text::decimal;
use crate::text::decimal_string;
use crate::text::spaces;
use crate::text::spaces_seq;
use crate::text::prefix_chars;

verus! {

/// The one-line banner giving the terminal dimensions.
pub open spec fn info_line(width: int, height: int) -> Seq<char>
    recommends
        0 <= width,
        0 <= height,
{
    "width: "@ + decimal(width as nat) + ", height: "@ + decimal(height as nat)
}

/// The welcome banner: a tilde, padding that centers the greeting on a
/// `width`-column screen, and the greeting itself, truncated to `width`
/// characters when the screen is narrower.
pub open spec fn welcome_line(width: int) -> Seq<char>
    recommends
        0 <= width,
{
    let msg = "Hecto editor -- version 0.1.0"@;
    let padding = if width >= msg.len() {
        (width - msg.len()) / 2
    } else {
        0
    };
    let pad = if padding >= 1 {
        padding - 1
    } else {
        0
    };
    clipped_slice("~"@ + spaces_seq(pad as nat) + msg, 0, width)
}

/// The informational banner shown on an empty document: the current terminal
/// dimensions.
pub fn display_info(size: Size) -> (line: String)
    ensures
        line@ == info_line(size.width as int, size.height as int),
{
    let mut line = "width: ".to_owned();
    let w = decimal_string(size.width as usize);
    line.append(w.as_str());
    line.append(", height: ");
    let h = decimal_string(size.height as usize);
    line.append(h.as_str());
    proof {
        assert(line@ =~= info_line(size.width as int, size.height as int));
    }
    line
}

/// The vertically centered welcome banner, truncated to the screen width.
pub fn draw_welcome_message(size: Size) -> (line: String)
    ensures
        line@ == welcome_line(size.width as int),
{
    let width = size.width as usize;
    let msg = "Hecto editor -- version 0.1.0";
    let len = msg.unicode_len();
    let padding = width.saturating_sub(len) / 2;
    let mut line = "~".to_owned();
    let pad = spaces(padding.saturating_sub(1));
    line.append(pad.as_str());
    line.append(msg);
    proof {
        assert(line@ =~= "~"@ + spaces_seq(padding.saturating_sub(1) as nat) + msg@);
    }
    prefix_chars(line.as_str(), width)
}

} // verus!
