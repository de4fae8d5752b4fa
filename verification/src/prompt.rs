//! The message boxes that the program shows, and what a reply to one means.

use crate::engine::{Outcome, PatchError};
use vstd::prelude::*;

verus! {

/// A message box: its text, whether it has the one button OK or the two
/// buttons Yes and No, and whether it reports an error.
#[derive(Debug, PartialEq, Eq)]
pub struct Prompt {
    pub text: String,
    pub single_button: bool,
    pub is_error: bool,
}

/// Button set of a box with the one button OK.
pub const MB_OK: u32 = 0;

/// Button set of a box with the buttons Yes and No.
pub const MB_YESNO: u32 = 4;

/// Flag of a box with the error icon.
pub const MB_ICONERROR: u32 = 0x10;

/// Flag that makes the second button, No, the default.
pub const MB_DEFBUTTON2: u32 = 0x100;

/// The reply of a box that was closed with OK.
pub const IDOK: i32 = 1;

/// The reply of a box that was closed with Yes.
pub const IDYES: i32 = 6;

/// The style of a box as the number that the message box call takes: OK, or
/// Yes and No with No as the default, and the error icon on top where the box
/// reports an error.
pub open spec fn style_of(single_button: bool, is_error: bool) -> u32 {
    if single_button {
        if is_error {
            0x10
        } else {
            0
        }
    } else {
        if is_error {
            0x114
        } else {
            0x104
        }
    }
}

/// Whether a reply agrees: OK on a box with one button, Yes on a box with
/// two.
pub open spec fn agreed(single_button: bool, reply: i32) -> bool {
    if single_button {
        reply == IDOK
    } else {
        reply == IDYES
    }
}

/// The text of the box that asks whether to remove the patch.
pub open spec fn ask_unpatch_text() -> Seq<char> {
    "Darktide is already patched.\r\nWould you like to remove the patch?"@
}

/// The text of the box that reports a patch.
pub open spec fn patch_successful_text() -> Seq<char> {
    "Darktide is now patched to load mods."@
}

/// What the text of the box that reports a failure begins with.
pub open spec fn patch_failed_heading() -> Seq<char> {
    "dtkit-patch failed to patch Darktide:\n\n"@
}

/// Puts the style of a box together for the message box call: the button set,
/// then the error icon where the box reports an error.
pub fn open_prompt(single_button: bool, is_error: bool) -> (mode: u32)
    ensures
        mode == style_of(single_button, is_error),
{
    let mut mode: u32 = if single_button {
        MB_OK
    } else {
        MB_YESNO | MB_DEFBUTTON2
    };
    assert(4u32 | 0x100u32 == 0x104u32) by (bit_vector);
    if is_error {
        assert(0u32 | 0x10u32 == 0x10u32) by (bit_vector);
        assert(0x104u32 | 0x10u32 == 0x114u32) by (bit_vector);
        mode = mode | MB_ICONERROR;
    }
    mode
}

impl Prompt {
    /// The number that stands for the style of this box.
    pub fn style(&self) -> (mode: u32)
        ensures
            mode == style_of(self.single_button, self.is_error),
    {
        open_prompt(self.single_button, self.is_error)
    }

    /// Whether `reply`, what the message box call gave back, agrees to this
    /// box.
    pub fn accepted(&self, reply: i32) -> (yes: bool)
        ensures
            yes == agreed(self.single_button, reply),
    {
        if self.single_button {
            reply == IDOK
        } else {
            reply == IDYES
        }
    }
}

/// The box that asks the operator whether the patch is to be removed: two
/// buttons, no error.
pub fn ask_unpatch() -> (prompt: Prompt)
    ensures
        prompt.text@ == ask_unpatch_text(),
        !prompt.single_button,
        !prompt.is_error,
{
    Prompt {
        text: String::from_str(
            "Darktide is already patched.\r\nWould you like to remove the patch?",
        ),
        single_button: false,
        is_error: false,
    }
}

/// The box that tells the operator that the game is patched: one button, no
/// error.
pub fn patch_successful() -> (prompt: Prompt)
    ensures
        prompt.text@ == patch_successful_text(),
        prompt.single_button,
        !prompt.is_error,
{
    Prompt {
        text: String::from_str("Darktide is now patched to load mods."),
        single_button: true,
        is_error: false,
    }
}

/// The box that tells the operator that the run failed, with `error`, the
/// words for what went wrong, below the heading: one button, an error.
pub fn patch_failed(error: &str) -> (prompt: Prompt)
    ensures
        prompt.text@ == patch_failed_heading() + error@,
        prompt.single_button,
        prompt.is_error,
{
    let mut text = String::from_str("dtkit-patch failed to patch Darktide:\n\n");
    text.append(error);
    Prompt { text, single_button: true, is_error: true }
}

/// Which box a run that has ended is reported with.
#[derive(Debug, Clone, Copy, PartialEq, Eq, Structural)]
pub enum Notice {
    /// No box.
    Silent,
    /// The box of `patch_successful`.
    Success,
    /// The box of `patch_failed`.
    Failure,
}

/// The notice that the end of a run calls for. Only an interactive run shows
/// a box: on `Patched` the one that reports the patch, on any error the one
/// that reports the failure, else none.
pub open spec fn notice_of(result: Result<Outcome, PatchError>, interactive: bool) -> Notice {
    if !interactive {
        Notice::Silent
    } else {
        match result {
            Ok(Outcome::Patched) => Notice::Success,
            Ok(_) => Notice::Silent,
            Err(_) => Notice::Failure,
        }
    }
}

/// Which box, if any, the end of a run is reported with.
pub fn notice(result: Result<Outcome, PatchError>, interactive: bool) -> (shown: Notice)
    ensures
        shown == notice_of(result, interactive),
{
    if !interactive {
        Notice::Silent
    } else {
        match result {
            Ok(Outcome::Patched) => Notice::Success,
            Ok(_) => Notice::Silent,
            Err(_) => Notice::Failure,
        }
    }
}

} // verus!
