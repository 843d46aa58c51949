//! The decisions of the widget: what one keystroke or input event does to a
//! cell, when a write triggers the submission, and how one reconciliation
//! cycle consumes the control flags. The surrounding UI layer performs the
//! decided actions (focus transfer, callback invocation, state adoption)
//! and feeds events back in.

use crate::control_flags::ControlFlags;
use crate::digit_code_status::next_indicator;
use crate::digit_code_status::opt_view;
use crate::digit_code_status::present_of;
use crate::digit_code_status::DigitCode;
use crate::focus_offset::FocusOffset;
use crate::profile::char_ok;
use crate::profile::code_valid;
use crate::profile::DigitCodeProfile;
use crate::text::concat_seqs;
use crate::text::str_eq;
use vstd::prelude::*;

verus! {

/// What a keydown on one cell asks the widget to do.
#[derive(Debug, Clone, PartialEq, Eq)]
pub enum KeyAction {
    /// ArrowLeft: request focus on the previous cell.
    FocusPrevious,
    /// ArrowRight: request focus on the next cell.
    FocusNext,
    /// Enter: attempt a submission regardless of completeness.
    Submit,
    /// Backspace: clear this cell, suppress the default behaviour, and move
    /// focus to the previous cell.
    EraseAndFocusPrevious,
    /// A single-grapheme key in the alphabet: clear this cell to prepare
    /// for the overwrite the following input event delivers; the new value
    /// is not written here.
    PrepareOverwrite,
    /// Anything else: no-op.
    Ignore,
}

/// The keydown decision table: ArrowLeft and ArrowRight move focus, Enter
/// submits, Backspace erases and moves back, a key the profile accepts as
/// one character prepares an overwrite, and every other key is ignored.
pub open spec fn spec_keydown<P: DigitCodeProfile>(p: &P, key: Seq<char>) -> KeyAction {
    if key == "ArrowLeft"@ {
        KeyAction::FocusPrevious
    } else if key == "ArrowRight"@ {
        KeyAction::FocusNext
    } else if key == "Enter"@ {
        KeyAction::Submit
    } else if key == "Backspace"@ {
        KeyAction::EraseAndFocusPrevious
    } else if char_ok(p, key) {
        KeyAction::PrepareOverwrite
    } else {
        KeyAction::Ignore
    }
}

/// Decides, from the pressed key alone, what a cell does on keydown,
/// following the decision table of `spec_keydown`.
pub fn handle_keydown<P: DigitCodeProfile>(profile: &P, key: &str) -> (r: KeyAction)
    ensures
        r == spec_keydown(profile, key@),
{
    if str_eq(key, "ArrowLeft") {
        KeyAction::FocusPrevious
    } else if str_eq(key, "ArrowRight") {
        KeyAction::FocusNext
    } else if str_eq(key, "Enter") {
        KeyAction::Submit
    } else if str_eq(key, "Backspace") {
        KeyAction::EraseAndFocusPrevious
    } else if profile.is_valid_char(key) {
        KeyAction::PrepareOverwrite
    } else {
        KeyAction::Ignore
    }
}

/// Decides what a raw input event does to a cell: the entered text is kept
/// only when the profile takes it as one valid character, and focus
/// advances exactly then. An invalid entry clears the cell (nothing wrong
/// is ever stored) and focus stays.
pub fn handle_input<P: DigitCodeProfile>(profile: &P, typed: String) -> (r: (Option<String>, bool))
    ensures
        char_ok(profile, typed@) ==> r == (Some(typed), true),
        !char_ok(profile, typed@) ==> r == (None::<String>, false),
{
    if profile.is_valid_char(typed.as_str()) {
        (Some(typed), true)
    } else {
        (None, false)
    }
}

/// Applies one cell write to the buffer and decides the auto-submit: a
/// successful write into the last cell triggers the same submission attempt
/// as Enter, inside the same update, and the attempt yields the joined code
/// exactly when the buffer has become complete. No other write submits.
pub fn set_value<P: DigitCodeProfile>(
    code: &mut DigitCode<P>,
    index: usize,
    value: Option<String>,
) -> (r: Option<String>)
    requires
        old(code).wf(),
    ensures
        final(code).wf(),
        final(code).spec_profile() == old(code).spec_profile(),
        (index < old(code).cells().len() && (value matches Some(v) ==> char_ok(
            &old(code).spec_profile(),
            v@,
        ))) ==> final(code).cells() =~= old(code).cells().update(index as int, opt_view(value))
            && final(code).spec_update_indicator() == next_indicator(
            next_indicator(old(code).spec_update_indicator()),
        ),
        !(index < old(code).cells().len() && (value matches Some(v) ==> char_ok(
            &old(code).spec_profile(),
            v@,
        ))) ==> final(code).cells() == old(code).cells()
            && final(code).spec_update_indicator() == next_indicator(
            old(code).spec_update_indicator(),
        ),
        r is Some <==> (index + 1 == old(code).cells().len() && (value matches Some(v)
            ==> char_ok(&old(code).spec_profile(), v@)) && code_valid(
            &final(code).spec_profile(),
            present_of(final(code).cells()),
        )),
        r matches Some(s) ==> s@ == concat_seqs(present_of(final(code).cells())),
{
    code.change_update_indicator();
    let n = code.len();
    let ok = code.set(index, value);
    if ok.is_some() && index + 1 == n {
        code.joined()
    } else {
        None
    }
}

/// The submission attempt on Enter: when the widget is not disabled and
/// the buffer holds a complete code, the joined code is handed out to be
/// emitted to the submit callback; a disabled widget ignores the attempt,
/// and an incomplete buffer emits nothing.
pub fn enter_hit<P: DigitCodeProfile>(code: &DigitCode<P>, disabled: bool) -> (r: Option<String>)
    requires
        code.wf(),
    ensures
        disabled ==> r is None,
        !disabled ==> (r is Some <==> code_valid(
            &code.spec_profile(),
            present_of(code.cells()),
        )),
        r matches Some(s) ==> s@ == concat_seqs(present_of(code.cells())),
{
    if disabled {
        None
    } else {
        code.joined()
    }
}

/// What one reconciliation cycle decides from the current flags.
pub struct ReconcileOutcome<PROFILE: DigitCodeProfile> {
    /// The focus move to perform: an offset, and the index it starts from.
    pub focus_move: Option<(FocusOffset, usize)>,
    /// The blanked buffer to adopt, when a clear was requested.
    pub cleared_code: Option<DigitCode<PROFILE>>,
    /// The consumed flags to persist, only when they differ from the input.
    pub new_flags: Option<ControlFlags>,
}

/// One reconciliation cycle over the control flags. A pending focus request
/// is consumed into a focus move: cell 0 is reached by stepping backward
/// from cell 1, any other cell forward from its left neighbour. A pending
/// clear request is consumed into a blanked buffer. The consumed flags,
/// with both fields back to `None`, are handed back for persisting only
/// when they differ from the input; flags are one-shot commands.
pub fn reconcile_flags<P: DigitCodeProfile>(flags: &ControlFlags, code: &DigitCode<P>) -> (r:
    ReconcileOutcome<P>)
    requires
        code.wf(),
    ensures
        flags.focus matches Some(n) ==> r.focus_move == (if n == 0 {
            Some((FocusOffset::Previous, 1usize))
        } else {
            Some((FocusOffset::Next, (n - 1) as usize))
        }),
        flags.focus is None ==> r.focus_move is None,
        flags.clear is Some ==> (r.cleared_code matches Some(c) && c.wf() && c.spec_profile()
            == code.spec_profile() && c.cells().len() == code.cells().len() && (forall|i: int|
            0 <= i < c.cells().len() ==> c.cells()[i] is None) && c.spec_update_indicator()
            == next_indicator(code.spec_update_indicator())),
        flags.clear is None ==> r.cleared_code is None,
        (flags.focus is Some || flags.clear is Some) ==> r.new_flags == Some(
            (ControlFlags { focus: None, clear: None }),
        ),
        (flags.focus is None && flags.clear is None) ==> r.new_flags is None,
{
    let mut builder = flags.change();
    let focus_move: Option<(FocusOffset, usize)> = match builder.focus {
        Some(n) => {
            builder = builder.unset_focus();
            if n == 0 {
                Some((FocusOffset::Previous, 1))
            } else {
                Some((FocusOffset::Next, n - 1))
            }
        },
        None => None,
    };
    let cleared_code = if builder.clear.is_some() {
        builder = builder.unset_clear();
        Some(code.as_empty())
    } else {
        None
    };
    let next = builder.apply();
    let new_flags = if focus_move.is_some() || cleared_code.is_some() {
        Some(next)
    } else {
        None
    };
    ReconcileOutcome { focus_move, cleared_code, new_flags }
}

} // verus!
