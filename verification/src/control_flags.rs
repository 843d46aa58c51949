//! One-shot command flags an integrator sets to direct the widget from the
//! outside: a pending focus request and a pending clear-all request. Flags
//! are consumed (reset to `None`) by one reconciliation cycle.

use vstd::prelude::*;

verus! {

/// All flags that can be used to send commands to the component.
///
/// `change` creates a builder to edit the flags; `apply` on the builder
/// yields the next immutable snapshot.
#[derive(Debug, Clone, PartialEq, Eq)]
pub struct ControlFlags {
    /// Pending request to move focus to this cell index.
    pub focus: Option<usize>,
    /// Pending request to blank all cells.
    pub clear: Option<()>,
}

/// Builds the `ControlFlags` struct.
#[derive(Debug)]
pub struct ControlFlagsBuilder {
    pub focus: Option<usize>,
    pub clear: Option<()>,
}

impl ControlFlags {
    /// Create a builder with the current flag configuration.
    pub fn change(&self) -> (b: ControlFlagsBuilder)
        ensures
            b.focus == self.focus,
            b.clear == self.clear,
    {
        ControlFlagsBuilder { focus: self.focus, clear: self.clear }
    }
}

impl Default for ControlFlags {
    /// Flags with no pending command.
    fn default() -> (r: Self)
        ensures
            r.focus is None,
            r.clear is None,
    {
        ControlFlags { focus: None, clear: None }
    }
}

impl ControlFlagsBuilder {
    /// Set the flag to focus the first digit.
    pub fn focus_first(self) -> (r: Self)
        ensures
            r.focus == Some(0usize),
            r.clear == self.clear,
    {
        ControlFlagsBuilder { focus: Some(0), clear: self.clear }
    }

    /// Unset the focus flag.
    pub fn unset_focus(self) -> (r: Self)
        ensures
            r.focus is None,
            r.clear == self.clear,
    {
        ControlFlagsBuilder { focus: None, clear: self.clear }
    }

    /// Set the flag to clear all digits.
    pub fn clear(self) -> (r: Self)
        ensures
            r.focus == self.focus,
            r.clear == Some(()),
    {
        ControlFlagsBuilder { focus: self.focus, clear: Some(()) }
    }

    /// Unset the flag to clear all digits.
    pub fn unset_clear(self) -> (r: Self)
        ensures
            r.focus == self.focus,
            r.clear is None,
    {
        ControlFlagsBuilder { focus: self.focus, clear: None }
    }

    /// Create `ControlFlags` for the current flag configuration.
    pub fn apply(self) -> (r: ControlFlags)
        ensures
            r.focus == self.focus,
            r.clear == self.clear,
    {
        ControlFlags { focus: self.focus, clear: self.clear }
    }
}

} // verus!
