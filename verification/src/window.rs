use vstd::prelude::*;

verus! {

/// The shell's record of the native window: whether the window is on screen
/// and whether it holds input focus. The host framework owns the window
/// itself; the shell tracks only these two facts about it.
#[derive(Clone, Copy, PartialEq, Eq, Structural, Debug)]
pub struct WindowState {
    /// The window is on screen.
    pub visible: bool,
    /// The window holds input focus.
    pub focused: bool,
}

impl WindowState {
    /// A window that is off screen never holds input focus.
    pub open spec fn wf(self) -> bool {
        self.focused ==> self.visible
    }

    /// The state of a freshly created application window: on screen, with
    /// input focus.
    pub fn new() -> (w: WindowState)
        ensures
            w.wf(),
            w.visible,
            w.focused,
    {
        WindowState { visible: true, focused: true }
    }
}

} // verus!
