use vstd::prelude::*;

verus! {

/// How the window occupies the screen.
#[derive(Clone, Copy, Debug, PartialEq, Eq, Structural)]
pub enum Fullscreen {
    /// An ordinary window.
    Windowed,
    /// A borderless window that covers the monitor it is on.
    Borderless,
}

/// The mode that a toggle switches to.
pub open spec fn toggled(current: Fullscreen) -> Fullscreen {
    match current {
        Fullscreen::Windowed => Fullscreen::Borderless,
        Fullscreen::Borderless => Fullscreen::Windowed,
    }
}

/// Switches between windowed and borderless fullscreen.
pub fn toggle_fullscreen(current: Fullscreen) -> (next: Fullscreen)
    ensures
        next == toggled(current),
{
    match current {
        Fullscreen::Windowed => Fullscreen::Borderless,
        Fullscreen::Borderless => Fullscreen::Windowed,
    }
}

/// Toggling twice restores the mode.
pub proof fn lemma_toggle_twice(current: Fullscreen)
    ensures
        toggled(toggled(current)) == current,
{
}

} // verus!
