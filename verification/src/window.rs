//! What the pipeline knows of the drawing surface: its size, whether it has
//! the focus, and how the cursor is held.

use vstd::prelude::*;

verus! {

/// How the cursor is held by the window.
#[derive(Clone, Copy, Debug, PartialEq, Eq, Structural)]
pub enum CursorGrabMode {
    /// The cursor moves freely.
    Free,
    /// The cursor is kept inside the window and drives the camera.
    Confined,
    /// The cursor is pinned in place.
    Locked,
}

/// The mode that is in force after `mode` was asked for. Where the platform
/// cannot confine the cursor, every request ends in `Locked`.
pub open spec fn effective_grab(mode: CursorGrabMode, locks_only: bool) -> CursorGrabMode {
    if locks_only {
        CursorGrabMode::Locked
    } else {
        mode
    }
}

/// The middle of a surface of the given size.
pub open spec fn center_of(width: u32, height: u32) -> (u32, u32) {
    (width / 2, height / 2)
}

/// The state of the drawing surface.
#[derive(Clone, Copy, Debug)]
pub struct Window {
    width: u32,
    height: u32,
    focused: bool,
    grab_mode: CursorGrabMode,
}

/// What a [`Window`] holds.
pub struct WindowView {
    pub width: u32,
    pub height: u32,
    pub focused: bool,
    pub grab_mode: CursorGrabMode,
}

impl View for Window {
    type V = WindowView;

    closed spec fn view(&self) -> WindowView {
        WindowView {
            width: self.width,
            height: self.height,
            focused: self.focused,
            grab_mode: self.grab_mode,
        }
    }
}

impl Window {
    /// A focused surface of the given size with a free cursor.
    pub fn new(width: u32, height: u32) -> (window: Window)
        ensures
            window@ == (WindowView {
                width,
                height,
                focused: true,
                grab_mode: CursorGrabMode::Free,
            }),
    {
        Window { width, height, focused: true, grab_mode: CursorGrabMode::Free }
    }

    /// Records a new size.
    pub fn resize(&mut self, width: u32, height: u32)
        ensures
            final(self)@ == (WindowView { width, height, ..old(self)@ }),
    {
        self.width = width;
        self.height = height;
    }

    /// Records that the focus was gained or lost.
    pub fn set_focus(&mut self, focused: bool)
        ensures
            final(self)@ == (WindowView { focused, ..old(self)@ }),
    {
        self.focused = focused;
    }

    /// The width of the surface in pixels.
    pub fn width(&self) -> (width: u32)
        ensures
            width == self@.width,
    {
        self.width
    }

    /// The height of the surface in pixels.
    pub fn height(&self) -> (height: u32)
        ensures
            height == self@.height,
    {
        self.height
    }

    /// Whether the window has the focus.
    pub fn has_focus(&self) -> (focused: bool)
        ensures
            focused == self@.focused,
    {
        self.focused
    }

    /// The outer position that puts the window in the middle of a display of
    /// the given size.
    pub fn center_on_display(&self, display_width: u32, display_height: u32) -> (position: (
        u32,
        u32,
    ))
        requires
            self@.width <= display_width,
            self@.height <= display_height,
        ensures
            position.0 == (display_width - self@.width) / 2,
            position.1 == (display_height - self@.height) / 2,
    {
        ((display_width - self.width) / 2, (display_height - self.height) / 2)
    }

    /// The middle of the window, in its own coordinates.
    pub fn center_of_window(&self) -> (position: (u32, u32))
        ensures
            position == center_of(self@.width, self@.height),
    {
        (self.width / 2, self.height / 2)
    }

    /// How the cursor is held.
    pub fn cursor_grab(&self) -> (mode: CursorGrabMode)
        ensures
            mode == self@.grab_mode,
    {
        self.grab_mode
    }

    /// Asks for a cursor mode. Returns the mode that is now in force, which
    /// the caller hands to the windowing system.
    pub fn set_cursor_grab(&mut self, mode: CursorGrabMode, locks_only: bool) -> (applied:
        CursorGrabMode)
        ensures
            applied == effective_grab(mode, locks_only),
            final(self)@ == (WindowView { grab_mode: applied, ..old(self)@ }),
    {
        let applied = if locks_only {
            CursorGrabMode::Locked
        } else {
            mode
        };
        self.grab_mode = applied;
        applied
    }

    /// Where the cursor is to be put back at the start of a frame, if
    /// anywhere: the middle of the window, while the window confines the
    /// cursor and has the focus.
    pub fn update(&self) -> (recenter: Option<(u32, u32)>)
        ensures
            recenter == if self@.grab_mode == CursorGrabMode::Confined && self@.focused {
                Some(center_of(self@.width, self@.height))
            } else {
                None
            },
    {
        if self.grab_mode == CursorGrabMode::Confined && self.focused {
            Some(self.center_of_window())
        } else {
            None
        }
    }
}

} // verus!
