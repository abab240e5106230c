//! What an application's window looks like between two frames.
//!
//! The state never touches the window. It is told what the window reports
//! and what the application asks for, and answers with what has to change.
use crate::color::Color;
use crate::geometry::{Point, Size};
use crate::scalar::Scalar;
use vstd::prelude::*;

verus! {

/// The mode of a window.
#[derive(Clone, Copy, Debug, PartialEq, Eq, Hash, Structural)]
pub enum Mode {
    /// The window is shown with its decorations.
    Windowed,
    /// The window covers the whole screen.
    Fullscreen,
    /// The window is not shown.
    Hidden,
}

/// The modifier keys that are held down.
#[derive(Clone, Copy, Debug, PartialEq, Eq, Hash, Structural)]
pub struct Modifiers {
    /// Whether a shift key is held.
    pub shift: bool,
    /// Whether a control key is held.
    pub control: bool,
    /// Whether an alt key is held.
    pub alt: bool,
    /// Whether a logo key is held.
    pub logo: bool,
}

impl Default for Modifiers {
    fn default() -> (modifiers: Modifiers)
        ensures
            modifiers == (Modifiers { shift: false, control: false, alt: false, logo: false }),
    {
        Modifiers { shift: false, control: false, alt: false, logo: false }
    }
}

/// The region of a surface that is drawn to.
#[derive(Clone, Copy, Debug, PartialEq)]
pub struct Viewport<N> {
    /// The size in physical pixels.
    pub physical_size: Size<u32>,
    /// The size in logical pixels.
    pub logical_size: Size<N>,
    /// The number of physical pixels in a logical one.
    pub scale_factor: N,
}

impl<N: Scalar> Viewport<N> {
    /// The viewport of the given physical size at the given scale: its
    /// logical size is the physical one divided by the scale factor.
    pub open spec fn scaled(size: Size<u32>, scale_factor: N) -> Viewport<N> {
        Viewport {
            physical_size: size,
            logical_size: Size {
                width: N::integer(size.width).quotient(scale_factor),
                height: N::integer(size.height).quotient(scale_factor),
            },
            scale_factor,
        }
    }

    /// Creates a new viewport with the given physical dimensions and scale
    /// factor.
    pub fn with_physical_size(size: Size<u32>, scale_factor: N) -> (viewport: Viewport<N>)
        ensures
            viewport == Viewport::scaled(size, scale_factor),
    {
        Viewport {
            physical_size: size,
            logical_size: Size {
                width: N::whole(size.width).over(scale_factor),
                height: N::whole(size.height).over(scale_factor),
            },
            scale_factor,
        }
    }

    /// Returns the physical size of the viewport.
    pub fn physical_size(&self) -> (size: Size<u32>)
        ensures
            size == self.physical_size,
    {
        self.physical_size
    }

    /// Returns the logical size of the viewport.
    pub fn logical_size(&self) -> (size: Size<N>)
        ensures
            size == self.logical_size,
    {
        self.logical_size
    }

    /// Returns the scale factor of the viewport.
    pub fn scale_factor(&self) -> (factor: N)
        ensures
            factor == self.scale_factor,
    {
        self.scale_factor
    }
}

/// What an application asks of its window at one moment.
#[derive(Clone, Debug, PartialEq)]
pub struct Request<N> {
    /// The title of the window.
    pub title: String,
    /// The mode of the window.
    pub mode: Mode,
    /// The colour behind everything that is drawn.
    pub background_color: Color<N>,
    /// The factor that the application scales its interface by, on top of
    /// the scaling of the window.
    pub scale_factor: N,
}

/// What a window reports about itself at one moment.
#[derive(Clone, Copy, Debug, PartialEq)]
pub struct Surface<N> {
    /// The size of the inside of the window in physical pixels.
    pub inner_size: Size<u32>,
    /// The number of physical pixels in a logical one.
    pub scale_factor: N,
}

/// Something that happened to a window.
#[derive(Clone, Copy, Debug, PartialEq)]
pub enum Event<N> {
    /// The inside of the window has a new size.
    Resized(Size<u32>),
    /// The window scales by a new factor, and has a new size with it.
    ScaleFactorChanged {
        /// The new scale factor of the window.
        scale_factor: N,
        /// The new size of the inside of the window.
        new_inner_size: Size<u32>,
    },
    /// The cursor moved inside the window.
    CursorMoved {
        /// Where the cursor is, in physical pixels.
        position: Point<N>,
    },
    /// The cursor left the window.
    CursorLeft,
    /// Other modifier keys are held down.
    ModifiersChanged(Modifiers),
    /// The window gained or lost the focus.
    Focused(bool),
    /// The user asked for the window to be closed.
    CloseRequested,
}

/// What has to change on a window to bring it in line with its
/// application. A change that is absent must not be made.
#[derive(Clone, Debug, PartialEq)]
pub struct Changes {
    /// The new title, where it differs from the one that was set.
    pub title: Option<String>,
    /// The new mode, where it differs from the one that was set.
    pub mode: Option<Mode>,
}

/// The state of a window as its application last saw it.
#[derive(Clone, Debug)]
pub struct State<N> {
    /// The title that the window was last given.
    pub title: String,
    /// The mode that the window was last put in.
    pub mode: Mode,
    /// The colour behind everything that is drawn.
    pub background_color: Color<N>,
    /// The factor that the application scales its interface by.
    pub scale_factor: N,
    /// The region that is drawn to.
    pub viewport: Viewport<N>,
    /// Where the cursor is, in physical pixels, while it is inside the
    /// window.
    pub cursor_position: Option<Point<N>>,
    /// The modifier keys that are held down.
    pub modifiers: Modifiers,
}

impl<N: Scalar> State<N> {
    /// The state of a window that was just created for an application.
    pub open spec fn initial(application: Request<N>, window: Surface<N>) -> State<N> {
        State {
            title: application.title,
            mode: application.mode,
            background_color: application.background_color,
            scale_factor: application.scale_factor,
            viewport: Viewport::scaled(
                window.inner_size,
                window.scale_factor.product(application.scale_factor),
            ),
            cursor_position: None,
            modifiers: Modifiers { shift: false, control: false, alt: false, logo: false },
        }
    }

    /// The state after an event.
    pub open spec fn after(self, window: Surface<N>, event: Event<N>) -> State<N> {
        match event {
            Event::Resized(new_size) => State {
                viewport: Viewport::scaled(
                    new_size,
                    window.scale_factor.product(self.scale_factor),
                ),
                ..self
            },
            Event::ScaleFactorChanged { scale_factor, new_inner_size } => State {
                viewport: Viewport::scaled(
                    new_inner_size,
                    scale_factor.product(self.scale_factor),
                ),
                ..self
            },
            Event::CursorMoved { position } => State { cursor_position: Some(position), ..self },
            Event::CursorLeft => State { cursor_position: None, ..self },
            Event::ModifiersChanged(modifiers) => State { modifiers, ..self },
            Event::Focused(_) => self,
            Event::CloseRequested => self,
        }
    }

    /// The state after it was brought in line with the application.
    pub open spec fn synchronized(self, application: Request<N>, window: Surface<N>) -> State<N> {
        State {
            title: if self.title@ == application.title@ {
                self.title
            } else {
                application.title
            },
            mode: application.mode,
            background_color: application.background_color,
            scale_factor: if self.scale_factor.equals(application.scale_factor) {
                self.scale_factor
            } else {
                application.scale_factor
            },
            viewport: if self.scale_factor.equals(application.scale_factor) {
                self.viewport
            } else {
                Viewport::scaled(
                    window.inner_size,
                    window.scale_factor.product(application.scale_factor),
                )
            },
            cursor_position: self.cursor_position,
            modifiers: self.modifiers,
        }
    }

    /// What bringing the state in line with the application changes on the
    /// window: the title and the mode, each only where it differs.
    pub open spec fn changes(self, application: Request<N>) -> Changes {
        Changes {
            title: if self.title@ == application.title@ {
                None
            } else {
                Some(application.title)
            },
            mode: if self.mode == application.mode {
                None
            } else {
                Some(application.mode)
            },
        }
    }

    /// Creates the state of a window that was just created for an
    /// application. The cursor starts outside the window and no modifier
    /// key is held.
    pub fn new(application: Request<N>, window: Surface<N>) -> (state: State<N>)
        ensures
            state == State::initial(application, window),
    {
        let title = application.title;
        let mode = application.mode;
        let background_color = application.background_color;
        let scale_factor = application.scale_factor;

        let viewport = Viewport::with_physical_size(
            window.inner_size,
            window.scale_factor.times(scale_factor),
        );

        State {
            title,
            mode,
            background_color,
            scale_factor,
            viewport,
            cursor_position: None,
            modifiers: Modifiers::default(),
        }
    }

    /// Returns the current background colour.
    pub fn background_color(&self) -> (color: Color<N>)
        ensures
            color == self.background_color,
    {
        self.background_color
    }

    /// Returns the current viewport.
    pub fn viewport(&self) -> (viewport: &Viewport<N>)
        ensures
            *viewport == self.viewport,
    {
        &self.viewport
    }

    /// Returns the physical size of the viewport.
    pub fn physical_size(&self) -> (size: Size<u32>)
        ensures
            size == self.viewport.physical_size,
    {
        self.viewport.physical_size()
    }

    /// Returns the logical size of the viewport.
    pub fn logical_size(&self) -> (size: Size<N>)
        ensures
            size == self.viewport.logical_size,
    {
        self.viewport.logical_size()
    }

    /// Returns the scale factor of the viewport: that of the window times
    /// that of the application.
    pub fn scale_factor(&self) -> (factor: N)
        ensures
            factor == self.viewport.scale_factor,
    {
        self.viewport.scale_factor()
    }

    /// Returns where the cursor is in logical pixels, while it is inside
    /// the window.
    pub fn cursor_position(&self) -> (position: Option<Point<N>>)
        ensures
            position == match self.cursor_position {
                Some(physical) => Some(
                    Point {
                        x: physical.x.quotient(self.viewport.scale_factor),
                        y: physical.y.quotient(self.viewport.scale_factor),
                    },
                ),
                None => None,
            },
    {
        match self.cursor_position {
            Some(physical) => {
                let scale_factor = self.viewport.scale_factor();
                Some(Point { x: physical.x.over(scale_factor), y: physical.y.over(scale_factor) })
            },
            None => None,
        }
    }

    /// Returns the modifier keys that are held down.
    pub fn modifiers(&self) -> (modifiers: Modifiers)
        ensures
            modifiers == self.modifiers,
    {
        self.modifiers
    }

    /// Processes an event of the window.
    pub fn update(&mut self, window: Surface<N>, event: &Event<N>)
        ensures
            *final(self) == old(self).after(window, *event),
    {
        match event {
            Event::Resized(new_size) => {
                self.viewport = Viewport::with_physical_size(
                    *new_size,
                    window.scale_factor.times(self.scale_factor),
                );
            },
            Event::ScaleFactorChanged { scale_factor: new_scale_factor, new_inner_size } => {
                self.viewport = Viewport::with_physical_size(
                    *new_inner_size,
                    new_scale_factor.times(self.scale_factor),
                );
            },
            Event::CursorMoved { position } => {
                self.cursor_position = Some(*position);
            },
            Event::CursorLeft => {
                self.cursor_position = None;
            },
            Event::ModifiersChanged(new_modifiers) => {
                self.modifiers = *new_modifiers;
            },
            _ => {},
        }
    }

    /// Brings the state in line with what the application asks for, and
    /// returns what has to be changed on the window for it.
    ///
    /// The viewport is computed anew only where the application scales by
    /// another factor than before.
    pub fn synchronize(&mut self, application: Request<N>, window: Surface<N>) -> (changes:
        Changes)
        ensures
            *final(self) == old(self).synchronized(application, window),
            changes == old(self).changes(application),
    {
        let mut changes = Changes { title: None, mode: None };

        let new_title = application.title;

        if !(self.title == new_title) {
            changes.title = Some(new_title.clone());

            self.title = new_title;
        }

        let new_mode = application.mode;

        if self.mode != new_mode {
            changes.mode = Some(new_mode);

            self.mode = new_mode;
        }

        self.background_color = application.background_color;

        let new_scale_factor = application.scale_factor;

        if !self.scale_factor.same(new_scale_factor) {
            self.viewport = Viewport::with_physical_size(
                window.inner_size,
                window.scale_factor.times(new_scale_factor),
            );

            self.scale_factor = new_scale_factor;
        }

        changes
    }

    /// Once the state is in line with a request, the same request asks for
    /// no change on the window.
    pub proof fn lemma_synchronize_settles(self, application: Request<N>, window: Surface<N>)
        ensures
            self.synchronized(application, window).changes(application) == (Changes {
                title: None,
                mode: None,
            }),
    {
    }
}

} // verus!
