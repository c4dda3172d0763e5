//! An editor before its window is opened.
use crate::resize::{hint_for, resize_hint, LogicalSize, ResizeHint, SlintEditorHandle};
use crate::state::{usable_scale_factor, SlintEditorState};
use vstd::prelude::*;

verus! {

/// An editor: a handle `H` to its state, a factory `F` for its component, an optional
/// handler `S` for the time its window opens, and an optional handler `E` for every frame.
///
/// Editors have a fixed size unless [`with_resizable`](Self::with_resizable) says otherwise.
#[derive(Debug)]
pub struct SlintEditor<H, F, S, E> {
    pub component_factory: F,
    pub state: H,
    pub event_loop_handler: Option<E>,
    pub setup_handler: Option<S>,
    pub resizable: bool,
}

/// What the windowing system is asked for when the window of an editor is opened.
#[derive(Clone, Copy, Debug)]
pub struct WindowSettings {
    pub title: &'static str,
    pub size: LogicalSize,
    pub wait_for_parent: bool,
    /// Bit pattern of the scale factor to assume where the system knows none.
    pub fallback_scale_factor: Option<u64>,
    pub resizable: bool,
    /// Major and minor version of OpenGL.
    pub gl_version: (u8, u8),
}

/// The scale factor to assume: the host's where it names one, else the saved one.
pub open spec fn fallback_or_saved(fallback: Option<u64>, state: SlintEditorState) -> u64 {
    match fallback {
        Some(bits) => bits,
        None => usable_scale_factor(state.scale_factor),
    }
}

impl<H, F, S, E> SlintEditor<H, F, S, E> {
    /// The editor with another setup handler.
    pub open spec fn setup_set(self, handler: S) -> Self {
        SlintEditor { setup_handler: Some(handler), ..self }
    }

    /// The editor with another event loop handler.
    pub open spec fn event_loop_set(self, handler: E) -> Self {
        SlintEditor { event_loop_handler: Some(handler), ..self }
    }

    /// The editor with another answer to whether it can be resized.
    pub open spec fn resizable_set(self, resizable: bool) -> Self {
        SlintEditor { resizable, ..self }
    }

    /// An editor of a fixed size without handlers.
    pub fn new(state: H, factory: F) -> (editor: Self)
        ensures
            editor == (SlintEditor::<H, F, S, E> {
                component_factory: factory,
                state,
                event_loop_handler: None,
                setup_handler: None,
                resizable: false,
            }),
    {
        SlintEditor {
            component_factory: factory,
            state,
            event_loop_handler: None,
            setup_handler: None,
            resizable: false,
        }
    }

    /// Sets the handler that runs once when the window opens, before the event loop starts.
    pub fn with_setup(self, handler: S) -> (editor: Self)
        ensures
            editor == self.setup_set(handler),
    {
        SlintEditor { setup_handler: Some(handler), ..self }
    }

    /// Sets the handler that runs every frame.
    pub fn with_event_loop(self, handler: E) -> (editor: Self)
        ensures
            editor == self.event_loop_set(handler),
    {
        SlintEditor { event_loop_handler: Some(handler), ..self }
    }

    /// Allows the host or the user to resize the editor, or forbids it again.
    pub fn with_resizable(self, resizable: bool) -> (editor: Self)
        ensures
            editor == self.resizable_set(resizable),
    {
        SlintEditor { resizable, ..self }
    }

    /// What to ask the windowing system for, given what the state holds now, and the handle
    /// that the host gets once there is a window.
    pub fn spawn(
        &self,
        state: &SlintEditorState,
        wait_for_parent: bool,
        fallback_scale_factor: Option<u64>,
    ) -> (spawned: (WindowSettings, SlintEditorHandle))
        ensures
            spawned.0.title@ == "Plug-in"@,
            spawned.0.size.is_exactly(state.size.0, state.size.1),
            spawned.0.wait_for_parent == wait_for_parent,
            spawned.0.fallback_scale_factor == Some(
                fallback_or_saved(fallback_scale_factor, *state),
            ),
            spawned.0.resizable == self.resizable,
            spawned.0.gl_version == (3u8, 2u8),
            spawned.1.resizable == self.resizable,
    {
        let (width, height) = state.size();
        let fallback: u64 = match fallback_scale_factor {
            Some(bits) => bits,
            None => state.scale_factor(),
        };
        let settings = WindowSettings {
            title: "Plug-in",
            size: LogicalSize::from_pixels(width, height),
            wait_for_parent,
            fallback_scale_factor: Some(fallback),
            resizable: self.resizable,
            gl_version: (3, 2),
        };
        (settings, SlintEditorHandle { resizable: self.resizable })
    }

    /// What to answer when the host asks how this editor may be resized.
    pub fn resize_hint(&self) -> (hint: ResizeHint)
        ensures
            hint == hint_for(self.resizable),
    {
        resize_hint(self.resizable)
    }
}

} // verus!
