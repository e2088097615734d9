use crate::input::{InputManager, Key};
use crate::surface::SurfaceConfig;
use vstd::prelude::*;

verus! {

/// A window event, reduced to what the renderer reacts to.
#[derive(Clone, Copy, Debug, PartialEq, Eq, Structural)]
pub enum WindowEvent {
    /// The user asked to close the window.
    CloseRequested,
    /// The window has a new size, in physical pixels.
    Resized { width: u32, height: u32 },
    /// The window moved to another scale factor and has a new size, in
    /// physical pixels.
    ScaleFactorChanged { width: u32, height: u32 },
    /// A key went down or up. `key` is `None` where the keyboard reported a
    /// key without a symbolic name.
    KeyboardInput { key: Option<Key>, pressed: bool },
    /// Any other event.
    Other,
}

/// What the event loop has to do once an event has been handled.
#[derive(Clone, Copy, Debug, PartialEq, Eq, Structural)]
pub enum EventAction {
    /// Nothing.
    Nothing,
    /// Leave the event loop.
    Exit,
    /// Apply the surface configuration, which has changed, to the surface.
    ConfigureSurface,
    /// Switch the window between windowed and fullscreen.
    ToggleFullscreen,
}

impl WindowEvent {
    /// The action that the event asks of the event loop.
    pub open spec fn action(self) -> EventAction {
        match self {
            WindowEvent::CloseRequested => EventAction::Exit,
            WindowEvent::Resized { .. } => EventAction::ConfigureSurface,
            WindowEvent::ScaleFactorChanged { .. } => EventAction::ConfigureSurface,
            WindowEvent::KeyboardInput { key, pressed } => if !pressed && key == Some(Key::F11) {
                EventAction::ToggleFullscreen
            } else {
                EventAction::Nothing
            },
            WindowEvent::Other => EventAction::Nothing,
        }
    }

    /// The size of the surface after the event, given its size before.
    pub open spec fn size_after(self, before: (u32, u32)) -> (u32, u32) {
        match self {
            WindowEvent::Resized { width, height } => (width, height),
            WindowEvent::ScaleFactorChanged { width, height } => (width, height),
            _ => before,
        }
    }

    /// The key states after the event, given the states before.
    pub open spec fn keys_after(self, before: Map<Key, bool>) -> Map<Key, bool> {
        match self {
            WindowEvent::KeyboardInput { key: Some(key), pressed } => before.insert(key, pressed),
            _ => before,
        }
    }
}

/// Handles one window event: a resize is taken over into `config`, a key
/// event into `input_manager`, and the result says what is left for the
/// event loop to do.
pub fn handle_window_event(
    event: WindowEvent,
    config: &mut SurfaceConfig,
    input_manager: &mut InputManager,
) -> (action: EventAction)
    ensures
        action == event.action(),
        final(config).spec_size() == event.size_after(old(config).spec_size()),
        final(config).same_target(*old(config)),
        final(input_manager)@ == event.keys_after(old(input_manager)@),
{
    match event {
        WindowEvent::CloseRequested => EventAction::Exit,
        WindowEvent::Resized { width, height } => {
            config.reconfigure(width, height);
            EventAction::ConfigureSurface
        },
        WindowEvent::ScaleFactorChanged { width, height } => {
            config.reconfigure(width, height);
            EventAction::ConfigureSurface
        },
        WindowEvent::KeyboardInput { key, pressed } => {
            match key {
                Some(k) => {
                    input_manager.set_key_state(k, pressed);
                },
                None => {},
            }
            if !pressed {
                match key {
                    Some(Key::F11) => EventAction::ToggleFullscreen,
                    _ => EventAction::Nothing,
                }
            } else {
                EventAction::Nothing
            }
        },
        WindowEvent::Other => EventAction::Nothing,
    }
}

/// Only a close request ends the event loop.
pub proof fn lemma_exit_only_on_close(event: WindowEvent)
    ensures
        event.action() == EventAction::Exit <==> event == WindowEvent::CloseRequested,
{
}

/// After a resize, the surface has exactly the size that the event carried.
pub proof fn lemma_resize_sets_size(width: u32, height: u32, before: (u32, u32))
    ensures
        (WindowEvent::Resized { width, height }).size_after(before) == (width, height),
        (WindowEvent::ScaleFactorChanged { width, height }).size_after(before) == (width, height),
        (WindowEvent::Resized { width, height }).action() == EventAction::ConfigureSurface,
        (WindowEvent::ScaleFactorChanged { width, height }).action()
            == EventAction::ConfigureSurface,
{
}

} // verus!
