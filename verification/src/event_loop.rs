//! What the simulation does on each event of its window: a decision from the
//! event and a few facts of the running state to one action, which the caller
//! then performs.

use vstd::prelude::*;
use vstd::string::*;

verus! {

/// The grid sizes that a user can step through, in cells per side: the powers
/// of two from 64 to 2048, ascending.
pub const ELIGIBLE_SIZES: [u32; 6] = [64, 128, 256, 512, 1024, 2048];

/// The smallest eligible size.
pub const SMALLEST_SIZE: u32 = 64;

/// The largest eligible size.
pub const LARGEST_SIZE: u32 = 2048;

/// Whether `size` is one of the eligible grid sizes.
pub open spec fn is_eligible_size(size: u32) -> bool {
    size == 64 || size == 128 || size == 256 || size == 512 || size == 1024 || size == 2048
}

/// A size of the window's surface, in pixels.
#[derive(Clone, Copy, Debug, PartialEq, Eq, Structural)]
pub struct PhysicalSize {
    pub width: u32,
    pub height: u32,
}

/// A key, as far as the simulation tells keys apart.
#[derive(Debug)]
pub enum Key {
    ArrowDown,
    ArrowUp,
    ArrowLeft,
    ArrowRight,
    Escape,
    Space,
    /// A key that produces text, with that text.
    Character(String),
    Other,
}

/// An event of a window.
#[derive(Debug)]
pub enum WindowEvent {
    /// A key went down.
    KeyPressed(Key),
    CloseRequested,
    Resized(PhysicalSize),
    RedrawRequested,
    Other,
}

/// An event of the event loop.
#[derive(Debug)]
pub enum Event {
    /// An event of a window; `own_window` tells whether it is the window of
    /// the simulation.
    Window { own_window: bool, event: WindowEvent },
    AboutToWait,
    Resumed,
    Other,
}

/// What the decision reads of the running state.
#[derive(Clone, Copy, Debug)]
pub struct StateView {
    /// Cells per side of the current grid.
    pub cells_width: u32,
    /// Whether the window covers the screen.
    pub fullscreen: bool,
    /// The current size of the window's surface.
    pub size: PhysicalSize,
}

/// How a frame failed to reach the screen.
#[derive(Clone, Copy, Debug, PartialEq, Eq, Structural)]
pub enum RenderError {
    /// The surface was lost and has to be configured again.
    Lost,
    OutOfMemory,
    Other,
}

/// What the caller is to do next.
#[derive(Clone, Copy, Debug, PartialEq, Eq, Structural)]
pub enum Action {
    Nothing,
    /// Take the next rule of the catalog, or the previous one.
    ChangeRule { forward: bool },
    /// Lower the initial density by one percent.
    LowerInitialDensity,
    /// Raise the initial density by one percent.
    RaiseInitialDensity,
    /// Cover the screen, or go back to a window.
    SetFullscreen { fullscreen: bool },
    /// Start again from a fresh first generation.
    Reset,
    /// Compute one generation less per second.
    LowerGenerationsPerSecond,
    /// Compute one generation more per second.
    RaiseGenerationsPerSecond,
    /// Start again on a grid of another size.
    ResetWithCellsWidth { cells_width: u32, cells_height: u32 },
    Exit,
    TogglePause,
    /// Fit the surface to a new size of the window.
    Resize { size: PhysicalSize },
    /// Draw a frame, then report how it went to [`handle_render_result`].
    Render,
    RequestRedraw,
    /// Take the present moment as the time of the last generation.
    RestartClock,
    /// Report the render error and go on.
    LogError,
}

/// The action for a key that produces the text `text`.
pub open spec fn character_action(text: Seq<char>, state: StateView) -> Action {
    if text == seq!['f'] || text == seq!['F'] {
        Action::SetFullscreen { fullscreen: !state.fullscreen }
    } else if text == seq!['r'] || text == seq!['R'] {
        Action::Reset
    } else if text == seq!['q'] || text == seq!['Q'] {
        Action::LowerGenerationsPerSecond
    } else if text == seq!['<'] {
        Action::LowerInitialDensity
    } else if text == seq!['>'] {
        Action::RaiseInitialDensity
    } else if text == seq!['w'] || text == seq!['W'] {
        Action::RaiseGenerationsPerSecond
    } else if text == seq!['-'] && state.cells_width < LARGEST_SIZE {
        Action::ResetWithCellsWidth {
            cells_width: (2 * state.cells_width) as u32,
            cells_height: (2 * state.cells_width) as u32,
        }
    } else if text == seq!['+'] && state.cells_width > SMALLEST_SIZE {
        Action::ResetWithCellsWidth {
            cells_width: state.cells_width / 2,
            cells_height: state.cells_width / 2,
        }
    } else {
        Action::Nothing
    }
}

/// The action for a key that went down.
pub open spec fn key_action(key: Key, state: StateView) -> Action {
    match key {
        Key::ArrowDown => Action::ChangeRule { forward: true },
        Key::ArrowUp => Action::ChangeRule { forward: false },
        Key::ArrowLeft => Action::LowerInitialDensity,
        Key::ArrowRight => Action::RaiseInitialDensity,
        Key::Escape => Action::Exit,
        Key::Space => Action::TogglePause,
        Key::Character(text) => character_action(text@, state),
        Key::Other => Action::Nothing,
    }
}

/// The action for an event of the simulation's own window.
pub open spec fn window_action(event: WindowEvent, state: StateView) -> Action {
    match event {
        WindowEvent::KeyPressed(key) => key_action(key, state),
        WindowEvent::CloseRequested => Action::Exit,
        WindowEvent::Resized(size) => Action::Resize { size },
        WindowEvent::RedrawRequested => Action::Render,
        WindowEvent::Other => Action::Nothing,
    }
}

/// The action for an event of the loop. Events of other windows are ignored.
pub open spec fn event_action(event: Event, state: StateView) -> Action {
    match event {
        Event::Window { own_window, event } => if own_window {
            window_action(event, state)
        } else {
            Action::Nothing
        },
        Event::AboutToWait => Action::RequestRedraw,
        Event::Resumed => Action::RestartClock,
        Event::Other => Action::Nothing,
    }
}

/// Whether `event` asks for another grid size, so that the current one has
/// to be an eligible size to step from.
pub open spec fn steps_grid_size(event: Event, state: StateView) -> bool {
    event matches Event::Window { own_window: true, event: WindowEvent::KeyPressed(Key::Character(text)) }
        && ((text@ == seq!['-'] && state.cells_width < LARGEST_SIZE) || (text@ == seq!['+']
        && state.cells_width > SMALLEST_SIZE))
}

/// What follows a frame: a lost surface is configured again at the current
/// size, want of memory ends the program, any other failure is reported.
pub open spec fn render_action(result: Result<(), RenderError>, state: StateView) -> Action {
    match result {
        Ok(_) => Action::Nothing,
        Err(RenderError::Lost) => Action::Resize { size: state.size },
        Err(RenderError::OutOfMemory) => Action::Exit,
        Err(RenderError::Other) => Action::LogError,
    }
}

/// Whether `text` is the one character `wanted`.
fn is_character(text: &str, wanted: char) -> (same: bool)
    ensures
        same == (text@ == seq![wanted]),
{
    if text.unicode_len() == 1 {
        let same = text.get_char(0) == wanted;
        assert(same == (text@ =~= seq![wanted]));
        same
    } else {
        false
    }
}

/// Where `size` stands among the eligible sizes.
fn position_of_size(size: u32) -> (index: usize)
    requires
        is_eligible_size(size),
    ensures
        index < 6,
        ELIGIBLE_SIZES@[index as int] == size,
{
    let mut index: usize = 0;
    while ELIGIBLE_SIZES[index] != size
        invariant
            index < 6,
            is_eligible_size(size),
            forall|earlier: int| 0 <= earlier < index ==> ELIGIBLE_SIZES@[earlier] != size,
        decreases 6 - index,
    {
        index = index + 1;
    }
    index
}

/// The eligible size after `size`: twice as many cells per side.
pub fn next_larger_size(size: u32) -> (larger: u32)
    requires
        is_eligible_size(size),
        size < LARGEST_SIZE,
    ensures
        larger == 2 * size,
        is_eligible_size(larger),
{
    let index = position_of_size(size);
    ELIGIBLE_SIZES[index + 1]
}

/// The eligible size before `size`: half as many cells per side.
pub fn next_smaller_size(size: u32) -> (smaller: u32)
    requires
        is_eligible_size(size),
        size > SMALLEST_SIZE,
    ensures
        smaller == size / 2,
        is_eligible_size(smaller),
{
    let index = position_of_size(size);
    ELIGIBLE_SIZES[index - 1]
}

/// Whether `size` is one of the eligible grid sizes.
pub fn check_eligible_size(size: u32) -> (eligible: bool)
    ensures
        eligible == is_eligible_size(size),
{
    let mut index: usize = 0;
    while index < 6
        invariant
            index <= 6,
            forall|earlier: int| 0 <= earlier < index ==> ELIGIBLE_SIZES@[earlier] != size,
        decreases 6 - index,
    {
        if ELIGIBLE_SIZES[index] == size {
            return true;
        }
        index = index + 1;
    }
    false
}

fn handle_character(text: &str, state: &StateView) -> (action: Action)
    requires
        ((text@ == seq!['-'] && state.cells_width < LARGEST_SIZE) || (text@ == seq!['+']
            && state.cells_width > SMALLEST_SIZE)) ==> is_eligible_size(state.cells_width),
    ensures
        action == character_action(text@, *state),
{
    if is_character(text, 'f') || is_character(text, 'F') {
        Action::SetFullscreen { fullscreen: !state.fullscreen }
    } else if is_character(text, 'r') || is_character(text, 'R') {
        Action::Reset
    } else if is_character(text, 'q') || is_character(text, 'Q') {
        Action::LowerGenerationsPerSecond
    } else if is_character(text, '<') {
        Action::LowerInitialDensity
    } else if is_character(text, '>') {
        Action::RaiseInitialDensity
    } else if is_character(text, 'w') || is_character(text, 'W') {
        Action::RaiseGenerationsPerSecond
    } else if is_character(text, '-') && state.cells_width < LARGEST_SIZE {
        let new_size = next_larger_size(state.cells_width);
        Action::ResetWithCellsWidth { cells_width: new_size, cells_height: new_size }
    } else if is_character(text, '+') && state.cells_width > SMALLEST_SIZE {
        let new_size = next_smaller_size(state.cells_width);
        Action::ResetWithCellsWidth { cells_width: new_size, cells_height: new_size }
    } else {
        Action::Nothing
    }
}

/// Decides what to do on `event`.
///
/// A key that steps the grid size needs the current size to be an eligible
/// one; see [`steps_grid_size`].
pub fn handle_event_loop(event: &Event, state: &StateView) -> (action: Action)
    requires
        steps_grid_size(*event, *state) ==> is_eligible_size(state.cells_width),
    ensures
        action == event_action(*event, *state),
{
    match event {
        Event::Window { own_window, event } => {
            if !*own_window {
                return Action::Nothing;
            }
            match event {
                WindowEvent::KeyPressed(key) => match key {
                    Key::ArrowDown => Action::ChangeRule { forward: true },
                    Key::ArrowUp => Action::ChangeRule { forward: false },
                    Key::ArrowLeft => Action::LowerInitialDensity,
                    Key::ArrowRight => Action::RaiseInitialDensity,
                    Key::Escape => Action::Exit,
                    Key::Space => Action::TogglePause,
                    Key::Character(text) => handle_character(text.as_str(), state),
                    Key::Other => Action::Nothing,
                },
                WindowEvent::CloseRequested => Action::Exit,
                WindowEvent::Resized(size) => Action::Resize { size: *size },
                WindowEvent::RedrawRequested => Action::Render,
                WindowEvent::Other => Action::Nothing,
            }
        },
        Event::AboutToWait => Action::RequestRedraw,
        Event::Resumed => Action::RestartClock,
        Event::Other => Action::Nothing,
    }
}

/// Whether `event` asks for another grid size.
fn event_steps_grid_size(event: &Event, state: &StateView) -> (steps: bool)
    ensures
        steps == steps_grid_size(*event, *state),
{
    match event {
        Event::Window { own_window, event } => match event {
            WindowEvent::KeyPressed(key) => match key {
                Key::Character(text) => *own_window && ((is_character(text.as_str(), '-')
                    && state.cells_width < LARGEST_SIZE) || (is_character(text.as_str(), '+')
                    && state.cells_width > SMALLEST_SIZE)),
                _ => false,
            },
            _ => false,
        },
        _ => false,
    }
}

/// Decides what to do on `event`, for a state of which nothing is known.
///
/// There is no action, and the result is `None`, exactly when the event
/// asks for another grid size and the current size is not an eligible one
/// to step from.
pub fn try_handle_event_loop(event: &Event, state: &StateView) -> (action: Option<Action>)
    ensures
        action.is_none() <==> steps_grid_size(*event, *state) && !is_eligible_size(
            state.cells_width,
        ),
        action matches Some(decided) ==> decided == event_action(*event, *state),
{
    if event_steps_grid_size(event, state) && !check_eligible_size(state.cells_width) {
        None
    } else {
        Some(handle_event_loop(event, state))
    }
}

/// Decides what to do after a frame was drawn, or was not.
pub fn handle_render_result(result: Result<(), RenderError>, state: &StateView) -> (action: Action)
    ensures
        action == render_action(result, *state),
{
    match result {
        Ok(_) => Action::Nothing,
        Err(RenderError::Lost) => Action::Resize { size: state.size },
        Err(RenderError::OutOfMemory) => Action::Exit,
        Err(RenderError::Other) => Action::LogError,
    }
}

/// Stepping the grid size keeps it eligible: from an eligible size, every
/// event leads either to no change of size or to another eligible size, with
/// as many rows as columns.
pub proof fn lemma_size_steps_stay_eligible(event: Event, state: StateView)
    requires
        is_eligible_size(state.cells_width),
    ensures
        event_action(event, state) matches Action::ResetWithCellsWidth { cells_width, cells_height }
            ==> is_eligible_size(cells_width) && cells_height == cells_width && cells_width
            != state.cells_width,
{
}

/// Events of other windows change nothing.
pub proof fn lemma_other_windows_are_ignored(event: WindowEvent, state: StateView)
    ensures
        event_action(Event::Window { own_window: false, event }, state) == Action::Nothing,
{
}

} // verus!
