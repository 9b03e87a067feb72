//! The decisions of the presentation loop.
//!
//! Each turn of the loop polls the window events that are pending, derives
//! two flags from them and then either ends or renders a frame. Polling and
//! rendering are the caller's; what follows from the events is decided here.

use vstd::prelude::*;
use crate::error::RenderResult;
use crate::lifecycle::Event;

verus! {

/// A window event, as far as the loop tells events apart.
#[derive(Clone, Copy, Debug, PartialEq, Eq, Structural)]
pub enum WindowEvent {
    /// The window was closed.
    Closed,
    /// The window was resized to this width and height.
    Resized(u32, u32),
    /// Anything else.
    Other,
}

/// What one turn of the loop has learned from the window.
#[derive(Clone, Copy, Debug, PartialEq, Eq, Structural)]
pub struct LoopFlags {
    /// The swapchain has to be created again before the next frame.
    pub recreate_swapchain: bool,
    /// The loop has to end.
    pub done: bool,
}

/// What a turn of the loop does after polling.
#[derive(Clone, Copy, Debug, PartialEq, Eq, Structural)]
pub enum Turn {
    /// Leave the loop.
    Exit,
    /// Render a frame, after telling the renderer of a resize if there was one.
    Render { resized: bool },
}

/// The flags after a batch of events: a resize among them asks for a new
/// swapchain, a close among them ends the loop.
pub open spec fn flags_of(events: Seq<WindowEvent>) -> LoopFlags {
    LoopFlags {
        recreate_swapchain: exists|i: int| 0 <= i < events.len() && #[trigger] events[i] is Resized,
        done: exists|i: int| 0 <= i < events.len() && #[trigger] events[i] is Closed,
    }
}

/// The turn that follows the flags: a loop that is done exits, whatever else
/// has happened.
pub open spec fn turn_of(flags: LoopFlags) -> Turn {
    if flags.done {
        Turn::Exit
    } else {
        Turn::Render { resized: flags.recreate_swapchain }
    }
}

impl LoopFlags {
    /// The flags at the start of a turn.
    pub fn new() -> (flags: LoopFlags)
        ensures
            flags == flags_of(Seq::<WindowEvent>::empty()),
    {
        LoopFlags { recreate_swapchain: false, done: false }
    }

    /// Takes note of one more event.
    pub fn observe(&mut self, event: WindowEvent)
        ensures
            final(self).recreate_swapchain == (old(self).recreate_swapchain || event is Resized),
            final(self).done == (old(self).done || event is Closed),
    {
        match event {
            WindowEvent::Closed => {
                self.done = true;
            },
            WindowEvent::Resized(_, _) => {
                self.recreate_swapchain = true;
            },
            WindowEvent::Other => {},
        }
    }

    pub fn turn(self) -> (turn: Turn)
        ensures
            turn == turn_of(self),
    {
        if self.done {
            Turn::Exit
        } else {
            Turn::Render { resized: self.recreate_swapchain }
        }
    }
}

/// The flags of a turn in which these events were pending.
pub fn poll_flags(events: &Vec<WindowEvent>) -> (flags: LoopFlags)
    ensures
        flags == flags_of(events@),
{
    let mut flags = LoopFlags::new();
    let mut i: usize = 0;
    while i < events.len()
        invariant
            i <= events.len(),
            flags == flags_of(events@.take(i as int)),
        decreases events.len() - i,
    {
        let ghost before = events@.take(i as int);
        let ghost after = events@.take(i + 1);
        flags.observe(events[i]);
        proof {
            assert(after[i as int] == events@[i as int]);
            assert forall|k: int| 0 <= k < before.len() implies before[k] == after[k] by {}
            if flags_of(before).recreate_swapchain {
                let k = choose|k: int| 0 <= k < before.len() && #[trigger] before[k] is Resized;
                assert(after[k] is Resized);
            }
            if flags_of(before).done {
                let k = choose|k: int| 0 <= k < before.len() && #[trigger] before[k] is Closed;
                assert(after[k] is Closed);
            }
            if flags_of(after).recreate_swapchain && !(events@[i as int] is Resized) {
                let k = choose|k: int| 0 <= k < after.len() && #[trigger] after[k] is Resized;
                assert(before[k] is Resized);
            }
            if flags_of(after).done && !(events@[i as int] is Closed) {
                let k = choose|k: int| 0 <= k < after.len() && #[trigger] after[k] is Closed;
                assert(before[k] is Closed);
            }
        }
        i += 1;
    }
    proof {
        assert(events@.take(i as int) =~= events@);
    }
    flags
}

/// Whether the loop goes on after a frame: it does after a frame that was
/// rendered, and after an error that another attempt can overcome. The
/// swapchain is then set up again on the next turn.
pub open spec fn goes_on(result: RenderResult<()>) -> bool {
    match result {
        Ok(_) => true,
        Err(error) => error.spec_is_retryable(),
    }
}

pub fn continue_after(result: RenderResult<()>) -> (goes_on: bool)
    ensures
        goes_on == self::goes_on(result),
{
    match result {
        Ok(_) => true,
        Err(error) => error.is_retryable(),
    }
}

/// The event that a turn feeds the renderer first, if any: the resize.
pub fn resize_event(turn: Turn) -> (event: Option<Event>)
    ensures
        match event {
            Some(event) => event is SurfaceResized && turn == (Turn::Render { resized: true }),
            None => turn != (Turn::Render { resized: true }),
        },
{
    match turn {
        Turn::Render { resized: true } => Some(Event::SurfaceResized),
        _ => None,
    }
}

/// A close ends the loop even when the window was resized in the same batch.
pub proof fn lemma_close_ends_loop(events: Seq<WindowEvent>, i: int)
    requires
        0 <= i < events.len(),
        events[i] is Closed,
    ensures
        turn_of(flags_of(events)) == Turn::Exit,
{
}

/// Without a close the loop renders, and tells the renderer of a resize
/// exactly if there was one.
pub proof fn lemma_loop_renders(events: Seq<WindowEvent>)
    requires
        forall|i: int| 0 <= i < events.len() ==> !(#[trigger] events[i] is Closed),
    ensures
        turn_of(flags_of(events)) == (Turn::Render {
            resized: exists|i: int| 0 <= i < events.len() && #[trigger] events[i] is Resized,
        }),
{
}

} // verus!
