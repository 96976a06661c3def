//! Making a new canvas: what the engine does, one step after the other, and what becomes of
//! the shell if a step fails.

use crate::command::CanvasCommand;
use crate::config::CanvasConfig;
use crate::layers::{LayerId, LayerSnapshot};
use crate::shell::CanvasApp;
use vstd::prelude::*;

verus! {

/// How far a new canvas has come.
#[derive(Debug)]
pub enum CanvasMaking {
    /// Nothing is under way.
    Idle,
    /// The canvas is being made.
    Creating { config: CanvasConfig },
    /// Its first layer is being added.
    Layering { config: CanvasConfig },
    /// Its layers are being put together.
    Compositing { config: CanvasConfig },
    /// It is being presented.
    Presenting { config: CanvasConfig },
    /// Its texture is being registered.
    Registering,
}

/// What happened.
#[derive(Debug)]
pub enum MakingEvent {
    /// The panel asked for a canvas, while the engine has one of `current`. It can only be
    /// made where it can be displayed.
    Asked { can_display: bool, current: CanvasConfig },
    /// The engine tried to do what it was told.
    Done(Result<(), String>),
    /// The engine tried to present the canvas, which then has these layers.
    Presented(Result<Vec<LayerSnapshot>, String>),
}

/// What has to be done next.
#[derive(Debug)]
pub enum MakingAction {
    /// Execute this command, then report that it is done.
    Execute(CanvasCommand),
    /// Put the layers together, then report that it is done.
    Composite,
    /// Present the canvas, then report that it was presented.
    Present,
    /// Forget the old canvas, register the texture of the new one, then report that it is
    /// done.
    Register,
    /// Send the brush settings, and nothing more.
    SendBrushSettings,
    /// Nothing more.
    Rest,
}

/// A step failed: the error is kept, everything else stays, and nothing more is done.
pub open spec fn given_up(
    before: CanvasApp,
    error: String,
    after: CanvasApp,
    next: CanvasMaking,
    action: MakingAction,
) -> bool {
    &&& next is Idle
    &&& action is Rest
    &&& after == (CanvasApp { last_error: Some(error), ..before })
}

/// The step that a new canvas takes at `event`: it is made, gets its first layer, is
/// composited, presented, taken up and registered, each after the step before it succeeded.
pub open spec fn made(
    before: CanvasApp,
    making: CanvasMaking,
    event: MakingEvent,
    after: CanvasApp,
    next: CanvasMaking,
    action: MakingAction,
) -> bool {
    match (making, event) {
        (CanvasMaking::Idle, MakingEvent::Asked { can_display, current }) => {
            let config = crate::config::resized(
                current,
                before.new_canvas_width,
                before.new_canvas_height,
                before.new_canvas_tile_size,
                before.brush,
            );
            if can_display {
                &&& next == CanvasMaking::Creating { config }
                &&& action == MakingAction::Execute(CanvasCommand::NewCanvas(config))
                &&& after == before
            } else {
                &&& next is Idle
                &&& action is Rest
                &&& after == (CanvasApp { last_error: after.last_error, ..before })
                &&& crate::recording::message(after.last_error) == Some("无法访问 WGPU 渲染状态"@)
            }
        },
        (CanvasMaking::Creating { config }, MakingEvent::Done(result)) => match result {
            Ok(_) => {
                &&& next == CanvasMaking::Layering { config }
                &&& action == MakingAction::Execute(CanvasCommand::AddPlainLayer(LayerId(1)))
                &&& after == before
            },
            Err(error) => given_up(before, error, after, next, action),
        },
        (CanvasMaking::Layering { config }, MakingEvent::Done(result)) => match result {
            Ok(_) => {
                &&& next == CanvasMaking::Compositing { config }
                &&& action is Composite
                &&& after == before
            },
            Err(error) => given_up(before, error, after, next, action),
        },
        (CanvasMaking::Compositing { config }, MakingEvent::Done(result)) => match result {
            Ok(_) => {
                &&& next == CanvasMaking::Presenting { config }
                &&& action is Present
                &&& after == before
            },
            Err(error) => given_up(before, error, after, next, action),
        },
        (CanvasMaking::Presenting { config }, MakingEvent::Presented(result)) => match result {
            Ok(layers) => {
                &&& next is Registering
                &&& action is Register
                &&& crate::shell::taken_up(before, config, layers, after)
            },
            Err(error) => given_up(before, error, after, next, action),
        },
        (CanvasMaking::Registering, MakingEvent::Done(result)) => match result {
            Ok(_) => {
                &&& next is Idle
                &&& action is SendBrushSettings
                &&& after == (CanvasApp { last_error: None, ..before })
            },
            Err(error) => given_up(before, error, after, next, action),
        },
        _ => next is Idle && action is Rest && after == before,
    }
}

impl CanvasApp {
    fn give_up_canvas(&mut self, error: String) -> (r: (CanvasMaking, MakingAction))
        ensures
            given_up(*old(self), error, *final(self), r.0, r.1),
    {
        self.note_error(error);
        (CanvasMaking::Idle, MakingAction::Rest)
    }

    /// Goes on with a new canvas. An event that does not belong to the step under way is
    /// passed over.
    pub fn make_canvas(&mut self, making: CanvasMaking, event: MakingEvent) -> (r: (
        CanvasMaking,
        MakingAction,
    ))
        ensures
            made(*old(self), making, event, *final(self), r.0, r.1),
    {
        match (making, event) {
            (CanvasMaking::Idle, MakingEvent::Asked { can_display, current }) => {
                if !can_display {
                    return self.give_up_canvas("无法访问 WGPU 渲染状态".to_owned());
                }
                let config = self.create_new_canvas(current);
                (
                    CanvasMaking::Creating { config },
                    MakingAction::Execute(CanvasCommand::NewCanvas(config)),
                )
            },
            (CanvasMaking::Creating { config }, MakingEvent::Done(result)) => match result {
                Ok(_) => (
                    CanvasMaking::Layering { config },
                    MakingAction::Execute(CanvasCommand::AddPlainLayer(LayerId(1))),
                ),
                Err(error) => self.give_up_canvas(error),
            },
            (CanvasMaking::Layering { config }, MakingEvent::Done(result)) => match result {
                Ok(_) => (CanvasMaking::Compositing { config }, MakingAction::Composite),
                Err(error) => self.give_up_canvas(error),
            },
            (CanvasMaking::Compositing { config }, MakingEvent::Done(result)) => match result {
                Ok(_) => (CanvasMaking::Presenting { config }, MakingAction::Present),
                Err(error) => self.give_up_canvas(error),
            },
            (CanvasMaking::Presenting { config }, MakingEvent::Presented(result)) => {
                let shown = result.is_ok();
                self.finish_new_canvas(&config, result);
                if shown {
                    (CanvasMaking::Registering, MakingAction::Register)
                } else {
                    (CanvasMaking::Idle, MakingAction::Rest)
                }
            },
            (CanvasMaking::Registering, MakingEvent::Done(result)) => {
                let registered = result.is_ok();
                self.note_outcome(result);
                if registered {
                    (CanvasMaking::Idle, MakingAction::SendBrushSettings)
                } else {
                    (CanvasMaking::Idle, MakingAction::Rest)
                }
            },
            _ => (CanvasMaking::Idle, MakingAction::Rest),
        }
    }
}

/// The event says that a step failed with this error.
pub open spec fn failure(event: MakingEvent) -> Option<String> {
    match event {
        MakingEvent::Done(Err(error)) => Some(error),
        MakingEvent::Presented(Err(error)) => Some(error),
        _ => None,
    }
}

/// Whichever step fails, no later one is made, and nothing of the shell changes but the
/// error, which is kept: until the new canvas is presented, all that the shell knows is of
/// the old one. A failure of no step under way changes nothing.
pub proof fn failed_canvases_leave_the_old_one(
    before: CanvasApp,
    making: CanvasMaking,
    event: MakingEvent,
    after: CanvasApp,
    next: CanvasMaking,
    action: MakingAction,
)
    requires
        made(before, making, event, after, next, action),
        failure(event) is Some,
    ensures
        next is Idle,
        action is Rest,
        after == (CanvasApp { last_error: after.last_error, ..before }),
        after.last_error == match (making, event) {
            (CanvasMaking::Idle, _) => before.last_error,
            (CanvasMaking::Presenting { .. }, MakingEvent::Presented(_)) => failure(event),
            (CanvasMaking::Presenting { .. }, _) => before.last_error,
            (_, MakingEvent::Done(_)) => failure(event),
            _ => before.last_error,
        },
{
}

/// The step from `states[i]` and `stages[i]` at `events[i]`.
pub open spec fn made_at(
    states: Seq<CanvasApp>,
    stages: Seq<CanvasMaking>,
    events: Seq<MakingEvent>,
    actions: Seq<MakingAction>,
    i: int,
) -> bool {
    made(states[i], stages[i], events[i], states[i + 1], stages[i + 1], actions[i])
}

/// The shell goes through `states` and the canvas through `stages`, one step at each of
/// `events`, whose actions are `actions`.
pub open spec fn made_in_turn(
    states: Seq<CanvasApp>,
    stages: Seq<CanvasMaking>,
    events: Seq<MakingEvent>,
    actions: Seq<MakingAction>,
) -> bool {
    &&& states.len() == events.len() + 1
    &&& stages.len() == events.len() + 1
    &&& actions.len() == events.len()
    &&& forall|i: int|
        0 <= i < events.len() ==> #[trigger] made_at(states, stages, events, actions, i)
}

/// A canvas that is asked for, and whose every step succeeds, is made in this order: the
/// canvas, its first layer, the composite, the presentation, the texture, and then the brush
/// settings are sent. The shell takes the canvas up when it is presented, and in the end has
/// no error.
pub proof fn canvases_are_made_in_order(
    states: Seq<CanvasApp>,
    stages: Seq<CanvasMaking>,
    events: Seq<MakingEvent>,
    actions: Seq<MakingAction>,
    current: CanvasConfig,
    layers: Vec<LayerSnapshot>,
)
    requires
        made_in_turn(states, stages, events, actions),
        stages[0] is Idle,
        events == seq![
            MakingEvent::Asked { can_display: true, current },
            MakingEvent::Done(Ok(())),
            MakingEvent::Done(Ok(())),
            MakingEvent::Done(Ok(())),
            MakingEvent::Presented(Ok(layers)),
            MakingEvent::Done(Ok(())),
        ],
    ensures
        ({
            let first = states[0];
            let config = crate::config::resized(
                current,
                first.new_canvas_width,
                first.new_canvas_height,
                first.new_canvas_tile_size,
                first.brush,
            );
            &&& actions == seq![
                MakingAction::Execute(CanvasCommand::NewCanvas(config)),
                MakingAction::Execute(CanvasCommand::AddPlainLayer(LayerId(1))),
                MakingAction::Composite,
                MakingAction::Present,
                MakingAction::Register,
                MakingAction::SendBrushSettings,
            ]
            &&& states[4] == first
            &&& crate::shell::taken_up(first, config, layers, states[5])
            &&& states[6] == (CanvasApp { last_error: None, ..states[5] })
            &&& stages[6] is Idle
        }),
{
    assert(events.len() == 6);
    assert(made_at(states, stages, events, actions, 0));
    assert(made_at(states, stages, events, actions, 1));
    assert(made_at(states, stages, events, actions, 2));
    assert(made_at(states, stages, events, actions, 3));
    assert(made_at(states, stages, events, actions, 4));
    assert(made_at(states, stages, events, actions, 5));
}

} // verus!
