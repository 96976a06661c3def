//! Replay of a recorded session, one command at a time.
//!
//! The engine numbers strokes anew, so commands on a stroke are sent to the stroke that
//! stands for it.

use crate::brush::Color;
use crate::capture::DataCaptureConfig;
use crate::command::{AppendStrokeCommand, CanvasCommand, CanvasError, CommandOutput, StrokeId};
use crate::layers::{position_of, LayerId, LayerSnapshot};
use crate::scalar::Single;
use crate::trace::{
    replay_capture, replay_preamble, trace_replay_command_payload, trace_stroke_begin_after,
    SessionTrace, StrokeIdMap, TraceEvent,
};
use vstd::prelude::*;

verus! {

/// `sent` is the command `recorded`, with its stroke replaced by the one that stands for it.
pub open spec fn remapped(
    recorded: CanvasCommand,
    strokes: Map<u64, u64>,
    sent: CanvasCommand,
) -> bool {
    match recorded {
        CanvasCommand::AppendStroke(append) => match sent {
            CanvasCommand::AppendStroke(other) => {
                &&& other.stroke == crate::trace::stand_in(strokes, append.stroke)
                &&& other.points@ == append.points@
            },
            _ => false,
        },
        CanvasCommand::EndStroke(stroke) => sent == CanvasCommand::EndStroke(
            crate::trace::stand_in(strokes, stroke),
        ),
        _ => recorded.same(sent),
    }
}

pub fn remap_replay_stroke_command(command: &CanvasCommand, strokes: &StrokeIdMap) -> (r:
    CanvasCommand)
    ensures
        remapped(*command, strokes@, r),
{
    match command {
        CanvasCommand::AppendStroke(append) => {
            let points = append.points.clone();
            assert(points@ =~= append.points@);
            CanvasCommand::AppendStroke(
                AppendStrokeCommand { stroke: strokes.resolve(append.stroke), points },
            )
        },
        CanvasCommand::EndStroke(stroke) => CanvasCommand::EndStroke(strokes.resolve(*stroke)),
        _ => command.duplicate(),
    }
}

/// The layer that a command adds.
pub open spec fn added_layer(command: CanvasCommand) -> Option<LayerId> {
    match command {
        CanvasCommand::AddLayer(spec) => Some(spec.id),
        CanvasCommand::AddPlainLayer(id) => Some(id),
        _ => None,
    }
}

/// The stroke that a command extends or ends.
pub open spec fn continued_stroke(command: CanvasCommand) -> Option<StrokeId> {
    match command {
        CanvasCommand::AppendStroke(append) => Some(append.stroke),
        CanvasCommand::EndStroke(stroke) => Some(stroke),
        _ => None,
    }
}

/// Whether a replay leaves the recorded command out: it adds a layer that is there, or it
/// continues a stroke that the replay did not begin.
pub open spec fn left_out(
    recorded: CanvasCommand,
    strokes: Map<u64, u64>,
    layers: Seq<LayerSnapshot>,
) -> bool {
    ||| added_layer(recorded) matches Some(id) && crate::layers::has_layer(layers, id)
    ||| continued_stroke(recorded) matches Some(stroke) && !crate::trace::begun_in_replay(
        strokes,
        crate::trace::stand_in(strokes, stroke),
    )
}

/// Whether a replay passes over a recorded event.
pub open spec fn passed_over(
    event: TraceEvent,
    strokes: Map<u64, u64>,
    layers: Seq<LayerSnapshot>,
) -> bool {
    match event {
        TraceEvent::Command(command) => crate::trace::payload(command) matches Some(recorded)
            && left_out(recorded, strokes, layers),
        _ => true,
    }
}

/// A step by which a replay opens.
#[derive(Debug)]
pub enum ReplayStep {
    /// Give the engine this capture setting.
    SetCapture(DataCaptureConfig),
    /// Have the engine execute this command.
    Execute(CanvasCommand),
}

/// The steps by which a replay opens: recording is switched off, then comes the preamble.
pub open spec fn opening(trace: SessionTrace, base_layers: Seq<LayerSnapshot>) -> Seq<ReplayStep> {
    let preamble = seq![CanvasCommand::NewCanvas(crate::trace::replay_config(trace))]
        + crate::trace::base_layer_plan(base_layers);
    seq![ReplayStep::SetCapture(crate::trace::replay_config(trace).data_capture)]
        + preamble.map_values(|command: CanvasCommand| ReplayStep::Execute(command))
}

/// What the engine does before the recorded commands, in order.
pub fn replay_opening(trace: &SessionTrace, base_layers: &[LayerSnapshot]) -> (r: Vec<ReplayStep>)
    ensures
        r@ == opening(*trace, base_layers@),
{
    let mut steps: Vec<ReplayStep> = Vec::new();
    steps.push(ReplayStep::SetCapture(replay_capture(trace)));
    let preamble = replay_preamble(trace, base_layers);
    let ghost capture = steps@;
    let ghost commands = preamble@;
    let ghost execute = |command: CanvasCommand| ReplayStep::Execute(command);
    for command in iter: preamble
        invariant
            iter.seq() == commands,
            execute == (|command: CanvasCommand| ReplayStep::Execute(command)),
            steps@ == capture + commands.take(iter.index()).map_values(execute),
    {
        steps.push(ReplayStep::Execute(command));
        assert(commands.take(iter.index() + 1).map_values(execute) =~= commands.take(
            iter.index(),
        ).map_values(execute).push(execute(commands[iter.index()])));
    }
    assert(commands.take(commands.len() as int) =~= commands);
    steps
}

/// A replay is never itself recorded: before anything else, recording is switched off, with
/// the recorded settings otherwise; the new canvas comes next and has the same setting; and no
/// later step of the opening touches it.
pub proof fn replays_are_not_recorded(trace: SessionTrace, base_layers: Seq<LayerSnapshot>)
    ensures
        ({
            let steps = opening(trace, base_layers);
            let off = DataCaptureConfig { enabled: false, ..trace.canvas.data_capture };
            let canvas = crate::config::CanvasConfig { data_capture: off, ..trace.canvas };
            &&& steps.len() >= 2
            &&& steps[0] == ReplayStep::SetCapture(off)
            &&& steps[1] == ReplayStep::Execute(CanvasCommand::NewCanvas(canvas))
            &&& forall|i: int|
                2 <= i < steps.len() ==> #[trigger] steps[i] == ReplayStep::Execute(
                    crate::trace::base_layer_plan(base_layers)[i - 2],
                )
        }),
{
}

/// What the replay wants next.
#[derive(Debug)]
pub enum ReplayAction {
    /// Give the engine this capture setting.
    SetCapture(DataCaptureConfig),
    /// Have the engine execute this command of the opening, then tell the replay what came of
    /// it.
    Open(CanvasCommand),
    /// Have the engine execute this command, then tell the replay what came of it.
    Execute(CanvasCommand),
    /// Every event was replayed.
    Finished,
    /// A recorded command cannot be replayed.
    Failed(CanvasError),
    /// The replay failed before.
    Stopped,
}

/// A replay under way.
pub struct TraceReplay {
    /// The steps by which it opens.
    pub opening: Vec<ReplayStep>,
    /// The next step of the opening.
    pub opened: usize,
    /// The next event to look at.
    pub position: usize,
    /// The event whose command was to begin a stroke, until its outcome is known.
    pub beginning: Option<usize>,
    pub strokes: StrokeIdMap,
    /// Whether something went wrong. Nothing is replayed after that.
    pub failed: bool,
}

/// `action` is what a replay does about a step of its opening.
pub open spec fn opens_with(step: ReplayStep, action: ReplayAction) -> bool {
    match step {
        ReplayStep::SetCapture(capture) => action == ReplayAction::SetCapture(capture),
        ReplayStep::Execute(command) => action matches ReplayAction::Open(sent) && command.same(
            sent,
        ),
    }
}

/// `action` is what a replay does about `event`.
pub open spec fn action_for(
    event: TraceEvent,
    strokes: Map<u64, u64>,
    layers: Seq<LayerSnapshot>,
    action: ReplayAction,
) -> bool {
    match event {
        TraceEvent::Command(command) => match action {
            ReplayAction::Execute(sent) => {
                &&& crate::trace::payload(command) is Some
                &&& !left_out(crate::trace::payload(command)->0, strokes, layers)
                &&& remapped(crate::trace::payload(command)->0, strokes, sent)
            },
            ReplayAction::Failed(error) => {
                &&& crate::trace::payload(command) is None
                &&& crate::trace::payload_error(command, error)
            },
            _ => false,
        },
        _ => false,
    }
}

/// Every event of `events` from `start` to before `end` is passed over.
pub open spec fn all_passed_over(
    events: Seq<TraceEvent>,
    start: int,
    end: int,
    strokes: Map<u64, u64>,
    layers: Seq<LayerSnapshot>,
) -> bool {
    forall|i: int| start <= i < end ==> passed_over(#[trigger] events[i], strokes, layers)
}

fn is_left_out(
    sent: &CanvasCommand,
    strokes: &StrokeIdMap,
    layers: &[LayerSnapshot],
    Ghost(recorded): Ghost<CanvasCommand>,
) -> (r: bool)
    requires
        remapped(recorded, strokes@, *sent),
    ensures
        r == left_out(recorded, strokes@, layers@),
{
    match sent {
        CanvasCommand::AddLayer(spec) => {
            let found = position_of(layers, spec.id);
            if let Some(index) = found {
                assert(layers@[index as int].spec.id == spec.id);
            }
            found.is_some()
        },
        CanvasCommand::AddPlainLayer(id) => {
            let found = position_of(layers, *id);
            if let Some(index) = found {
                assert(layers@[index as int].spec.id == *id);
            }
            found.is_some()
        },
        CanvasCommand::AppendStroke(append) => !strokes.holds(append.stroke),
        CanvasCommand::EndStroke(stroke) => !strokes.holds(*stroke),
        _ => false,
    }
}

impl TraceReplay {
    /// A replay of `trace`, whose canvas had `base_layers` when the record began.
    pub fn new(trace: &SessionTrace, base_layers: &[LayerSnapshot]) -> (r: TraceReplay)
        ensures
            r.opening@ == opening(*trace, base_layers@),
            r.opened == 0,
            r.position == 0,
            r.beginning is None,
            r.strokes@ == Map::<u64, u64>::empty(),
            !r.failed,
            r.valid(*trace),
    {
        TraceReplay {
            opening: replay_opening(trace, base_layers),
            opened: 0,
            position: 0,
            beginning: None,
            strokes: StrokeIdMap::new(),
            failed: false,
        }
    }

    /// The replay is somewhere in its opening and in `trace`.
    pub open spec fn valid(self, trace: SessionTrace) -> bool {
        &&& self.opened <= self.opening@.len()
        &&& self.position <= trace.events@.len()
    }

    /// Goes on to the next step of the opening and, behind it, to the next event that is not
    /// passed over. `layers` are the layers that the engine has now.
    pub fn next(&mut self, trace: &SessionTrace, layers: &[LayerSnapshot]) -> (r: ReplayAction)
        requires
            old(self).valid(*trace),
        ensures
            final(self).valid(*trace),
            stepped(*old(self), *trace, layers@, *final(self), r),
    {
        if self.failed {
            return ReplayAction::Stopped;
        }
        self.beginning = None;
        if self.opened < self.opening.len() {
            let index: usize = self.opened;
            self.opened = index + 1;
            return match &self.opening[index] {
                ReplayStep::SetCapture(capture) => ReplayAction::SetCapture(*capture),
                ReplayStep::Execute(command) => ReplayAction::Open(command.duplicate()),
            };
        }
        let ghost start = self.position as int;
        let ghost strokes = self.strokes@;
        while self.position < trace.events.len()
            invariant
                start == old(self).position,
                strokes == old(self).strokes@,
                start <= self.position <= trace.events@.len(),
                self.strokes@ == strokes,
                self.beginning is None,
                !self.failed,
                !old(self).failed,
                self.opening == old(self).opening,
                self.opened == old(self).opened,
                self.opened == self.opening@.len(),
                all_passed_over(trace.events@, start, self.position as int, strokes, layers@),
            decreases trace.events@.len() - self.position,
        {
            let index: usize = self.position;
            self.position = index + 1;
            if let TraceEvent::Command(event) = &trace.events[index] {
                match trace_replay_command_payload(event) {
                    Err(error) => {
                        self.failed = true;
                        return ReplayAction::Failed(error);
                    },
                    Ok(recorded) => {
                        let sent = remap_replay_stroke_command(recorded, &self.strokes);
                        if !is_left_out(&sent, &self.strokes, layers, Ghost(*recorded)) {
                            if let CanvasCommand::BeginStroke(_) = &sent {
                                self.beginning = Some(index);
                            }
                            return ReplayAction::Execute(sent);
                        }
                    },
                }
            }
        }
        ReplayAction::Finished
    }

    /// The strokes once the engine answered `output` to the command under way.
    pub open spec fn strokes_after(self, trace: SessionTrace, output: CommandOutput) -> Map<
        u64,
        u64,
    > {
        match (self.beginning, output) {
            (Some(index), CommandOutput::StrokeStarted { id }) => match crate::trace::begin_after(
                trace.events@,
                index + 1,
            ) {
                Some(recorded) => self.strokes@.insert(recorded.0, id.0),
                None => self.strokes@,
            },
            _ => self.strokes@,
        }
    }

    /// Takes note of what the engine answered to the command under way. An error ends the
    /// replay, and is handed on.
    pub fn answered(
        &mut self,
        trace: &SessionTrace,
        result: Result<CommandOutput, CanvasError>,
    ) -> (r: Result<(), CanvasError>)
        ensures
            was_answered(*old(self), *trace, result, *final(self)),
            r == match result {
                Ok(_) => Ok(()),
                Err(error) => Err(error),
            },
    {
        let beginning = self.beginning.take();
        match result {
            Ok(output) => {
                if let Some(index) = beginning {
                    if let CommandOutput::StrokeStarted { id } = output {
                        if let Some(recorded) = trace_stroke_begin_after(trace, index) {
                            self.strokes.insert(recorded, id);
                        }
                    }
                }
                Ok(())
            },
            Err(error) => {
                self.failed = true;
                Err(error)
            },
        }
    }
}

/// The step by which a replay goes on from `before` to `after` and wants `action`. One that
/// failed wants nothing. The opening comes first, then every event that is not passed over; a
/// recorded command that cannot be replayed makes the replay fail.
pub open spec fn stepped(
    before: TraceReplay,
    trace: SessionTrace,
    layers: Seq<LayerSnapshot>,
    after: TraceReplay,
    action: ReplayAction,
) -> bool {
    &&& after.opening == before.opening
    &&& after.strokes@ == before.strokes@
    &&& after.failed == (before.failed || action is Failed)
    &&& if before.failed {
        &&& action is Stopped
        &&& after == before
    } else if before.opened < before.opening@.len() {
        &&& opens_with(before.opening@[before.opened as int], action)
        &&& after.opened == before.opened + 1
        &&& after.position == before.position
        &&& after.beginning is None
    } else if action is Finished {
        &&& after.opened == before.opened
        &&& after.position == trace.events@.len()
        &&& after.beginning is None
        &&& all_passed_over(
            trace.events@,
            before.position as int,
            trace.events@.len() as int,
            before.strokes@,
            layers,
        )
    } else {
        &&& after.opened == before.opened
        &&& before.position < after.position <= trace.events@.len()
        &&& all_passed_over(
            trace.events@,
            before.position as int,
            after.position - 1,
            before.strokes@,
            layers,
        )
        &&& action_for(trace.events@[after.position - 1], before.strokes@, layers, action)
        &&& after.beginning == if action matches ReplayAction::Execute(sent) && sent
            is BeginStroke {
            Some((after.position - 1) as usize)
        } else {
            None
        }
    }
}

/// What a replay makes of the engine's answer to the command under way: it keeps track of a
/// stroke that was begun, and fails at an error.
pub open spec fn was_answered(
    before: TraceReplay,
    trace: SessionTrace,
    result: Result<CommandOutput, CanvasError>,
    after: TraceReplay,
) -> bool {
    &&& after.opening == before.opening
    &&& after.opened == before.opened
    &&& after.position == before.position
    &&& after.beginning is None
    &&& after.strokes@ == match result {
        Ok(output) => before.strokes_after(trace, output),
        Err(_) => before.strokes@,
    }
    &&& after.failed == (before.failed || result is Err)
}

/// A replay went on, or took note of an answer.
pub open spec fn moved_on(before: TraceReplay, trace: SessionTrace, after: TraceReplay) -> bool {
    ||| exists|layers: Seq<LayerSnapshot>, action: ReplayAction|
        stepped(before, trace, layers, after, action)
    ||| exists|result: Result<CommandOutput, CanvasError>|
        was_answered(before, trace, result, after)
}

/// `replays` are the states of one replay, from each to the next.
pub open spec fn run_of(trace: SessionTrace, replays: Seq<TraceReplay>) -> bool {
    forall|i: int, j: int|
        0 <= i && j == i + 1 && j < replays.len() ==> moved_on(
            #[trigger] replays[i],
            trace,
            #[trigger] replays[j],
        )
}

/// A replay stops at its first error, be it the engine's or a recorded command that cannot be
/// replayed: from then on it wants nothing, and looks at no later step or event.
pub proof fn replays_stop_at_the_first_error(
    trace: SessionTrace,
    replays: Seq<TraceReplay>,
    failing: int,
    later: int,
    layers: Seq<LayerSnapshot>,
    after: TraceReplay,
    action: ReplayAction,
)
    requires
        run_of(trace, replays),
        0 <= failing <= later < replays.len(),
        replays[failing].failed,
        stepped(replays[later], trace, layers, after, action),
    ensures
        action is Stopped,
        replays[later].failed,
        replays[later].opened == replays[failing].opened,
        replays[later].position == replays[failing].position,
        after == replays[later],
{
    lemma_failures_stay(trace, replays, failing, later);
}

proof fn lemma_failures_stay(
    trace: SessionTrace,
    replays: Seq<TraceReplay>,
    failing: int,
    later: int,
)
    requires
        run_of(trace, replays),
        0 <= failing <= later < replays.len(),
        replays[failing].failed,
    ensures
        replays[later].failed,
        replays[later].opened == replays[failing].opened,
        replays[later].position == replays[failing].position,
    decreases later,
{
    if failing < later {
        lemma_failures_stay(trace, replays, failing, later - 1);
        assert(moved_on(replays[later - 1], trace, replays[later]));
    }
}

/// A replay that finishes met no error on its way.
pub proof fn finished_replays_met_no_error(
    trace: SessionTrace,
    replays: Seq<TraceReplay>,
    layers: Seq<LayerSnapshot>,
    after: TraceReplay,
)
    requires
        run_of(trace, replays),
        replays.len() > 0,
        stepped(replays.last(), trace, layers, after, ReplayAction::Finished),
    ensures
        !after.failed,
        forall|i: int| 0 <= i < replays.len() ==> !(#[trigger] replays[i]).failed,
{
    assert forall|i: int| 0 <= i < replays.len() implies !(#[trigger] replays[i]).failed by {
        if replays[i].failed {
            lemma_failures_stay(trace, replays, i, replays.len() - 1);
        }
    }
}

/// Once the engine began the stroke `id` for the recorded stroke `recorded`, whatever the
/// record appends to `recorded` is sent to `id`, with the same points.
pub proof fn appends_follow_their_stroke(
    replay: TraceReplay,
    trace: SessionTrace,
    id: StrokeId,
    recorded: StrokeId,
    append: CanvasCommand,
    sent: CanvasCommand,
    layers: Seq<LayerSnapshot>,
)
    requires
        replay.beginning is Some,
        crate::trace::begin_after(trace.events@, replay.beginning->0 + 1) == Some(recorded),
        append is AppendStroke,
        append->AppendStroke_0.stroke == recorded,
        remapped(
            append,
            replay.strokes_after(trace, CommandOutput::StrokeStarted { id }),
            sent,
        ),
    ensures
        !left_out(
            append,
            replay.strokes_after(trace, CommandOutput::StrokeStarted { id }),
            layers,
        ),
        sent is AppendStroke,
        sent->AppendStroke_0.stroke == id,
        sent->AppendStroke_0.points@ == append->AppendStroke_0.points@,
{
    lemma_inserted_value(replay.strokes@, recorded.0, id.0);
}

/// Once the engine began the stroke `id` for the recorded stroke `recorded`, the record's
/// end of `recorded` ends `id`.
pub proof fn ends_follow_their_stroke(
    replay: TraceReplay,
    trace: SessionTrace,
    id: StrokeId,
    recorded: StrokeId,
    sent: CanvasCommand,
    layers: Seq<LayerSnapshot>,
)
    requires
        replay.beginning is Some,
        crate::trace::begin_after(trace.events@, replay.beginning->0 + 1) == Some(recorded),
        remapped(
            CanvasCommand::EndStroke(recorded),
            replay.strokes_after(trace, CommandOutput::StrokeStarted { id }),
            sent,
        ),
    ensures
        !left_out(
            CanvasCommand::EndStroke(recorded),
            replay.strokes_after(trace, CommandOutput::StrokeStarted { id }),
            layers,
        ),
        sent == CanvasCommand::EndStroke(id),
{
    lemma_inserted_value(replay.strokes@, recorded.0, id.0);
}

proof fn lemma_inserted_value(strokes: Map<u64, u64>, key: u64, value: u64)
    ensures
        strokes.insert(key, value).values().contains(value),
{
    assert(strokes.insert(key, value).dom().contains(key));
    assert(strokes.insert(key, value)[key] == value);
}

/// What was begun stays begun: a stroke that another stroke does not take the place of
/// keeps its stand-in.
pub proof fn other_strokes_keep_their_stand_in(
    replay: TraceReplay,
    trace: SessionTrace,
    output: CommandOutput,
    stroke: StrokeId,
)
    requires
        replay.beginning is Some ==> crate::trace::begin_after(
            trace.events@,
            replay.beginning->0 + 1,
        ) != Some(stroke),
    ensures
        crate::trace::stand_in(replay.strokes_after(trace, output), stroke)
            == crate::trace::stand_in(replay.strokes@, stroke),
{
}

/// A stroke whose beginning is not in the record is left out, as long as the engine gave
/// its number to no other stroke of the replay.
pub proof fn orphans_are_left_out(
    command: CanvasCommand,
    stroke: StrokeId,
    strokes: Map<u64, u64>,
    layers: Seq<LayerSnapshot>,
)
    requires
        continued_stroke(command) == Some(stroke),
        !strokes.dom().contains(stroke.0),
        !strokes.values().contains(stroke.0),
    ensures
        left_out(command, strokes, layers),
{
}

/// No layer is added twice.
pub proof fn layers_are_not_added_twice(
    command: CanvasCommand,
    id: LayerId,
    strokes: Map<u64, u64>,
    layers: Seq<LayerSnapshot>,
)
    requires
        added_layer(command) == Some(id),
    ensures
        left_out(command, strokes, layers) <==> crate::layers::has_layer(layers, id),
{
}

/// Whether an event is a command that begins a stroke.
pub open spec fn begins_stroke(event: TraceEvent) -> bool {
    event matches TraceEvent::Command(command) && crate::trace::payload(command) matches Some(
        recorded,
    ) && recorded is BeginStroke
}

/// Which stroke stands for which once the first `count` events were replayed, where
/// `answers` tells the stroke that the engine began for an event, if it began one.
pub open spec fn strokes_at(
    events: Seq<TraceEvent>,
    answers: spec_fn(int) -> Option<StrokeId>,
    count: int,
) -> Map<u64, u64>
    decreases count,
{
    if count <= 0 {
        Map::empty()
    } else {
        let before = strokes_at(events, answers, count - 1);
        if begins_stroke(events[count - 1]) {
            match (crate::trace::begin_after(events, count), answers(count - 1)) {
                (Some(recorded), Some(id)) => before.insert(recorded.0, id.0),
                _ => before,
            }
        } else {
            before
        }
    }
}

proof fn lemma_passing_over_begins_nothing(
    events: Seq<TraceEvent>,
    answers: spec_fn(int) -> Option<StrokeId>,
    start: int,
    end: int,
    strokes: Map<u64, u64>,
    layers: Seq<LayerSnapshot>,
)
    requires
        0 <= start <= end,
        all_passed_over(events, start, end, strokes, layers),
    ensures
        strokes_at(events, answers, end) == strokes_at(events, answers, start),
    decreases end - start,
{
    if start < end {
        assert(passed_over(events[end - 1], strokes, layers));
        lemma_passing_over_begins_nothing(events, answers, start, end - 1, strokes, layers);
    }
}

/// A replay keeps track of the engine's strokes from event to event: if `replay` knows the
/// strokes up to its position, takes its next action and is told the engine's answer, it
/// knows the strokes up to its new position.
pub proof fn replays_keep_track_of_strokes(
    trace: SessionTrace,
    answers: spec_fn(int) -> Option<StrokeId>,
    layers: Seq<LayerSnapshot>,
    replay: TraceReplay,
    sent: CanvasCommand,
    asked: TraceReplay,
    output: CommandOutput,
    told: TraceReplay,
)
    requires
        replay.strokes@ == strokes_at(trace.events@, answers, replay.position as int),
        stepped(replay, trace, layers, asked, ReplayAction::Execute(sent)),
        was_answered(asked, trace, Ok(output), told),
        answers(asked.position - 1) == match output {
            CommandOutput::StrokeStarted { id } => Some(id),
            _ => None,
        },
    ensures
        told.strokes@ == strokes_at(trace.events@, answers, told.position as int),
{
    lemma_passing_over_begins_nothing(
        trace.events@,
        answers,
        replay.position as int,
        asked.position - 1,
        replay.strokes@,
        layers,
    );
}

/// A replay goes through the record event by event: if `replay` knows the strokes up to its
/// position, then `action` is what the event before its new position asks for at that point
/// of the record, and every event in between is passed over at its own.
pub proof fn replays_go_event_by_event(
    trace: SessionTrace,
    answers: spec_fn(int) -> Option<StrokeId>,
    layers: Seq<LayerSnapshot>,
    replay: TraceReplay,
    action: ReplayAction,
    asked: TraceReplay,
)
    requires
        replay.strokes@ == strokes_at(trace.events@, answers, replay.position as int),
        stepped(replay, trace, layers, asked, action),
        action is Execute || action is Failed,
        replay.opened == replay.opening@.len(),
    ensures
        forall|i: int|
            replay.position <= i < asked.position - 1 ==> passed_over(
                #[trigger] trace.events@[i],
                strokes_at(trace.events@, answers, i),
                layers,
            ),
        action_for(
            trace.events@[asked.position - 1],
            strokes_at(trace.events@, answers, asked.position - 1),
            layers,
            action,
        ),
{
    let start = replay.position as int;
    let end = asked.position as int;
    assert forall|i: int| start <= i < end implies strokes_at(trace.events@, answers, i)
        == replay.strokes@ by {
        lemma_passing_over_begins_nothing(
            trace.events@,
            answers,
            start,
            i,
            replay.strokes@,
            layers,
        );
    }
}

/// Whether an event between `start` and before `end` begins the recorded stroke `recorded`
/// anew, in the record and in the engine.
pub open spec fn begun_again(
    events: Seq<TraceEvent>,
    answers: spec_fn(int) -> Option<StrokeId>,
    start: int,
    end: int,
    recorded: StrokeId,
) -> bool {
    exists|i: int|
        start <= i < end && #[trigger] begins_stroke(events[i]) && crate::trace::begin_after(
            events,
            i + 1,
        ) == Some(recorded) && answers(i) is Some
}

/// The engine began the stroke `id` at one of the first `count` events.
pub open spec fn handed_out(
    events: Seq<TraceEvent>,
    answers: spec_fn(int) -> Option<StrokeId>,
    count: int,
    id: StrokeId,
) -> bool {
    exists|i: int|
        0 <= i < count && #[trigger] begins_stroke(events[i]) && answers(i) == Some(id)
}

/// Once the replay of the event `beginning` had the engine begin the stroke `id` for the
/// recorded stroke `recorded`, every later command of the record that continues `recorded`
/// goes to `id`, with its points, until the number is begun again.
pub proof fn strokes_go_to_their_stand_in(
    events: Seq<TraceEvent>,
    answers: spec_fn(int) -> Option<StrokeId>,
    beginning: int,
    index: int,
    recorded: StrokeId,
    id: StrokeId,
    command: CanvasCommand,
    sent: CanvasCommand,
    layers: Seq<LayerSnapshot>,
)
    requires
        0 <= beginning < index,
        begins_stroke(events[beginning]),
        crate::trace::begin_after(events, beginning + 1) == Some(recorded),
        answers(beginning) == Some(id),
        !begun_again(events, answers, beginning + 1, index, recorded),
        continued_stroke(command) == Some(recorded),
        remapped(command, strokes_at(events, answers, index), sent),
    ensures
        !left_out(command, strokes_at(events, answers, index), layers),
        continued_stroke(sent) == Some(id),
        command is AppendStroke ==> sent is AppendStroke && sent->AppendStroke_0.points@
            == command->AppendStroke_0.points@,
        command is EndStroke ==> sent == CanvasCommand::EndStroke(id),
{
    lemma_stand_ins_stay(events, answers, beginning, index, recorded, id);
    let strokes = strokes_at(events, answers, index);
    assert(strokes.values().contains(strokes[recorded.0]));
}

proof fn lemma_stand_ins_stay(
    events: Seq<TraceEvent>,
    answers: spec_fn(int) -> Option<StrokeId>,
    beginning: int,
    index: int,
    recorded: StrokeId,
    id: StrokeId,
)
    requires
        0 <= beginning < index,
        begins_stroke(events[beginning]),
        crate::trace::begin_after(events, beginning + 1) == Some(recorded),
        answers(beginning) == Some(id),
        !begun_again(events, answers, beginning + 1, index, recorded),
    ensures
        strokes_at(events, answers, index).dom().contains(recorded.0),
        strokes_at(events, answers, index)[recorded.0] == id.0,
    decreases index,
{
    if beginning < index - 1 {
        assert(!begun_again(events, answers, beginning + 1, index - 1, recorded)) by {
            if begun_again(events, answers, beginning + 1, index - 1, recorded) {
                let i = choose|i: int|
                    beginning + 1 <= i < index - 1 && #[trigger] begins_stroke(events[i])
                        && crate::trace::begin_after(events, i + 1) == Some(recorded) && answers(
                        i,
                    ) is Some;
                assert(begins_stroke(events[i]));
            }
        }
        lemma_stand_ins_stay(events, answers, beginning, index - 1, recorded, id);
        let last = index - 1;
        if begins_stroke(events[last]) && answers(last) is Some {
            assert(crate::trace::begin_after(events, last + 1) != Some(recorded));
        }
    }
}

/// A command that continues a stroke goes to a stroke that the engine began in the replay, or
/// nowhere: one whose stand-in the engine did not hand out is left out, without an error.
pub proof fn strangers_are_left_out(
    events: Seq<TraceEvent>,
    answers: spec_fn(int) -> Option<StrokeId>,
    index: int,
    command: CanvasCommand,
    stroke: StrokeId,
    layers: Seq<LayerSnapshot>,
)
    requires
        continued_stroke(command) == Some(stroke),
        !handed_out(
            events,
            answers,
            index,
            crate::trace::stand_in(strokes_at(events, answers, index), stroke),
        ),
    ensures
        left_out(command, strokes_at(events, answers, index), layers),
{
    let strokes = strokes_at(events, answers, index);
    let id = crate::trace::stand_in(strokes, stroke);
    if strokes.values().contains(id.0) {
        let key = choose|key: u64| strokes.dom().contains(key) && strokes[key] == id.0;
        lemma_stand_ins_were_handed_out(events, answers, index, key);
    }
}

proof fn lemma_stand_ins_were_handed_out(
    events: Seq<TraceEvent>,
    answers: spec_fn(int) -> Option<StrokeId>,
    count: int,
    key: u64,
)
    requires
        strokes_at(events, answers, count).dom().contains(key),
    ensures
        handed_out(events, answers, count, StrokeId(strokes_at(events, answers, count)[key])),
    decreases count,
{
    if count > 0 {
        let before = strokes_at(events, answers, count - 1);
        let last = count - 1;
        if begins_stroke(events[last]) && answers(last) is Some && crate::trace::begin_after(
            events,
            count,
        ) == Some(StrokeId(key)) {
            assert(begins_stroke(events[last]));
        } else {
            lemma_stand_ins_were_handed_out(events, answers, count - 1, key);
            let id = StrokeId(before[key]);
            let i = choose|i: int|
                0 <= i < last && #[trigger] begins_stroke(events[i]) && answers(i) == Some(id);
            assert(begins_stroke(events[i]));
        }
    }
}

/// A recording that holds the beginning of a stroke loses none of the rest: what it
/// appends to the stroke, and its end, are never left out.
pub proof fn recorded_strokes_are_not_left_out(
    events: Seq<TraceEvent>,
    answers: spec_fn(int) -> Option<StrokeId>,
    beginning: int,
    index: int,
    command: CanvasCommand,
    layers: Seq<LayerSnapshot>,
)
    requires
        0 <= beginning < index,
        begins_stroke(events[beginning]),
        crate::trace::begin_after(events, beginning + 1) is Some,
        answers(beginning) is Some,
        continued_stroke(command) == crate::trace::begin_after(events, beginning + 1),
    ensures
        !left_out(command, strokes_at(events, answers, index), layers),
{
    let recorded = crate::trace::begin_after(events, beginning + 1)->0;
    lemma_begun_strokes_stay(events, answers, beginning, index);
    let strokes = strokes_at(events, answers, index);
    assert(strokes.values().contains(strokes[recorded.0]));
}

proof fn lemma_begun_strokes_stay(
    events: Seq<TraceEvent>,
    answers: spec_fn(int) -> Option<StrokeId>,
    beginning: int,
    index: int,
)
    requires
        0 <= beginning < index,
        begins_stroke(events[beginning]),
        crate::trace::begin_after(events, beginning + 1) is Some,
        answers(beginning) is Some,
    ensures
        ({
            let recorded = crate::trace::begin_after(events, beginning + 1)->0;
            strokes_at(events, answers, index).dom().contains(recorded.0)
        }),
    decreases index,
{
    if beginning < index - 1 {
        lemma_begun_strokes_stay(events, answers, beginning, index - 1);
    }
}

/// One of the four channels of a pixel.
pub open spec fn channel(pixel: Color, index: int) -> Single {
    if index == 0 {
        pixel.red
    } else if index == 1 {
        pixel.green
    } else if index == 2 {
        pixel.blue
    } else {
        pixel.alpha
    }
}

/// `diffs` are the differences between the channels of two images, pixel by pixel.
pub open spec fn channel_diffs<F: Fn(Single, Single) -> Single>(
    a: Seq<Color>,
    b: Seq<Color>,
    abs_diff: F,
    diffs: Seq<Single>,
) -> bool {
    &&& diffs.len() == 4 * a.len()
    &&& forall|i: int|
        0 <= i < diffs.len() ==> call_ensures(
            abs_diff,
            (channel(a[i / 4], i % 4), channel(b[i / 4], i % 4)),
            #[trigger] diffs[i],
        )
}

/// Every channel of an image is a finite number.
pub open spec fn finite_image(image: Seq<Color>) -> bool {
    forall|i: int, c: int| 0 <= i < image.len() && 0 <= c < 4 ==> channel(image[i], c).finite()
}

/// Both images have the same number in every channel of every pixel.
pub open spec fn same_image(a: Seq<Color>, b: Seq<Color>) -> bool {
    &&& a.len() == b.len()
    &&& forall|i: int, c: int|
        0 <= i < a.len() && 0 <= c < 4 ==> #[trigger] channel(a[i], c).same_number(
            channel(b[i], c),
        )
}

/// `abs_diff` measures how far finite numbers are apart: it gives one value for each pair, the
/// same in either order, which is not negative, and which is zero just for equal numbers.
pub open spec fn measures_distance<F: Fn(Single, Single) -> Single>(abs_diff: F) -> bool {
    &&& forall|x: Single, y: Single, u: Single, v: Single|
        #![trigger call_ensures(abs_diff, (x, y), u), call_ensures(abs_diff, (y, x), v)]
        x.finite() && y.finite() && call_ensures(abs_diff, (x, y), u) && call_ensures(
            abs_diff,
            (y, x),
            v,
        ) ==> u == v
    &&& forall|x: Single, y: Single, u: Single|
        x.finite() && y.finite() && #[trigger] call_ensures(abs_diff, (x, y), u) ==> {
            &&& !u.nan()
            &&& !u.negative()
            &&& u == (Single { bits: 0 }) <==> x.same_number(y)
        }
}

/// The difference between two images of finite numbers is the same in either order, and zero
/// just for equal images. `there` and `back` are the differences that a comparison finds in
/// the one order and in the other.
pub proof fn image_difference_is_a_distance<F: Fn(Single, Single) -> Single>(
    a: Seq<Color>,
    b: Seq<Color>,
    abs_diff: F,
    there: Seq<Single>,
    back: Seq<Single>,
)
    requires
        measures_distance(abs_diff),
        a.len() == b.len(),
        finite_image(a),
        finite_image(b),
        channel_diffs(a, b, abs_diff, there),
        channel_diffs(b, a, abs_diff, back),
    ensures
        crate::range::largest(there) == crate::range::largest(back),
        crate::range::largest(there) == (Single { bits: 0 }) <==> same_image(a, b),
{
    assert forall|i: int| 0 <= i < there.len() implies there[i] == back[i] && (there[i] == (
    Single { bits: 0 }) <==> channel(a[i / 4], i % 4).same_number(channel(b[i / 4], i % 4)))
        && !there[i].nan() && !there[i].negative() by {
        let (x, y) = (channel(a[i / 4], i % 4), channel(b[i / 4], i % 4));
        assert(call_ensures(abs_diff, (x, y), there[i]));
        assert(call_ensures(abs_diff, (y, x), back[i]));
    }
    assert(there =~= back);
    crate::range::largest_is_an_upper_bound(there);
    if same_image(a, b) {
        assert forall|i: int| 0 <= i < there.len() implies there[i] == (Single { bits: 0 }) by {
            assert(channel(a[i / 4], i % 4).same_number(channel(b[i / 4], i % 4)));
        }
    }
    if crate::range::largest(there) == (Single { bits: 0 }) {
        assert forall|i: int, c: int|
            0 <= i < a.len() && 0 <= c < 4 implies #[trigger] channel(a[i], c).same_number(
            channel(b[i], c),
        ) by {
            let j = 4 * i + c;
            assert(j / 4 == i && j % 4 == c);
            assert(!crate::range::largest(there).below(there[j]));
            assert(there[j] == (Single { bits: 0 }));
        }
    }
}

/// The largest difference between two images of the same size. `abs_diff` gives the
/// distance between two channels.
pub fn max_pixel_abs_diff<F: Fn(Single, Single) -> Single>(
    a: &[Color],
    b: &[Color],
    abs_diff: F,
) -> (r: Option<Single>)
    requires
        forall|x: Single, y: Single| call_requires(abs_diff, (x, y)),
    ensures
        a@.len() != b@.len() ==> r is None,
        a@.len() == b@.len() ==> r is Some && exists|diffs: Seq<Single>|
            #[trigger] channel_diffs(a@, b@, abs_diff, diffs) && r->0 == crate::range::largest(
                diffs,
            ),
{
    if a.len() != b.len() {
        return None;
    }
    let mut worst = Single::zero();
    let ghost mut diffs: Seq<Single> = Seq::empty();
    let mut i: usize = 0;
    while i < a.len()
        invariant
            i <= a@.len(),
            a@.len() == b@.len(),
            forall|x: Single, y: Single| call_requires(abs_diff, (x, y)),
            diffs.len() == 4 * i,
            forall|j: int|
                0 <= j < 4 * i ==> call_ensures(
                    abs_diff,
                    (channel(a@[j / 4], j % 4), channel(b@[j / 4], j % 4)),
                    #[trigger] diffs[j],
                ),
            worst == crate::range::largest(diffs),
        decreases a@.len() - i,
    {
        let red = abs_diff(a[i].red, b[i].red);
        let green = abs_diff(a[i].green, b[i].green);
        let blue = abs_diff(a[i].blue, b[i].blue);
        let alpha = abs_diff(a[i].alpha, b[i].alpha);
        worst = worst.max(red).max(green).max(blue).max(alpha);
        proof {
            let first = diffs.push(red);
            let second = first.push(green);
            let third = second.push(blue);
            let fourth = third.push(alpha);
            assert(first.drop_last() =~= diffs);
            assert(second.drop_last() =~= first);
            assert(third.drop_last() =~= second);
            assert(fourth.drop_last() =~= third);
            assert(crate::range::largest(first) == crate::range::largest(diffs).larger(red));
            assert(crate::range::largest(second) == crate::range::largest(first).larger(green));
            assert(crate::range::largest(third) == crate::range::largest(second).larger(blue));
            diffs = fourth;
        }
        i += 1;
    }
    assert(channel_diffs(a@, b@, abs_diff, diffs));
    Some(worst)
}

/// How far a rebuilt image is from the original. Images of different sizes cannot be
/// compared.
pub fn rebuild_difference<F: Fn(Single, Single) -> Single>(
    original: &[Color],
    rebuilt: &[Color],
    abs_diff: F,
) -> (r: Result<Single, CanvasError>)
    requires
        forall|x: Single, y: Single| call_requires(abs_diff, (x, y)),
    ensures
        original@.len() != rebuilt@.len() ==> r == Err::<Single, CanvasError>(
            CanvasError::InvalidCanvasSize,
        ),
        original@.len() == rebuilt@.len() ==> r is Ok && differs_by(
            original@,
            rebuilt@,
            abs_diff,
            r->Ok_0,
        ),
{
    match max_pixel_abs_diff(original, rebuilt, abs_diff) {
        Some(difference) => Ok(difference),
        None => Err(CanvasError::InvalidCanvasSize),
    }
}

/// `difference` is the largest difference between two channels of images of the same size.
pub open spec fn differs_by<F: Fn(Single, Single) -> Single>(
    a: Seq<Color>,
    b: Seq<Color>,
    abs_diff: F,
    difference: Single,
) -> bool {
    exists|diffs: Seq<Single>| #[trigger]
        channel_diffs(a, b, abs_diff, diffs) && difference == crate::range::largest(diffs)
}

} // verus!
