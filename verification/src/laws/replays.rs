//! Replaying a record: which commands reach the engine, in which order, and for which stroke.

use crate::brush::Color;
use crate::capture::DataCaptureConfig;
use crate::command::{CanvasCommand, CanvasError, CommandOutput, StrokeId};
use crate::layers::{LayerGroupMode, LayerId, LayerSnapshot};
use crate::replay::{ReplayAction, ReplayStep, TraceReplay};
use crate::scalar::Single;
use crate::trace::{SessionTrace, StrokeIdMap, TraceCommandEvent, TraceEvent, TraceReplayCommand};
use vstd::prelude::*;

verus! {

/// Both commands tell the engine the same, point by point where they hold points.
pub open spec fn tells_the_same(a: CanvasCommand, b: CanvasCommand) -> bool {
    match a {
        CanvasCommand::Brush(x) => b is Brush && b->Brush_0.layer == x.layer && b->Brush_0.mode
            == x.mode && b->Brush_0.points@ == x.points@ && b->Brush_0.radius == x.radius
            && b->Brush_0.color == x.color,
        CanvasCommand::AppendStroke(x) => b is AppendStroke && b->AppendStroke_0.stroke == x.stroke
            && b->AppendStroke_0.points@ == x.points@,
        CanvasCommand::SetPolygonSelection(x) => b is SetPolygonSelection
            && b->SetPolygonSelection_0.points@ == x.points@,
        CanvasCommand::CombinePolygonSelection { polygon, mode } => b is CombinePolygonSelection
            && b->CombinePolygonSelection_polygon.points@ == polygon.points@
            && b->CombinePolygonSelection_mode == mode,
        _ => b == a,
    }
}

/// The command adds a layer.
pub open spec fn adds_a_layer(command: CanvasCommand) -> bool {
    command is AddLayer || command is AddPlainLayer
}

/// The command continues a stroke.
pub open spec fn continues_a_stroke(command: CanvasCommand) -> bool {
    command is AppendStroke || command is EndStroke
}

/// The event holds a command that can be replayed.
pub open spec fn replayable(event: TraceEvent) -> bool {
    event is Command && event->Command_0.replay is Some && event->Command_0.replay->0 is Command
}

/// The command that the event holds.
pub open spec fn held(event: TraceEvent) -> CanvasCommand {
    event->Command_0.replay->0->Command_0
}

/// A replay that is through with its opening and has not failed.
pub open spec fn under_way(replay: TraceReplay) -> bool {
    !replay.failed && replay.opened == replay.opening@.len()
}

/// A recorded command that neither adds a layer nor continues a stroke is never left out,
/// whichever strokes were begun and whichever layers there are.
pub proof fn other_commands_are_never_left_out(
    command: CanvasCommand,
    strokes: Map<u64, u64>,
    layers: Seq<LayerSnapshot>,
)
    requires
        !adds_a_layer(command),
        !continues_a_stroke(command),
    ensures
        !crate::replay::left_out(command, strokes, layers),
{
}

/// A recorded command that neither adds a layer nor continues a stroke reaches the engine as
/// it was recorded, when its turn comes: dabs, selections, layer edits, undo and all.
pub proof fn recorded_commands_reach_the_engine(
    replay: &mut TraceReplay,
    trace: SessionTrace,
    layers: &[LayerSnapshot],
    action: ReplayAction,
)
    requires
        call_ensures(TraceReplay::next, (replay, &trace, layers), action),
        under_way(*old(replay)),
        old(replay).position < trace.events@.len(),
        replayable(trace.events@[old(replay).position as int]),
        !adds_a_layer(held(trace.events@[old(replay).position as int])),
        !continues_a_stroke(held(trace.events@[old(replay).position as int])),
    ensures
        action is Execute,
        tells_the_same(held(trace.events@[old(replay).position as int]), action->Execute_0),
        final(replay).position == old(replay).position + 1,
        !final(replay).failed,
{
    let event = trace.events@[old(replay).position as int];
    assert(!crate::replay::passed_over(event, old(replay).strokes@, layers@));
}

/// A recorded layer is added just when the engine has none of its number yet; if it has, the
/// command is passed over.
pub proof fn recorded_layers_are_added_unless_they_are_there(
    replay: &mut TraceReplay,
    trace: SessionTrace,
    layers: &[LayerSnapshot],
    action: ReplayAction,
    id: LayerId,
)
    requires
        call_ensures(TraceReplay::next, (replay, &trace, layers), action),
        under_way(*old(replay)),
        old(replay).position < trace.events@.len(),
        replayable(trace.events@[old(replay).position as int]),
        ({
            let command = held(trace.events@[old(replay).position as int]);
            (command is AddLayer && command->AddLayer_0.id == id) || command
                == CanvasCommand::AddPlainLayer(id)
        }),
    ensures
        (forall|i: int| 0 <= i < layers@.len() ==> (#[trigger] layers@[i]).spec.id != id)
            ==> action == ReplayAction::Execute(
            held(trace.events@[old(replay).position as int]),
        ) && final(replay).position == old(replay).position + 1,
        (exists|i: int| 0 <= i < layers@.len() && (#[trigger] layers@[i]).spec.id == id)
            ==> final(replay).position != old(replay).position + 1 || action is Finished,
{
    let event = trace.events@[old(replay).position as int];
    let present = crate::layers::has_layer(layers@, id);
    assert(crate::replay::passed_over(event, old(replay).strokes@, layers@) == present);
    if exists|i: int| 0 <= i < layers@.len() && (#[trigger] layers@[i]).spec.id == id {
        let i = choose|i: int| 0 <= i < layers@.len() && (#[trigger] layers@[i]).spec.id == id;
        assert(present);
    }
}

/// What a record appends to a stroke, or the end of it, goes to the stroke that stands for it,
/// with its points, if the replay began that one, and nowhere otherwise.
pub proof fn recorded_strokes_go_to_their_stand_in(
    replay: &mut TraceReplay,
    trace: SessionTrace,
    layers: &[LayerSnapshot],
    action: ReplayAction,
    recorded: StrokeId,
    stand_in: StrokeId,
    begun: bool,
)
    requires
        call_ensures(TraceReplay::next, (replay, &trace, layers), action),
        under_way(*old(replay)),
        old(replay).position < trace.events@.len(),
        replayable(trace.events@[old(replay).position as int]),
        ({
            let command = held(trace.events@[old(replay).position as int]);
            (command is AppendStroke && command->AppendStroke_0.stroke == recorded) || command
                == CanvasCommand::EndStroke(recorded)
        }),
        call_ensures(StrokeIdMap::resolve, (&old(replay).strokes, recorded), stand_in),
        call_ensures(StrokeIdMap::holds, (&old(replay).strokes, stand_in), begun),
    ensures
        begun ==> action is Execute && final(replay).position == old(replay).position + 1,
        begun && held(trace.events@[old(replay).position as int]) is EndStroke
            ==> action->Execute_0 == CanvasCommand::EndStroke(stand_in),
        begun && held(trace.events@[old(replay).position as int]) is AppendStroke
            ==> action->Execute_0 is AppendStroke && action->Execute_0->AppendStroke_0.stroke
            == stand_in && action->Execute_0->AppendStroke_0.points@ == held(
            trace.events@[old(replay).position as int],
        )->AppendStroke_0.points@,
        !begun ==> final(replay).position != old(replay).position + 1 || action is Finished,
{
    let event = trace.events@[old(replay).position as int];
    assert(crate::replay::passed_over(event, old(replay).strokes@, layers@) == !begun);
}

/// A recorded command that cannot be replayed stops the replay at its own event, with the
/// recorder's own words on it.
pub proof fn commands_without_a_payload_stop_the_replay(
    replay: &mut TraceReplay,
    trace: SessionTrace,
    layers: &[LayerSnapshot],
    action: ReplayAction,
)
    requires
        call_ensures(TraceReplay::next, (replay, &trace, layers), action),
        under_way(*old(replay)),
        old(replay).position < trace.events@.len(),
        trace.events@[old(replay).position as int] is Command,
        !replayable(trace.events@[old(replay).position as int]),
    ensures
        action is Failed,
        action->Failed_0 is MissingTraceResource,
        final(replay).failed,
        final(replay).position == old(replay).position + 1,
{
    let event = trace.events@[old(replay).position as int];
    assert(!crate::replay::passed_over(event, old(replay).strokes@, layers@));
}

/// A replay is finished only behind the last event, and past no command that it should have
/// replayed.
pub proof fn replays_finish_behind_the_last_event(
    replay: &mut TraceReplay,
    trace: SessionTrace,
    layers: &[LayerSnapshot],
    action: ReplayAction,
    i: int,
)
    requires
        call_ensures(TraceReplay::next, (replay, &trace, layers), action),
        under_way(*old(replay)),
        action is Finished,
        old(replay).position <= i < trace.events@.len(),
    ensures
        final(replay).position == trace.events@.len(),
        !final(replay).failed,
        trace.events@[i] is Command ==> replayable(trace.events@[i]) && (adds_a_layer(
            held(trace.events@[i]),
        ) || continues_a_stroke(held(trace.events@[i]))),
{
    assert(crate::replay::passed_over(trace.events@[i], old(replay).strokes@, layers@));
}

/// A replay skips nothing on its way to the next command but what it passes over: between its
/// position and the command it wants there is no dab, selection, edit or unreadable command.
pub proof fn replays_skip_nothing_else(
    replay: &mut TraceReplay,
    trace: SessionTrace,
    layers: &[LayerSnapshot],
    action: ReplayAction,
    i: int,
)
    requires
        call_ensures(TraceReplay::next, (replay, &trace, layers), action),
        under_way(*old(replay)),
        action is Execute || action is Failed,
        old(replay).position <= i < final(replay).position - 1,
    ensures
        final(replay).position <= trace.events@.len(),
        trace.events@[i] is Command ==> replayable(trace.events@[i]) && (adds_a_layer(
            held(trace.events@[i]),
        ) || continues_a_stroke(held(trace.events@[i]))),
        trace.events@[final(replay).position - 1] is Command,
{
    assert(crate::replay::passed_over(trace.events@[i], old(replay).strokes@, layers@));
}

/// What a replay wants is told by the event that it came to: a command, remapped but otherwise
/// as recorded, or an error where there is none.
pub proof fn replays_want_what_was_recorded(
    replay: &mut TraceReplay,
    trace: SessionTrace,
    layers: &[LayerSnapshot],
    action: ReplayAction,
)
    requires
        call_ensures(TraceReplay::next, (replay, &trace, layers), action),
        under_way(*old(replay)),
        action is Execute,
    ensures
        old(replay).position < final(replay).position <= trace.events@.len(),
        ({
            let event = trace.events@[final(replay).position - 1];
            &&& replayable(event)
            &&& !continues_a_stroke(held(event)) ==> tells_the_same(held(event), action->Execute_0)
            &&& held(event) is AppendStroke ==> action->Execute_0 is AppendStroke
                && action->Execute_0->AppendStroke_0.points@ == held(event)->AppendStroke_0.points@
            &&& held(event) is EndStroke ==> action->Execute_0 is EndStroke
        }),
        final(replay).strokes@ == old(replay).strokes@,
{
}

/// A replay opens before it replays: recording is switched off first, then the recorded canvas
/// is made, then come its layers.
pub proof fn replays_open_first(
    replay: &mut TraceReplay,
    trace: SessionTrace,
    layers: &[LayerSnapshot],
    action: ReplayAction,
)
    requires
        call_ensures(TraceReplay::next, (replay, &trace, layers), action),
        !old(replay).failed,
        old(replay).opened < old(replay).opening@.len(),
    ensures
        final(replay).opened == old(replay).opened + 1,
        final(replay).position == old(replay).position,
        ({
            let step = old(replay).opening@[old(replay).opened as int];
            &&& step is SetCapture ==> action == ReplayAction::SetCapture(step->SetCapture_0)
            &&& step is Execute ==> action is Open && tells_the_same(
                step->Execute_0,
                action->Open_0,
            )
        }),
{
}

/// A replay opens with the recorded canvas, in the recorded size and settings but without
/// recording, and with every layer that the record started from, as it was and in its place.
pub proof fn replays_open_with_what_was_recorded(
    trace: SessionTrace,
    base: &[LayerSnapshot],
    replay: TraceReplay,
    steps: Vec<ReplayStep>,
    i: int,
)
    requires
        call_ensures(TraceReplay::new, (&trace, base), replay),
        call_ensures(crate::replay::replay_opening, (&trace, base), steps),
        0 <= i < base@.len(),
    ensures
        replay.opening@ == steps@,
        replay.opened == 0 && replay.position == 0 && !replay.failed && replay.beginning is None,
        replay.strokes@.dom().is_empty(),
        steps@.len() >= 2 + base@.len(),
        steps@[0] is SetCapture,
        !steps@[0]->SetCapture_0.enabled,
        steps@[0]->SetCapture_0.level == trace.canvas.data_capture.level,
        steps@[0]->SetCapture_0.max_bytes_per_session
            == trace.canvas.data_capture.max_bytes_per_session,
        steps@[0]->SetCapture_0.allow_gpu_readback == trace.canvas.data_capture.allow_gpu_readback,
        steps@[1] is Execute && steps@[1]->Execute_0 is NewCanvas,
        steps@[1]->Execute_0->NewCanvas_0.width == trace.canvas.width,
        steps@[1]->Execute_0->NewCanvas_0.height == trace.canvas.height,
        steps@[1]->Execute_0->NewCanvas_0.tile_size == trace.canvas.tile_size,
        steps@[1]->Execute_0->NewCanvas_0.history_budget_bytes
            == trace.canvas.history_budget_bytes,
        steps@[1]->Execute_0->NewCanvas_0.streaming_sample_min_distance
            == trace.canvas.streaming_sample_min_distance,
        steps@[1]->Execute_0->NewCanvas_0.stabilizer == trace.canvas.stabilizer,
        steps@[1]->Execute_0->NewCanvas_0.prediction == trace.canvas.prediction,
        !steps@[1]->Execute_0->NewCanvas_0.data_capture.enabled,
        steps@[2 + i] == ReplayStep::Execute(CanvasCommand::AddLayer(base@[i].spec)),
{
    assert(crate::trace::base_layer_plan(base@)[i] == CanvasCommand::AddLayer(base@[i].spec));
}

/// Every base layer is added, in its order, before any is arranged; then each that has a
/// parent is put under it, each that is an isolated group is made one, and no other layer is
/// touched.
pub proof fn base_layers_are_restored(
    layers: &[LayerSnapshot],
    commands: Vec<CanvasCommand>,
    i: int,
)
    requires
        call_ensures(crate::trace::trace_base_layer_commands, (layers,), commands),
        0 <= i < layers@.len(),
    ensures
        commands@.len() >= layers@.len(),
        commands@[i] == CanvasCommand::AddLayer(layers@[i].spec),
        layers@[i].parent is Some ==> exists|k: int|
            layers@.len() <= k < commands@.len() && #[trigger] commands@[k]
                == (CanvasCommand::SetLayerParent {
                id: layers@[i].spec.id,
                parent: layers@[i].parent,
            }),
        layers@[i].group_mode == LayerGroupMode::Isolated ==> exists|k: int|
            layers@.len() <= k < commands@.len() && #[trigger] commands@[k]
                == (CanvasCommand::SetLayerGroupMode {
                id: layers@[i].spec.id,
                mode: LayerGroupMode::Isolated,
            }),
{
    let added = layers@.map_values(|layer: LayerSnapshot| CanvasCommand::AddLayer(layer.spec));
    lemma_layers_are_arranged(layers@, i);
    let rest = crate::trace::arrangement(layers@);
    if layers@[i].parent is Some {
        let wanted = CanvasCommand::SetLayerParent {
            id: layers@[i].spec.id,
            parent: layers@[i].parent,
        };
        let k = choose|k: int| 0 <= k < rest.len() && #[trigger] rest[k] == wanted;
        assert(commands@[added.len() + k] == wanted);
    }
    if layers@[i].group_mode == LayerGroupMode::Isolated {
        let wanted = CanvasCommand::SetLayerGroupMode {
            id: layers@[i].spec.id,
            mode: LayerGroupMode::Isolated,
        };
        let k = choose|k: int| 0 <= k < rest.len() && #[trigger] rest[k] == wanted;
        assert(commands@[added.len() + k] == wanted);
    }
}

proof fn lemma_layers_are_arranged(layers: Seq<LayerSnapshot>, i: int)
    requires
        0 <= i < layers.len(),
    ensures
        layers[i].parent is Some ==> exists|k: int|
            0 <= k < crate::trace::arrangement(layers).len()
                && #[trigger] crate::trace::arrangement(layers)[k]
                == (CanvasCommand::SetLayerParent {
                id: layers[i].spec.id,
                parent: layers[i].parent,
            }),
        layers[i].group_mode == LayerGroupMode::Isolated ==> exists|k: int|
            0 <= k < crate::trace::arrangement(layers).len()
                && #[trigger] crate::trace::arrangement(layers)[k]
                == (CanvasCommand::SetLayerGroupMode {
                id: layers[i].spec.id,
                mode: LayerGroupMode::Isolated,
            }),
    decreases layers.len(),
{
    let whole = crate::trace::arrangement(layers);
    let before = crate::trace::arrangement(layers.drop_last());
    let last = crate::trace::placement(layers.last());
    let parented = CanvasCommand::SetLayerParent { id: layers[i].spec.id, parent: layers[i].parent };
    let grouped = CanvasCommand::SetLayerGroupMode {
        id: layers[i].spec.id,
        mode: LayerGroupMode::Isolated,
    };
    if i < layers.len() - 1 {
        lemma_layers_are_arranged(layers.drop_last(), i);
        assert(layers.drop_last()[i] == layers[i]);
        if layers[i].parent is Some {
            let k = choose|k: int| 0 <= k < before.len() && #[trigger] before[k] == parented;
            assert(whole[k] == parented);
        }
        if layers[i].group_mode == LayerGroupMode::Isolated {
            let k = choose|k: int| 0 <= k < before.len() && #[trigger] before[k] == grouped;
            assert(whole[k] == grouped);
        }
    } else {
        if layers[i].parent is Some {
            assert(last[0] == parented);
            assert(whole[before.len() as int] == parented);
        }
        if layers[i].group_mode == LayerGroupMode::Isolated {
            assert(last[last.len() - 1] == grouped);
            assert(whole[before.len() + last.len() - 1] == grouped);
        }
    }
}

/// A base layer is arranged as it was and in no other way: every command behind the layers
/// puts one of them under its own parent, or isolates one that was isolated.
pub proof fn base_layers_are_arranged_as_they_were(
    layers: &[LayerSnapshot],
    commands: Vec<CanvasCommand>,
    k: int,
)
    requires
        call_ensures(crate::trace::trace_base_layer_commands, (layers,), commands),
        layers@.len() <= k < commands@.len(),
    ensures
        exists|i: int|
            0 <= i < layers@.len() && ((#[trigger] layers@[i]).parent is Some && commands@[k]
                == (CanvasCommand::SetLayerParent {
                id: layers@[i].spec.id,
                parent: layers@[i].parent,
            }) || layers@[i].group_mode == LayerGroupMode::Isolated && commands@[k]
                == (CanvasCommand::SetLayerGroupMode {
                id: layers@[i].spec.id,
                mode: LayerGroupMode::Isolated,
            })),
{
    lemma_arrangements_are_of_layers(layers@, k - layers@.len());
    assert(commands@[k] == crate::trace::arrangement(layers@)[k - layers@.len()]);
}

proof fn lemma_arrangements_are_of_layers(layers: Seq<LayerSnapshot>, k: int)
    requires
        0 <= k < crate::trace::arrangement(layers).len(),
    ensures
        exists|i: int|
            0 <= i < layers.len() && ((#[trigger] layers[i]).parent is Some
                && crate::trace::arrangement(layers)[k] == (CanvasCommand::SetLayerParent {
                id: layers[i].spec.id,
                parent: layers[i].parent,
            }) || layers[i].group_mode == LayerGroupMode::Isolated
                && crate::trace::arrangement(layers)[k] == (CanvasCommand::SetLayerGroupMode {
                id: layers[i].spec.id,
                mode: LayerGroupMode::Isolated,
            })),
    decreases layers.len(),
{
    let before = crate::trace::arrangement(layers.drop_last());
    if k < before.len() {
        lemma_arrangements_are_of_layers(layers.drop_last(), k);
        let earlier = layers.drop_last();
        let i = choose|i: int|
            0 <= i < earlier.len() && ((#[trigger] earlier[i]).parent is Some && before[k]
                == (CanvasCommand::SetLayerParent {
                id: earlier[i].spec.id,
                parent: earlier[i].parent,
            }) || earlier[i].group_mode == LayerGroupMode::Isolated && before[k]
                == (CanvasCommand::SetLayerGroupMode {
                id: earlier[i].spec.id,
                mode: LayerGroupMode::Isolated,
            }));
        assert(layers[i] == earlier[i]);
    } else {
        let i = layers.len() - 1;
        assert(crate::trace::arrangement(layers)[k] == crate::trace::placement(layers[i])[k
            - before.len()]);
    }
}

/// The capture setting and the first commands of a replay are the recorded ones, but for the
/// recording, which is off.
pub proof fn replays_are_set_up_as_recorded(
    trace: SessionTrace,
    base: &[LayerSnapshot],
    capture: DataCaptureConfig,
    commands: Vec<CanvasCommand>,
    restored: Vec<CanvasCommand>,
)
    requires
        call_ensures(crate::trace::replay_capture, (&trace,), capture),
        call_ensures(crate::trace::replay_preamble, (&trace, base), commands),
        call_ensures(crate::trace::trace_base_layer_commands, (base,), restored),
    ensures
        !capture.enabled,
        capture == (DataCaptureConfig { enabled: false, ..trace.canvas.data_capture }),
        commands@.len() == restored@.len() + 1,
        commands@[0] == CanvasCommand::NewCanvas(
            crate::config::CanvasConfig { data_capture: capture, ..trace.canvas },
        ),
        forall|i: int| 0 <= i < restored@.len() ==> commands@[i + 1] == #[trigger] restored@[i],
{
}

/// The engine's answer ends the command under way. If the engine began a stroke for it, later
/// commands on the recorded stroke go there; an error is handed on and stops the replay.
pub proof fn answers_are_taken_note_of(
    replay: &mut TraceReplay,
    trace: SessionTrace,
    result: Result<CommandOutput, CanvasError>,
    outcome: Result<(), CanvasError>,
    recorded: Option<StrokeId>,
    other: StrokeId,
    before: StrokeId,
    after: StrokeId,
)
    requires
        call_ensures(TraceReplay::answered, (replay, &trace, result), outcome),
        old(replay).beginning is Some ==> call_ensures(
            crate::trace::trace_stroke_begin_after,
            (&trace, old(replay).beginning->0),
            recorded,
        ),
        old(replay).beginning is None ==> recorded is None,
        call_ensures(StrokeIdMap::resolve, (&old(replay).strokes, other), before),
        call_ensures(StrokeIdMap::resolve, (&final(replay).strokes, other), after),
    ensures
        result is Ok ==> outcome is Ok && final(replay).failed == old(replay).failed,
        result is Err ==> outcome == Err::<(), CanvasError>(result->Err_0)
            && final(replay).failed,
        result is Ok && result->Ok_0 is StrokeStarted && recorded == Some(other) ==> after
            == result->Ok_0->id,
        recorded != Some(other) || result is Err || !(result->Ok_0 is StrokeStarted) ==> after
            == before,
        final(replay).beginning is None,
        final(replay).position == old(replay).position,
        final(replay).opened == old(replay).opened,
        final(replay).opening == old(replay).opening,
{
}

/// A command that begins a stroke is kept in mind until the engine answers, and no other is.
pub proof fn beginnings_are_kept_in_mind(
    replay: &mut TraceReplay,
    trace: SessionTrace,
    layers: &[LayerSnapshot],
    action: ReplayAction,
)
    requires
        call_ensures(TraceReplay::next, (replay, &trace, layers), action),
        under_way(*old(replay)),
    ensures
        action is Execute && action->Execute_0 is BeginStroke ==> final(replay).beginning
            == Some((final(replay).position - 1) as usize),
        !(action is Execute && action->Execute_0 is BeginStroke) ==> final(replay).beginning
            is None,
{
}

/// The stroke that a recorded command began is the first one that the record begins behind it,
/// before the next command; without one there is none.
pub proof fn beginnings_are_recorded_behind_their_command(
    trace: SessionTrace,
    index: usize,
    found: Option<StrokeId>,
    i: int,
    stroke: StrokeId,
)
    requires
        call_ensures(crate::trace::trace_stroke_begin_after, (&trace, index), found),
        index < i <= trace.events@.len(),
        forall|j: int| index < j < i ==> #[trigger] trace.events@[j] is Other,
    ensures
        i < trace.events@.len() && trace.events@[i] == TraceEvent::StrokeBegin(stroke) ==> found
            == Some(stroke),
        i < trace.events@.len() && trace.events@[i] is Command ==> found is None,
        i == trace.events@.len() ==> found is None,
{
    lemma_others_are_passed_over(trace.events@, index + 1, i);
}

proof fn lemma_others_are_passed_over(events: Seq<TraceEvent>, start: int, end: int)
    requires
        0 <= start <= end <= events.len(),
        forall|j: int| start <= j < end ==> #[trigger] events[j] is Other,
    ensures
        crate::trace::begin_after(events, start) == crate::trace::begin_after(events, end),
    decreases end - start,
{
    if start < end {
        assert(events[start] is Other);
        lemma_others_are_passed_over(events, start + 1, end);
    }
}

/// A stroke stands for the one that was noted for it last, and for itself if none was; and
/// those are the strokes that the replay began.
pub proof fn strokes_stand_for_the_one_noted_last(
    strokes: &mut StrokeIdMap,
    recorded: StrokeId,
    replayed: StrokeId,
    other: StrokeId,
    stands: StrokeId,
    before: StrokeId,
    after: StrokeId,
    known: bool,
    fresh: StrokeIdMap,
    own: StrokeId,
    found: bool,
)
    requires
        call_ensures(StrokeIdMap::insert, (strokes, recorded, replayed), ()),
        call_ensures(StrokeIdMap::resolve, (&*final(strokes), recorded), stands),
        call_ensures(StrokeIdMap::resolve, (&*old(strokes), other), before),
        call_ensures(StrokeIdMap::resolve, (&*final(strokes), other), after),
        call_ensures(StrokeIdMap::holds, (&*final(strokes), replayed), known),
        call_ensures(StrokeIdMap::new, (), fresh),
        call_ensures(StrokeIdMap::resolve, (&fresh, other), own),
        call_ensures(StrokeIdMap::holds, (&fresh, other), found),
    ensures
        stands == replayed,
        known,
        other != recorded ==> after == before,
        own == other,
        !found,
{
    let noted = final(strokes)@;
    assert(noted.dom().contains(recorded.0) && noted[recorded.0] == replayed.0);
    assert(noted.values().contains(noted[recorded.0]));
}

/// A stroke is known to the replay only if it was noted as standing for one.
pub proof fn only_noted_strokes_are_known(
    strokes: &mut StrokeIdMap,
    recorded: StrokeId,
    replayed: StrokeId,
    other: StrokeId,
    before: bool,
    after: bool,
)
    requires
        call_ensures(StrokeIdMap::insert, (strokes, recorded, replayed), ()),
        call_ensures(StrokeIdMap::holds, (&*old(strokes), other), before),
        call_ensures(StrokeIdMap::holds, (&*final(strokes), other), after),
    ensures
        after ==> before || other == replayed,
{
    let (old_map, new_map) = (old(strokes)@, final(strokes)@);
    if after && other != replayed {
        let key = choose|key: u64| new_map.dom().contains(key) && new_map[key] == other.0;
        assert(old_map.dom().contains(key) && old_map[key] == other.0);
        assert(old_map.values().contains(old_map[key]));
    }
}

/// A command on a stroke is sent to its stand-in with its points as they were, and any other
/// command is sent as it is.
pub proof fn commands_are_remapped_and_nothing_else(
    command: CanvasCommand,
    strokes: StrokeIdMap,
    stroke: StrokeId,
    stands: StrokeId,
    sent: CanvasCommand,
)
    requires
        call_ensures(crate::replay::remap_replay_stroke_command, (&command, &strokes), sent),
        call_ensures(StrokeIdMap::resolve, (&strokes, stroke), stands),
    ensures
        command == CanvasCommand::EndStroke(stroke) ==> sent == CanvasCommand::EndStroke(stands),
        command is AppendStroke && command->AppendStroke_0.stroke == stroke ==> sent
            is AppendStroke && sent->AppendStroke_0.stroke == stands
            && sent->AppendStroke_0.points@ == command->AppendStroke_0.points@,
        !continues_a_stroke(command) ==> tells_the_same(command, sent),
{
}

/// A duplicate tells the engine the same as the command it was made of.
pub proof fn duplicates_tell_the_same(command: CanvasCommand, copy: CanvasCommand)
    requires
        call_ensures(CanvasCommand::duplicate, (&command,), copy),
    ensures
        tells_the_same(command, copy),
{
}

/// A recorded command is replayed as it was recorded, if it was recorded whole; if not, the
/// error says which of the two is missing and what the recorder wrote.
pub proof fn payloads_are_what_was_recorded(
    event: TraceCommandEvent,
    found: Result<&CanvasCommand, CanvasError>,
)
    requires
        call_ensures(crate::trace::trace_replay_command_payload, (&event,), found),
    ensures
        found is Ok <==> event.replay is Some && event.replay->0 is Command,
        found is Ok ==> *found->Ok_0 == event.replay->0->Command_0,
        found is Err ==> found->Err_0 is MissingTraceResource,
        found is Err && event.replay is None ==> found->Err_0->MissingTraceResource_0@
            == "测试程序重构缺少可执行 command replay payload；"@ + event.diagnostic@,
        found is Err && event.replay is Some ==> found->Err_0->MissingTraceResource_0@
            == "测试程序重构暂不解析外部资源引用；"@ + event.diagnostic@,
{
}

/// No channel of the rebuilt image is farther from the original than the difference that is
/// told, and images of different sizes are not compared.
pub proof fn differences_bound_every_channel<F: Fn(Single, Single) -> Single>(
    original: &[Color],
    rebuilt: &[Color],
    abs_diff: F,
    difference: Option<Single>,
    compared: Result<Single, CanvasError>,
    i: int,
) -> (apart: (Single, Single, Single, Single))
    requires
        call_ensures(
            crate::replay::max_pixel_abs_diff::<F>,
            (original, rebuilt, abs_diff),
            difference,
        ),
        call_ensures(
            crate::replay::rebuild_difference::<F>,
            (original, rebuilt, abs_diff),
            compared,
        ),
        0 <= i < original@.len(),
    ensures
        difference is Some <==> original@.len() == rebuilt@.len(),
        compared is Ok <==> original@.len() == rebuilt@.len(),
        compared is Err ==> compared->Err_0 is InvalidCanvasSize,
        difference is Some ==> {
            let (a, b) = (original@[i], rebuilt@[i]);
            &&& call_ensures(abs_diff, (a.red, b.red), apart.0)
            &&& call_ensures(abs_diff, (a.green, b.green), apart.1)
            &&& call_ensures(abs_diff, (a.blue, b.blue), apart.2)
            &&& call_ensures(abs_diff, (a.alpha, b.alpha), apart.3)
            &&& !difference->0.below(apart.0)
            &&& !difference->0.below(apart.1)
            &&& !difference->0.below(apart.2)
            &&& !difference->0.below(apart.3)
            &&& !difference->0.nan()
        },
{
    if difference is Some {
        let diffs = choose|diffs: Seq<Single>|
            #[trigger] crate::replay::channel_diffs(original@, rebuilt@, abs_diff, diffs)
                && difference->0 == crate::range::largest(diffs);
        crate::range::largest_is_an_upper_bound(diffs);
        let k = 4 * i;
        assert(k / 4 == i && k % 4 == 0);
        assert((k + 1) / 4 == i && (k + 1) % 4 == 1);
        assert((k + 2) / 4 == i && (k + 2) % 4 == 2);
        assert((k + 3) / 4 == i && (k + 3) % 4 == 3);
        (diffs[k], diffs[k + 1], diffs[k + 2], diffs[k + 3])
    } else {
        (
            Single { bits: 0 },
            Single { bits: 0 },
            Single { bits: 0 },
            Single { bits: 0 },
        )
    }
}

/// The difference that is told is that of some channel of some pixel, or zero.
pub proof fn differences_are_of_some_channel<F: Fn(Single, Single) -> Single>(
    original: &[Color],
    rebuilt: &[Color],
    abs_diff: F,
    difference: Option<Single>,
) -> (i: int)
    requires
        call_ensures(
            crate::replay::max_pixel_abs_diff::<F>,
            (original, rebuilt, abs_diff),
            difference,
        ),
        difference is Some,
        difference->0.bits != 0,
    ensures
        0 <= i < original@.len(),
        ({
            let (a, b) = (original@[i], rebuilt@[i]);
            ||| call_ensures(abs_diff, (a.red, b.red), difference->0)
            ||| call_ensures(abs_diff, (a.green, b.green), difference->0)
            ||| call_ensures(abs_diff, (a.blue, b.blue), difference->0)
            ||| call_ensures(abs_diff, (a.alpha, b.alpha), difference->0)
        }),
{
    let diffs = choose|diffs: Seq<Single>|
        #[trigger] crate::replay::channel_diffs(original@, rebuilt@, abs_diff, diffs)
            && difference->0 == crate::range::largest(diffs);
    crate::range::largest_is_an_upper_bound(diffs);
    let k = choose|k: int| 0 <= k < diffs.len() && diffs[k] == difference->0;
    assert(0 <= k / 4 < original@.len());
    k / 4
}

/// A replay that failed wants nothing more and stays as it is; one that came behind the last
/// event is finished, and stays so however often it is asked.
pub proof fn replays_come_to_an_end(
    replay: &mut TraceReplay,
    trace: SessionTrace,
    layers: &[LayerSnapshot],
    action: ReplayAction,
)
    requires
        call_ensures(TraceReplay::next, (replay, &trace, layers), action),
    ensures
        old(replay).failed ==> action is Stopped && *final(replay) == *old(replay),
        action is Stopped ==> old(replay).failed,
        under_way(*old(replay)) && old(replay).position == trace.events@.len() ==> action
            is Finished && final(replay).position == old(replay).position
            && !final(replay).failed,
        action is SetCapture || action is Open ==> old(replay).opened
            < old(replay).opening@.len(),
{
}

/// Where a replay fails, it fails with the error for the payload of the command it came to.
pub proof fn replays_fail_with_the_error_of_their_command(
    replay: &mut TraceReplay,
    trace: SessionTrace,
    layers: &[LayerSnapshot],
    action: ReplayAction,
    found: Result<&CanvasCommand, CanvasError>,
)
    requires
        call_ensures(TraceReplay::next, (replay, &trace, layers), action),
        under_way(*old(replay)),
        action is Failed,
        call_ensures(
            crate::trace::trace_replay_command_payload,
            (&trace.events@[final(replay).position - 1]->Command_0,),
            found,
        ),
    ensures
        found is Err,
        action->Failed_0 is MissingTraceResource && found->Err_0 is MissingTraceResource,
        action->Failed_0->MissingTraceResource_0@ == found->Err_0->MissingTraceResource_0@,
{
}

/// Base layers are arranged one by one, in their order: with one layer more, what arranges the
/// others stays and that layer's own parent, then its own group, come behind.
pub proof fn base_layers_are_arranged_one_by_one(
    layers: &[LayerSnapshot],
    fewer: &[LayerSnapshot],
    commands: Vec<CanvasCommand>,
    earlier: Vec<CanvasCommand>,
)
    requires
        call_ensures(crate::trace::trace_base_layer_commands, (layers,), commands),
        call_ensures(crate::trace::trace_base_layer_commands, (fewer,), earlier),
        layers@.len() > 0,
        fewer@ == layers@.drop_last(),
    ensures
        ({
            let last = layers@[layers@.len() - 1];
            let parent = CanvasCommand::SetLayerParent { id: last.spec.id, parent: last.parent };
            let group = CanvasCommand::SetLayerGroupMode {
                id: last.spec.id,
                mode: LayerGroupMode::Isolated,
            };
            let own = if last.parent is Some && last.group_mode == LayerGroupMode::Isolated {
                seq![parent, group]
            } else if last.parent is Some {
                seq![parent]
            } else if last.group_mode == LayerGroupMode::Isolated {
                seq![group]
            } else {
                Seq::empty()
            };
            commands@.skip(layers@.len() as int) == earlier@.skip(fewer@.len() as int) + own
        }),
{
    let rest = crate::trace::arrangement(layers@);
    assert(commands@.skip(layers@.len() as int) =~= rest);
    assert(earlier@.skip(fewer@.len() as int) =~= crate::trace::arrangement(fewer@));
}

/// What is no command is passed over: the next command behind it reaches the engine, unless it
/// adds a layer or continues a stroke.
pub proof fn what_is_no_command_is_passed_over(
    replay: &mut TraceReplay,
    trace: SessionTrace,
    layers: &[LayerSnapshot],
    action: ReplayAction,
    i: int,
)
    requires
        call_ensures(TraceReplay::next, (replay, &trace, layers), action),
        under_way(*old(replay)),
        old(replay).position <= i < trace.events@.len(),
        forall|j: int| old(replay).position <= j < i ==> !(#[trigger] trace.events@[j] is Command),
        replayable(trace.events@[i]),
        !adds_a_layer(held(trace.events@[i])),
        !continues_a_stroke(held(trace.events@[i])),
    ensures
        action is Execute,
        tells_the_same(held(trace.events@[i]), action->Execute_0),
        final(replay).position == i + 1,
        final(replay).opened == old(replay).opened,
        final(replay).opening == old(replay).opening,
{
    let (strokes, events) = (old(replay).strokes@, trace.events@);
    assert(!crate::replay::passed_over(events[i], strokes, layers@));
    if action is Execute || action is Failed {
        let at = final(replay).position - 1;
        if at < i {
            assert(!(events[at] is Command));
        }
    }
}

} // verus!
