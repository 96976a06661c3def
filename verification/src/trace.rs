//! Recorded drawing sessions: what is said about them, and how they are replayed.

use crate::capture::DataCaptureConfig;
use crate::command::{CanvasCommand, CanvasError, StrokeId};
use crate::config::CanvasConfig;
use crate::layers::{LayerGroupMode, LayerSnapshot};
use crate::text::{joined, push_decimal, starts_with};
use std::collections::HashMap;
use vstd::prelude::*;
use vstd::string::StringExecFns;

verus! {

broadcast use vstd::std_specs::hash::group_hash_axioms;

pub open spec fn trace_rebuild_unavailable_text(
    enabled: bool,
    has_current_trace: bool,
    has_cached_trace: bool,
) -> Seq<char> {
    if has_current_trace || has_cached_trace {
        "已有可重构记录"@
    } else if enabled {
        "记录为空，无法重构"@
    } else {
        "记录未启用，无法重构"@
    }
}

/// Why nothing can be rebuilt.
pub fn trace_rebuild_unavailable_message(
    enabled: bool,
    has_current_trace: bool,
    has_cached_trace: bool,
) -> (r: &'static str)
    ensures
        r@ == trace_rebuild_unavailable_text(enabled, has_current_trace, has_cached_trace),
{
    match (enabled, has_current_trace, has_cached_trace) {
        (_, true, _) | (_, _, true) => "已有可重构记录",
        (false, false, false) => "记录未启用，无法重构",
        (true, false, false) => "记录为空，无法重构",
    }
}

pub open spec fn trace_status_text(
    enabled: bool,
    has_current_trace: bool,
    has_cached_trace: bool,
) -> Seq<char> {
    if has_current_trace {
        "正在记录当前绘画"@
    } else if !has_cached_trace {
        "还没有可用记录"@
    } else if enabled {
        "当前记录未创建，仍可重构上次记录"@
    } else {
        "记录已停止，可重构上次记录"@
    }
}

/// What the recording is doing.
pub fn trace_status_label(enabled: bool, has_current_trace: bool, has_cached_trace: bool) -> (r:
    &'static str)
    ensures
        r@ == trace_status_text(enabled, has_current_trace, has_cached_trace),
{
    match (enabled, has_current_trace, has_cached_trace) {
        (_, true, _) => "正在记录当前绘画",
        (false, false, true) => "记录已停止，可重构上次记录",
        (true, false, true) => "当前记录未创建，仍可重构上次记录",
        _ => "还没有可用记录",
    }
}

/// The status says that there is no record just when a rebuild finds none.
pub proof fn status_and_rebuild_agree(
    enabled: bool,
    has_current_trace: bool,
    has_cached_trace: bool,
)
    ensures
        trace_status_text(enabled, has_current_trace, has_cached_trace) == "还没有可用记录"@
            <==> trace_rebuild_unavailable_text(enabled, has_current_trace, has_cached_trace)
            != "已有可重构记录"@,
{
    reveal_strlit("已有可重构记录");
    reveal_strlit("记录为空，无法重构");
    reveal_strlit("记录未启用，无法重构");
    reveal_strlit("正在记录当前绘画");
    reveal_strlit("还没有可用记录");
    reveal_strlit("当前记录未创建，仍可重构上次记录");
    reveal_strlit("记录已停止，可重构上次记录");
    let status = trace_status_text(enabled, has_current_trace, has_cached_trace);
    let rebuild = trace_rebuild_unavailable_text(enabled, has_current_trace, has_cached_trace);
    assert(has_current_trace || has_cached_trace ==> status.len() != "还没有可用记录"@.len());
    assert(!has_current_trace && !has_cached_trace ==> rebuild.len() != "已有可重构记录"@.len());
}

/// What is said when a rebuilt canvas cannot be shown.
pub fn trace_texture_registration_error_message(error: &str) -> (r: String)
    ensures
        r@ == "重构已完成，但显示纹理注册失败："@ + error@,
{
    joined("重构已完成，但显示纹理注册失败：", error)
}

/// What a recording counted.
#[derive(Clone, Copy, Debug, PartialEq, Eq, Structural)]
pub struct TraceReport {
    pub event_count: u64,
    pub command_count: u64,
    pub stroke_count: u64,
    pub stroke_append_count: u64,
    pub point_count: u64,
    pub layer_event_count: u64,
    pub selection_event_count: u64,
    pub dirty_summary_count: u64,
    pub resource_reference_count: u64,
    pub degradation_count: u64,
    pub estimated_bytes: u64,
}

/// The counters of a recording in one line.
pub open spec fn report_text(report: TraceReport) -> Seq<char> {
    "事件="@ + crate::text::decimal(report.event_count as nat) + "，命令="@ + crate::text::decimal(
        report.command_count as nat,
    ) + "，笔触="@ + crate::text::decimal(report.stroke_count as nat) + "，追加="@
        + crate::text::decimal(report.stroke_append_count as nat) + "，点="@ + crate::text::decimal(
        report.point_count as nat,
    ) + "，图层事件="@ + crate::text::decimal(report.layer_event_count as nat) + "，选区事件="@
        + crate::text::decimal(report.selection_event_count as nat) + "，dirty 摘要="@
        + crate::text::decimal(report.dirty_summary_count as nat) + "，资源引用="@
        + crate::text::decimal(report.resource_reference_count as nat) + "，降级="@
        + crate::text::decimal(report.degradation_count as nat) + "，估算="@ + crate::text::decimal(
        (report.estimated_bytes / 1024) as nat,
    ) + " KB"@
}

pub fn trace_report_summary(report: &TraceReport) -> (r: String)
    ensures
        r@ == report_text(*report),
{
    let mut out = "事件=".to_owned();
    push_decimal(&mut out, report.event_count);
    out.append("，命令=");
    push_decimal(&mut out, report.command_count);
    out.append("，笔触=");
    push_decimal(&mut out, report.stroke_count);
    out.append("，追加=");
    push_decimal(&mut out, report.stroke_append_count);
    out.append("，点=");
    push_decimal(&mut out, report.point_count);
    out.append("，图层事件=");
    push_decimal(&mut out, report.layer_event_count);
    out.append("，选区事件=");
    push_decimal(&mut out, report.selection_event_count);
    out.append("，dirty 摘要=");
    push_decimal(&mut out, report.dirty_summary_count);
    out.append("，资源引用=");
    push_decimal(&mut out, report.resource_reference_count);
    out.append("，降级=");
    push_decimal(&mut out, report.degradation_count);
    out.append("，估算=");
    push_decimal(&mut out, report.estimated_bytes / 1024);
    out.append(" KB");
    out
}

/// What is said when a recording was rebuilt. `max_diff` is the largest difference between
/// a pixel before and after, written with six decimals.
pub fn trace_rebuild_summary(report: &TraceReport, max_diff: &str) -> (r: String)
    ensures
        r@ == "已重构到画布：命令="@ + crate::text::decimal(report.command_count as nat) + "，点="@
            + crate::text::decimal(report.point_count as nat) + "，资源引用="@
            + crate::text::decimal(report.resource_reference_count as nat) + "，降级="@
            + crate::text::decimal(report.degradation_count as nat) + "，重构前最大像素误差="@
            + max_diff@,
{
    let mut out = "已重构到画布：命令=".to_owned();
    push_decimal(&mut out, report.command_count);
    out.append("，点=");
    push_decimal(&mut out, report.point_count);
    out.append("，资源引用=");
    push_decimal(&mut out, report.resource_reference_count);
    out.append("，降级=");
    push_decimal(&mut out, report.degradation_count);
    out.append("，重构前最大像素误差=");
    out.append(max_diff);
    out
}

/// What is said when a rebuild failed. `diagnostic` is the engine's own message.
pub open spec fn rebuild_error_text(error: CanvasError, diagnostic: Seq<char>) -> Seq<char> {
    match error {
        CanvasError::MissingLayer(layer) => "重构失败：图层 LayerId("@ + crate::text::decimal(
            layer.0 as nat,
        ) + ") 不存在"@,
        CanvasError::MissingStroke(stroke) => "重构失败：笔触 StrokeId("@ + crate::text::decimal(
            stroke.0 as nat,
        ) + ") 不存在"@,
        CanvasError::MissingTraceResource(id) => if "测试程序"@.is_prefix_of(id@) {
            "重构失败："@ + id@
        } else {
            "重构失败："@ + diagnostic
        },
        _ => "重构失败："@ + diagnostic,
    }
}

pub fn trace_rebuild_error_message(error: &CanvasError, diagnostic: &str) -> (r: String)
    ensures
        r@ == rebuild_error_text(*error, diagnostic@),
{
    match error {
        CanvasError::MissingLayer(layer) => {
            let mut out = "重构失败：图层 LayerId(".to_owned();
            push_decimal(&mut out, layer.0);
            out.append(") 不存在");
            out
        },
        CanvasError::MissingStroke(stroke) => {
            let mut out = "重构失败：笔触 StrokeId(".to_owned();
            push_decimal(&mut out, stroke.0);
            out.append(") 不存在");
            out
        },
        CanvasError::MissingTraceResource(id) => {
            if starts_with(id.as_str(), "测试程序") {
                joined("重构失败：", id.as_str())
            } else {
                joined("重构失败：", diagnostic)
            }
        },
        _ => joined("重构失败：", diagnostic),
    }
}

/// What can be replayed of a recorded command.
#[derive(Debug)]
pub enum TraceReplayCommand {
    Command(CanvasCommand),
    /// The command needs a resource that was not recorded.
    MissingResource,
}

/// A recorded command, with the recorder's own description of it.
#[derive(Debug)]
pub struct TraceCommandEvent {
    pub replay: Option<TraceReplayCommand>,
    pub diagnostic: String,
}

/// A recorded event.
#[derive(Debug)]
pub enum TraceEvent {
    Command(TraceCommandEvent),
    /// The stroke that the command before began.
    StrokeBegin(StrokeId),
    /// An event that a replay passes over.
    Other,
}

/// A recorded drawing session.
#[derive(Debug)]
pub struct SessionTrace {
    pub canvas: CanvasConfig,
    pub events: Vec<TraceEvent>,
    pub report: TraceReport,
}

/// The commands that put the layers in place which a recording started from.
pub open spec fn base_layer_plan(layers: Seq<LayerSnapshot>) -> Seq<CanvasCommand> {
    layers.map_values(|layer: LayerSnapshot| CanvasCommand::AddLayer(layer.spec)) + arrangement(
        layers,
    )
}

/// The commands that arrange layers which were added.
pub open spec fn arrangement(layers: Seq<LayerSnapshot>) -> Seq<CanvasCommand>
    decreases layers.len(),
{
    if layers.len() == 0 {
        Seq::empty()
    } else {
        arrangement(layers.drop_last()) + placement(layers.last())
    }
}

/// The commands that place one layer: under its parent, if it has one, and as an isolated
/// group, if it is one.
pub open spec fn placement(layer: LayerSnapshot) -> Seq<CanvasCommand> {
    (if layer.parent is Some {
        seq![CanvasCommand::SetLayerParent { id: layer.spec.id, parent: layer.parent }]
    } else {
        Seq::empty()
    }) + (if layer.group_mode != LayerGroupMode::PassThrough {
        seq![CanvasCommand::SetLayerGroupMode { id: layer.spec.id, mode: layer.group_mode }]
    } else {
        Seq::empty()
    })
}

pub fn trace_base_layer_commands(layers: &[LayerSnapshot]) -> (r: Vec<CanvasCommand>)
    ensures
        r@ == base_layer_plan(layers@),
{
    let mut commands: Vec<CanvasCommand> = Vec::new();
    let ghost add = |layer: LayerSnapshot| CanvasCommand::AddLayer(layer.spec);
    let mut i: usize = 0;
    while i < layers.len()
        invariant
            i <= layers@.len(),
            add == (|layer: LayerSnapshot| CanvasCommand::AddLayer(layer.spec)),
            commands@ == layers@.take(i as int).map_values(add),
        decreases layers@.len() - i,
    {
        commands.push(CanvasCommand::AddLayer(layers[i].spec));
        assert(layers@.take(i + 1) =~= layers@.take(i as int).push(layers@[i as int]));
        i += 1;
    }
    assert(layers@.take(i as int) =~= layers@);
    let mut j: usize = 0;
    assert(commands@ =~= layers@.map_values(add) + arrangement(layers@.take(0)));
    while j < layers.len()
        invariant
            j <= layers@.len(),
            commands@ == layers@.map_values(add) + arrangement(layers@.take(j as int)),
        decreases layers@.len() - j,
    {
        let layer = layers[j];
        assert(layers@.take(j + 1).drop_last() =~= layers@.take(j as int));
        let ghost before = commands@;
        if let Some(parent) = layer.parent {
            commands.push(
                CanvasCommand::SetLayerParent { id: layer.spec.id, parent: Some(parent) },
            );
        }
        if layer.group_mode != LayerGroupMode::PassThrough {
            commands.push(
                CanvasCommand::SetLayerGroupMode { id: layer.spec.id, mode: layer.group_mode },
            );
        }
        assert(commands@ =~= before + placement(layer));
        assert(commands@ =~= layers@.map_values(add) + arrangement(layers@.take(j + 1)));
        j += 1;
    }
    assert(layers@.take(j as int) =~= layers@);
    commands
}

/// Every layer is added, in its place, before any layer is arranged.
pub proof fn layers_are_added_before_they_are_arranged(layers: Seq<LayerSnapshot>)
    ensures
        base_layer_plan(layers).len() >= layers.len(),
        forall|i: int|
            0 <= i < layers.len() ==> #[trigger] base_layer_plan(layers)[i]
                == CanvasCommand::AddLayer(layers[i].spec),
        forall|i: int|
            layers.len() <= i < base_layer_plan(layers).len() ==> !(
            #[trigger] base_layer_plan(layers)[i] is AddLayer),
{
    lemma_arrangement_adds_nothing(layers);
    let added = layers.map_values(|layer: LayerSnapshot| CanvasCommand::AddLayer(layer.spec));
    assert forall|i: int| layers.len() <= i < base_layer_plan(layers).len() implies !(
    #[trigger] base_layer_plan(layers)[i] is AddLayer) by {
        assert(base_layer_plan(layers)[i] == arrangement(layers)[i - added.len()]);
    }
}

proof fn lemma_arrangement_adds_nothing(layers: Seq<LayerSnapshot>)
    ensures
        forall|i: int|
            0 <= i < arrangement(layers).len() ==> !(#[trigger] arrangement(layers)[i] is AddLayer),
    decreases layers.len(),
{
    if layers.len() > 0 {
        let before = arrangement(layers.drop_last());
        lemma_arrangement_adds_nothing(layers.drop_last());
        assert forall|i: int| 0 <= i < arrangement(layers).len() implies !(
        #[trigger] arrangement(layers)[i] is AddLayer) by {
            if i < before.len() {
                assert(arrangement(layers)[i] == before[i]);
            } else {
                assert(arrangement(layers)[i] == placement(layers.last())[i - before.len()]);
            }
        }
    }
}

/// The configuration that a recording is replayed with: the recorded one, but without
/// recording again.
pub open spec fn replay_config(trace: SessionTrace) -> CanvasConfig {
    CanvasConfig {
        data_capture: DataCaptureConfig {
            enabled: false,
            ..trace.canvas.data_capture
        },
        ..trace.canvas
    }
}

/// The capture setting of a replay: the recorded one, switched off, so that a replay is never
/// itself recorded. It is set once, before the preamble.
pub fn replay_capture(trace: &SessionTrace) -> (r: DataCaptureConfig)
    ensures
        r == replay_config(*trace).data_capture,
{
    let mut capture = trace.canvas.data_capture;
    capture.enabled = false;
    capture
}

/// The commands that come before the recorded ones: a new canvas, and the layers that the
/// recording started from.
pub fn replay_preamble(trace: &SessionTrace, base_layers: &[LayerSnapshot]) -> (r: Vec<
    CanvasCommand,
>)
    ensures
        r@ == seq![CanvasCommand::NewCanvas(replay_config(*trace))] + base_layer_plan(base_layers@),
{
    let mut config = trace.canvas;
    config.data_capture = replay_capture(trace);
    let mut commands: Vec<CanvasCommand> = Vec::new();
    commands.push(CanvasCommand::NewCanvas(config));
    let mut rest = trace_base_layer_commands(base_layers);
    commands.append(&mut rest);
    commands
}

/// `error` says that the recorded command `event` cannot be replayed.
pub open spec fn payload_error(event: TraceCommandEvent, error: CanvasError) -> bool {
    match error {
        CanvasError::MissingTraceResource(id) => id@ == if event.replay is Some {
            "测试程序重构暂不解析外部资源引用；"@ + event.diagnostic@
        } else {
            "测试程序重构缺少可执行 command replay payload；"@ + event.diagnostic@
        },
        _ => false,
    }
}

/// The command that a recorded command is replayed as, if there is one.
pub open spec fn payload(event: TraceCommandEvent) -> Option<CanvasCommand> {
    match event.replay {
        Some(TraceReplayCommand::Command(command)) => Some(command),
        _ => None,
    }
}

pub fn trace_replay_command_payload(event: &TraceCommandEvent) -> (r: Result<
    &CanvasCommand,
    CanvasError,
>)
    ensures
        match r {
            Ok(command) => payload(*event) == Some(*command),
            Err(error) => payload(*event) is None && payload_error(*event, error),
        },
{
    match &event.replay {
        Some(TraceReplayCommand::Command(command)) => Ok(command),
        Some(TraceReplayCommand::MissingResource) => Err(
            CanvasError::MissingTraceResource(
                joined("测试程序重构暂不解析外部资源引用；", event.diagnostic.as_str()),
            ),
        ),
        None => Err(
            CanvasError::MissingTraceResource(
                joined(
                    "测试程序重构缺少可执行 command replay payload；",
                    event.diagnostic.as_str(),
                ),
            ),
        ),
    }
}

/// Whatever the recorder says of a command that cannot be replayed, the message is shown
/// as it is, without the engine's own one.
pub proof fn payload_errors_are_shown_verbatim(
    event: TraceCommandEvent,
    error: CanvasError,
    diagnostic: Seq<char>,
)
    requires
        payload_error(event, error),
    ensures
        error matches CanvasError::MissingTraceResource(id) && rebuild_error_text(error, diagnostic)
            == "重构失败："@ + id@,
{
    reveal_strlit("测试程序");
    reveal_strlit("测试程序重构暂不解析外部资源引用；");
    reveal_strlit("测试程序重构缺少可执行 command replay payload；");
    if let CanvasError::MissingTraceResource(id) = error {
        let head = "测试程序"@;
        assert(head =~= id@.subrange(0, head.len() as int));
    }
}

/// The first stroke that begins in `events` from `start` on, before the next command.
pub open spec fn begin_after(events: Seq<TraceEvent>, start: int) -> Option<StrokeId>
    decreases events.len() - start,
{
    if start < 0 || start >= events.len() {
        None
    } else {
        match events[start] {
            TraceEvent::Command(_) => None,
            TraceEvent::StrokeBegin(stroke) => Some(stroke),
            TraceEvent::Other => begin_after(events, start + 1),
        }
    }
}

/// The stroke that the command at `command_index` began when it was recorded.
pub fn trace_stroke_begin_after(trace: &SessionTrace, command_index: usize) -> (r: Option<StrokeId>)
    ensures
        r == begin_after(trace.events@, command_index + 1),
{
    let length: usize = trace.events.len();
    let mut i: usize = command_index.saturating_add(1);
    while i < length
        invariant
            length == trace.events@.len(),
            begin_after(trace.events@, command_index + 1) == begin_after(trace.events@, i as int),
        decreases trace.events@.len() - i,
    {
        match &trace.events[i] {
            TraceEvent::Command(_) => return None,
            TraceEvent::StrokeBegin(stroke) => return Some(*stroke),
            TraceEvent::Other => {},
        }
        i += 1;
    }
    None
}

/// Which stroke of the replay stands for which recorded stroke.
pub struct StrokeIdMap {
    ids: HashMap<u64, u64>,
}

impl View for StrokeIdMap {
    type V = Map<u64, u64>;

    closed spec fn view(&self) -> Map<u64, u64> {
        self.ids@
    }
}

/// The stroke that stands for `stroke`; a stroke that was never begun stands for itself.
pub open spec fn stand_in(strokes: Map<u64, u64>, stroke: StrokeId) -> StrokeId {
    if strokes.dom().contains(stroke.0) {
        StrokeId(strokes[stroke.0])
    } else {
        stroke
    }
}

/// Whether `stroke` was begun by the replay.
pub open spec fn begun_in_replay(strokes: Map<u64, u64>, stroke: StrokeId) -> bool {
    strokes.values().contains(stroke.0)
}

impl StrokeIdMap {
    pub fn new() -> (r: StrokeIdMap)
        ensures
            r@ == Map::<u64, u64>::empty(),
    {
        StrokeIdMap { ids: HashMap::new() }
    }

    /// Notes that `replayed` stands for `recorded`.
    pub fn insert(&mut self, recorded: StrokeId, replayed: StrokeId)
        ensures
            final(self)@ == old(self)@.insert(recorded.0, replayed.0),
    {
        self.ids.insert(recorded.0, replayed.0);
    }

    pub fn resolve(&self, stroke: StrokeId) -> (r: StrokeId)
        ensures
            r == stand_in(self@, stroke),
    {
        match self.ids.get(&stroke.0) {
            Some(replayed) => StrokeId(*replayed),
            None => stroke,
        }
    }

    pub fn holds(&self, stroke: StrokeId) -> (r: bool)
        ensures
            r == begun_in_replay(self@, stroke),
    {
        let mut found = false;
        let ghost all = vstd::std_specs::iter::IteratorSpec::remaining(
            &vstd::std_specs::hash::spec_values_iter(&self.ids),
        );
        for id in iter: self.ids.values()
            invariant
                iter.seq() == all,
                found <==> exists|i: int| 0 <= i < iter.index() && *(#[trigger] all[i]) == stroke.0,
        {
            if *id == stroke.0 {
                found = true;
            }
        }
        assert(all.unref().to_set() == self@.values());
        assert(forall|i: int| 0 <= i < all.len() ==> *(#[trigger] all[i]) == all.unref()[i]);
        assert(forall|i: int| 0 <= i < all.len() ==> #[trigger] all.unref()[i] == *all[i]);
        assert(all.unref().to_set().contains(stroke.0) <==> all.unref().contains(stroke.0));
        found
    }
}

} // verus!
