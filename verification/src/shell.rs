//! The shell itself: strokes, selections, layers, the clipboard and the recording, from
//! one user action to the next.
//!
//! Each action is split in two where the engine has work to do in between: the first half
//! says what the engine has to do, the second takes up what came of it.

use crate::audit::{InputTracker, NativeStats};
use crate::brush::BrushSettings;
use crate::command::{
    AppendStrokeCommand, BeginStrokeCommand, BrushCommand, CanvasCommand, CommandOutput, StrokeId,
};
use crate::config::{CanvasConfig, STARTING_SIZE, STARTING_TILE_SIZE};
use crate::geometry::{ScreenPos, StrokePoint};
use crate::input::{
    stroke_point_from_input, stroke_points_from_input, NativeInputPoint, StrokeInputPoint,
};
use crate::layers::{LayerCursor, LayerId, LayerSnapshot};
use crate::recording::RecordingState;
use crate::scalar::{Double, Single};
use crate::selection::{SelectionRect, SelectionState, ToolMode};
use crate::viewport::{PointerMotion, ViewportState};
use vstd::prelude::*;

verus! {

/// What is known about the pixels on the clipboard.
#[derive(Clone, Copy, Debug, PartialEq, Eq, Structural)]
pub struct ClipboardInfo {
    pub bounds: SelectionRect,
    pub layer: LayerId,
}

/// Where the clipboard is to be pasted.
#[derive(Clone, Copy, Debug, PartialEq, Eq, Structural)]
pub struct PasteRequest {
    pub layer: LayerId,
    pub origin_x: u32,
    pub origin_y: u32,
}

/// What the start of a drag leads to.
#[derive(Clone, Copy, Debug, PartialEq, Eq, Structural)]
pub enum DragStart {
    /// Nobody knows where the drag starts.
    Nowhere,
    /// A stroke begins with this native sample.
    StrokeFrom(StrokeInputPoint),
    /// A stroke begins with a sample taken at this position.
    StrokeAt(ScreenPos),
    RectAt(ScreenPos),
    LassoAt(ScreenPos),
}

/// What the engine has to do at the end of a drag.
#[derive(Debug)]
pub enum DragEnd {
    Nothing,
    /// End this stroke, and paint its tap if it comes to nothing.
    Stroke(StrokeId),
    /// Execute this command.
    Selection(CanvasCommand),
}

/// What the engine did with a batch.
#[derive(Clone, Copy, Debug, PartialEq, Eq, Structural)]
pub struct DispatchReport {
    pub uploaded_points: usize,
    pub dispatches: usize,
}

/// The state of the shell.
pub struct CanvasApp {
    pub brush: BrushSettings,
    pub cursor: LayerCursor,
    pub tracker: InputTracker,
    pub selection: SelectionState,
    pub recording: RecordingState,
    pub viewport: ViewportState,
    pub motion: PointerMotion,
    pub clipboard: Option<ClipboardInfo>,
    pub tool_mode: ToolMode,
    pub active_stroke: Option<StrokeId>,
    pub canvas_width: u32,
    pub canvas_height: u32,
    pub new_canvas_width: u32,
    pub new_canvas_height: u32,
    pub new_canvas_tile_size: u32,
    pub last_error: Option<String>,
    pub prediction: bool,
    pub raw_lead_preview: bool,
    pub debug_overlay: bool,
}

/// The error that `result` leaves behind.
pub open spec fn error_of<T>(result: Result<T, String>) -> Option<String> {
    match result {
        Ok(_) => None,
        Err(error) => Some(error),
    }
}

impl CanvasApp {
    /// The trail of raw points stays within its limit.
    pub open spec fn valid(self) -> bool {
        self.tracker.valid()
    }

    /// The shell as it starts, on a canvas whose only layer is `layer_id`.
    pub fn new(layer_id: LayerId, base_layers: Vec<LayerSnapshot>) -> (r: CanvasApp)
        requires
            layer_id.0 < u64::MAX,
        ensures
            r.valid(),
            r.brush == crate::brush::starting_settings(),
            r.cursor == (LayerCursor { layer_id, next_layer_id: (layer_id.0 + 1) as u64 }),
            r.tracker.audit.blank(),
            r.tracker.latest_input_preview is None,
            r.tracker.raw_lead_points@.len() == 0,
            r.tracker.latency_probe is None,
            r.tracker.next_latency_sample_id == 1,
            r.selection.selection_mode == crate::selection::SelectionCombineMode::Replace,
            r.selection.selection_drag is None,
            r.selection.lasso_points@.len() == 0,
            r.recording == (RecordingState {
                trace_enabled: true,
                trace_level: crate::capture::CaptureLevel::L1PointStream,
                trace_budget_mb: crate::capture::STARTING_BUDGET_MB,
                trace_rebuild_result: None,
                has_last_trace: false,
                trace_base_layers: base_layers,
            }),
            r.viewport == crate::viewport::whole_canvas(),
            r.motion == crate::viewport::at_rest(None),
            r.clipboard is None,
            r.tool_mode == ToolMode::Brush,
            r.active_stroke is None,
            r.canvas_width == STARTING_SIZE,
            r.canvas_height == STARTING_SIZE,
            r.new_canvas_width == STARTING_SIZE,
            r.new_canvas_height == STARTING_SIZE,
            r.new_canvas_tile_size == STARTING_TILE_SIZE,
            r.last_error is None,
            !r.prediction,
            r.raw_lead_preview,
            !r.debug_overlay,
    {
        CanvasApp {
            brush: BrushSettings::new(),
            cursor: LayerCursor::new(layer_id),
            tracker: InputTracker::new(),
            selection: SelectionState::new(),
            recording: RecordingState::new(base_layers),
            viewport: ViewportState::new(),
            motion: PointerMotion::resting(None),
            clipboard: None,
            tool_mode: ToolMode::Brush,
            active_stroke: None,
            canvas_width: STARTING_SIZE,
            canvas_height: STARTING_SIZE,
            new_canvas_width: STARTING_SIZE,
            new_canvas_height: STARTING_SIZE,
            new_canvas_tile_size: STARTING_TILE_SIZE,
            last_error: None,
            prediction: false,
            raw_lead_preview: true,
            debug_overlay: false,
        }
    }

    /// Takes up the outcome of a step: an error is kept, success clears the last one.
    pub fn note_outcome(&mut self, result: Result<(), String>)
        ensures
            *final(self) == (CanvasApp { last_error: error_of(result), ..*old(self) }),
    {
        match result {
            Ok(_) => self.last_error = None,
            Err(error) => self.last_error = Some(error),
        }
    }

    /// Keeps an error.
    pub fn note_error(&mut self, error: String)
        ensures
            *final(self) == (CanvasApp { last_error: Some(error), ..*old(self) }),
    {
        self.last_error = Some(error);
    }

    /// Takes up the outcome of a command, after which the engine has the given layers.
    pub fn execute_canvas_command(&mut self, result: Result<(), String>, layers: &[LayerSnapshot])
        ensures
            *final(self) == (CanvasApp {
                last_error: error_of(result),
                cursor: old(self).cursor.synced(layers@),
                ..*old(self)
            }),
    {
        self.note_outcome(result);
        self.cursor.sync_active_layer(layers);
    }

    /// Takes up what was copied or cut; true if the canvas changed and has to be refreshed.
    pub fn copy_selection_to_clipboard(
        &mut self,
        cut: bool,
        result: Result<Option<ClipboardInfo>, String>,
    ) -> (r: bool)
        ensures
            r == (cut && (result matches Ok(Some(_)))),
            *final(self) == (CanvasApp {
                clipboard: clipboard_after(old(self).clipboard, result),
                last_error: final(self).last_error,
                ..*old(self)
            }),
            match result {
                Ok(Some(_)) => final(self).last_error is None,
                Ok(None) => crate::recording::message(final(self).last_error) == Some(
                    "没有可复制的活动选区"@,
                ),
                Err(error) => final(self).last_error == Some(error),
            },
    {
        match result {
            Ok(Some(pixels)) => {
                self.clipboard = Some(pixels);
                self.last_error = None;
                cut
            },
            Ok(None) => {
                self.last_error = Some("没有可复制的活动选区".to_owned());
                false
            },
            Err(error) => {
                self.last_error = Some(error);
                false
            },
        }
    }

    /// Where the clipboard belongs on `layer`; an empty clipboard is an error.
    fn paste_request(&mut self, layer: LayerId) -> (r: Option<PasteRequest>)
        ensures
            r == paste_target(old(self).clipboard, layer),
            r is Some ==> *final(self) == *old(self),
            r is None ==> {
                &&& *final(self) == (CanvasApp { last_error: final(self).last_error, ..*old(self) })
                &&& crate::recording::message(final(self).last_error) == Some("剪贴板为空"@)
            },
    {
        match self.clipboard {
            Some(pixels) => Some(
                PasteRequest { layer, origin_x: pixels.bounds.x, origin_y: pixels.bounds.y },
            ),
            None => {
                self.last_error = Some("剪贴板为空".to_owned());
                None
            },
        }
    }

    /// Starts to paste the clipboard where it was copied, onto the current layer.
    pub fn paste_clipboard_to_active_layer(&mut self) -> (r: Option<PasteRequest>)
        ensures
            r == paste_target(old(self).clipboard, old(self).cursor.layer_id),
            r is Some ==> *final(self) == *old(self),
            r is None ==> {
                &&& *final(self) == (CanvasApp { last_error: final(self).last_error, ..*old(self) })
                &&& crate::recording::message(final(self).last_error) == Some("剪贴板为空"@)
            },
    {
        let layer = self.cursor.layer_id;
        self.paste_request(layer)
    }

    /// Takes up whether anything was pasted onto the current layer.
    pub fn finish_paste(&mut self, result: Result<bool, String>)
        ensures
            *final(self) == (CanvasApp { last_error: final(self).last_error, ..*old(self) }),
            match result {
                Ok(true) => final(self).last_error is None,
                Ok(false) => crate::recording::message(final(self).last_error) == Some(
                    "粘贴区域超出画布"@,
                ),
                Err(error) => final(self).last_error == Some(error),
            },
    {
        match result {
            Ok(true) => self.last_error = None,
            Ok(false) => self.last_error = Some("粘贴区域超出画布".to_owned()),
            Err(error) => self.last_error = Some(error),
        }
    }

    /// Starts to paste the clipboard where it was copied, onto a new layer.
    pub fn paste_clipboard_to_new_layer(&mut self) -> (r: Option<PasteRequest>)
        ensures
            r == paste_target(old(self).clipboard, LayerId(old(self).cursor.next_layer_id)),
            r is Some ==> *final(self) == *old(self),
            r is None ==> {
                &&& *final(self) == (CanvasApp { last_error: final(self).last_error, ..*old(self) })
                &&& crate::recording::message(final(self).last_error) == Some("剪贴板为空"@)
            },
    {
        let layer = LayerId(self.cursor.next_layer_id);
        self.paste_request(layer)
    }

    /// Takes up whether a layer was made of the clipboard. If so it becomes the current
    /// layer, and its number is used up.
    pub fn finish_paste_to_new_layer(
        &mut self,
        result: Result<bool, String>,
        layers: &[LayerSnapshot],
    )
        ensures
            *final(self) == (CanvasApp {
                cursor: (if result matches Ok(true) {
                    LayerCursor {
                        layer_id: LayerId(old(self).cursor.next_layer_id),
                        next_layer_id: crate::layers::following(old(self).cursor.next_layer_id),
                    }
                } else {
                    old(self).cursor
                }).synced(layers@),
                last_error: final(self).last_error,
                ..*old(self)
            }),
            match result {
                Ok(true) => final(self).last_error is None,
                Ok(false) => crate::recording::message(final(self).last_error) == Some(
                    "粘贴区域在画布外"@,
                ),
                Err(error) => final(self).last_error == Some(error),
            },
    {
        match result {
            Ok(true) => {
                let layer = LayerId(self.cursor.next_layer_id);
                self.cursor.layer_id = layer;
                self.cursor.next_layer_id = self.cursor.next_layer_id.saturating_add(1);
                self.last_error = None;
            },
            Ok(false) => self.last_error = Some("粘贴区域在画布外".to_owned()),
            Err(error) => self.last_error = Some(error),
        }
        self.cursor.sync_active_layer(layers);
    }

    /// Takes up what came of sending the brush settings; `texture_created` tells whether the
    /// engine made a stamp texture on that occasion.
    pub fn finish_brush_sync(&mut self, texture_created: bool, result: Result<(), String>)
        ensures
            *final(self) == (CanvasApp {
                brush: BrushSettings {
                    stamp_texture_created: old(self).brush.stamp_texture_created
                        || texture_created,
                    ..old(self).brush
                },
                last_error: error_of(result),
                ..*old(self)
            }),
    {
        if texture_created {
            self.brush.stamp_texture_created = true;
        }
        self.note_outcome(result);
    }

    /// Starts a drag, which a native sample or the pointer started.
    pub fn start_drag(
        &mut self,
        native_points: &[NativeInputPoint],
        begin_index: Option<usize>,
        stats: Option<NativeStats>,
        pointer: Option<ScreenPos>,
    ) -> (r: DragStart)
        requires
            begin_index matches Some(index) ==> index < native_points@.len(),
        ensures
            r == drag_start(
                old(self).tool_mode,
                match begin_index {
                    Some(index) => Some(native_points@[index as int]),
                    None => None,
                },
                pointer,
            ),
            *final(self) == (CanvasApp {
                tracker: InputTracker {
                    audit: final(self).tracker.audit,
                    ..old(self).tracker
                },
                motion: crate::viewport::at_rest(pointer),
                ..*old(self)
            }),
            exists|blank: crate::audit::StrokeAudit| #[trigger]
                blank.blank() && final(self).tracker.audit == (crate::audit::StrokeAudit {
                    last_native_pointer_batch: native_points@.len() as usize,
                    native_pointer_events: crate::audit::limited(native_points@.len() as int),
                    native_pointer_dropped: match stats {
                        Some(stats) => stats.dropped_events,
                        None => 0,
                    },
                    native_pointer_last_error: match stats {
                        Some(stats) => stats.last_error,
                        None => None,
                    },
                    ..blank
                }),
    {
        self.tracker.audit.start_drag(native_points.len(), stats);
        self.motion = PointerMotion::resting(pointer);
        let native = match begin_index {
            Some(index) => Some(native_points[index]),
            None => None,
        };
        let pos = match native {
            Some(input) => Some(input.window_pos),
            None => pointer,
        };
        match pos {
            None => DragStart::Nowhere,
            Some(pos) => match self.tool_mode {
                ToolMode::Brush => match native {
                    Some(input) => DragStart::StrokeFrom(input.point),
                    None => DragStart::StrokeAt(pos),
                },
                ToolMode::RectSelection => DragStart::RectAt(pos),
                ToolMode::LassoSelection => DragStart::LassoAt(pos),
            },
        }
    }

    /// Takes up the first sample of a stroke.
    pub fn begin_stroke<F: Fn(StrokePoint, StrokePoint) -> Single>(
        &mut self,
        input: StrokeInputPoint,
        frame_time: Double,
        elapsed_ms: Single,
        now: u64,
        distance_squared: F,
    )
        requires
            forall|a: StrokePoint, b: StrokePoint| call_requires(distance_squared, (a, b)),
        ensures
            final(self).valid(),
            *final(self) == (CanvasApp { tracker: final(self).tracker, ..*old(self) }),
            ({
                let point = crate::input::stroke_point(input);
                let age = crate::latency::sample_age(
                    input.point.time_seconds,
                    frame_time,
                    elapsed_ms,
                );
                let probe = crate::latency::InputLatencyProbe {
                    sample_id: old(self).tracker.next_latency_sample_id,
                    app_receive: now,
                    source_timestamp_age_ms: age,
                    session_emit: None,
                    core_append_start: None,
                    core_append_done: None,
                    paint: None,
                };
                &&& final(self).tracker.raw_lead_points@ == seq![point]
                &&& final(self).tracker.latest_input_preview == Some(point)
                &&& final(self).tracker.latency_probe == Some(probe)
                &&& final(self).tracker.next_latency_sample_id == crate::layers::following(
                    old(self).tracker.next_latency_sample_id,
                )
                &&& final(self).tracker.audit == (crate::audit::StrokeAudit {
                    begin_point: Some(point),
                    begin_pressure_from_device: input.pressure_from_device,
                    begin_input_source: Some(input.source),
                    ..old(self).tracker.audit.with_age(age).with_report(probe.spans())
                })
            }),
    {
        self.tracker.raw_lead_points.clear();
        self.tracker.record_input_preview_sample(
            input,
            frame_time,
            elapsed_ms,
            now,
            distance_squared,
        );
        self.tracker.audit.note_begin(
            stroke_point_from_input(input),
            input.pressure_from_device,
            input.source,
        );
    }

    /// The command that begins a stroke with `input`.
    pub fn begin_stroke_command(&self, input: StrokeInputPoint) -> (r: CanvasCommand)
        ensures
            r == self.beginning(input),
    {
        CanvasCommand::BeginStroke(
            BeginStrokeCommand {
                layer: self.cursor.layer_id,
                mode: self.brush.brush_mode,
                radius: self.brush.brush_radius,
                color: self.brush.color(),
                first_point: stroke_point_from_input(input),
            },
        )
    }

    /// The command that begins a stroke with `input`: on the current layer, with the
    /// current brush.
    pub open spec fn beginning(self, input: StrokeInputPoint) -> CanvasCommand {
        CanvasCommand::BeginStroke(
            BeginStrokeCommand {
                layer: self.cursor.layer_id,
                mode: self.brush.brush_mode,
                radius: self.brush.brush_radius,
                color: crate::brush::Color {
                    red: self.brush.brush_red,
                    green: self.brush.brush_green,
                    blue: self.brush.brush_blue,
                    alpha: self.brush.brush_alpha,
                },
                first_point: crate::input::stroke_point(input),
            },
        )
    }

    /// Takes up whether the engine began a stroke; true if it did. If not, the sample that
    /// should have begun it is forgotten.
    pub fn finish_begin_stroke(&mut self, result: Result<CommandOutput, String>) -> (r: bool)
        ensures
            r == stroke_begun(result) is Some,
            final(self).active_stroke == stroke_begun(result),
            match result {
                Ok(CommandOutput::StrokeStarted { id }) => *final(self) == (CanvasApp {
                    active_stroke: Some(id),
                    last_error: None,
                    ..*old(self)
                }),
                _ => {
                    &&& *final(self) == (CanvasApp {
                        active_stroke: None,
                        last_error: final(self).last_error,
                        tracker: final(self).tracker,
                        ..*old(self)
                    })
                    &&& final(self).tracker.latest_input_preview is None
                    &&& final(self).tracker.raw_lead_points@.len() == 0
                    &&& final(self).tracker.latency_probe is None
                    &&& final(self).tracker.audit == old(self).tracker.audit
                    &&& final(self).tracker.next_latency_sample_id
                        == old(self).tracker.next_latency_sample_id
                    &&& match result {
                        Ok(_) => crate::recording::message(final(self).last_error) == Some(
                            "画笔命令未能开始笔画"@,
                        ),
                        Err(error) => final(self).last_error == Some(error),
                    }
                },
            },
            old(self).valid() ==> final(self).valid(),
    {
        match result {
            Ok(CommandOutput::StrokeStarted { id }) => {
                self.active_stroke = Some(id);
                self.last_error = None;
                true
            },
            Ok(_) => {
                self.active_stroke = None;
                self.tracker.reset_active_stroke_tracking();
                self.last_error = Some("画笔命令未能开始笔画".to_owned());
                false
            },
            Err(error) => {
                self.active_stroke = None;
                self.tracker.reset_active_stroke_tracking();
                self.last_error = Some(error);
                false
            },
        }
    }

    /// The tool whose drag a frame extends, if it extends one: native samples extend a stroke
    /// under way, and the pointer extends a drag that did not start in this frame.
    pub open spec fn extended_tool(
        self,
        has_native_updates: bool,
        dragged: bool,
        started: bool,
    ) -> Option<ToolMode> {
        if (has_native_updates && self.active_stroke is Some) || (dragged && !started) {
            Some(self.tool_mode)
        } else {
            None
        }
    }

    /// The tool that this frame extends the drag of, if it extends one.
    pub fn update_step(&self, has_native_updates: bool, dragged: bool, started: bool) -> (r: Option<
        ToolMode,
    >)
        ensures
            r == self.extended_tool(has_native_updates, dragged, started),
    {
        if (has_native_updates && self.active_stroke.is_some()) || (dragged && !started) {
            Some(self.tool_mode)
        } else {
            None
        }
    }

    /// Gives up the stroke under way, so that it can be begun anew: the command that ends
    /// it, if there is one.
    pub fn reanchor_active_stroke_to_touch(&mut self) -> (r: Option<CanvasCommand>)
        ensures
            *final(self) == (CanvasApp { active_stroke: None, ..*old(self) }),
            r == match old(self).active_stroke {
                Some(id) => Some(CanvasCommand::EndStroke(id)),
                None => None,
            },
    {
        match self.active_stroke.take() {
            Some(id) => Some(CanvasCommand::EndStroke(id)),
            None => None,
        }
    }

    /// The shell once the engine began the stroke `id` anew at `first`.
    pub open spec fn with_reanchor(self, first: StrokeInputPoint, id: StrokeId) -> CanvasApp {
        CanvasApp {
            active_stroke: Some(id),
            tracker: InputTracker {
                audit: crate::audit::StrokeAudit {
                    begin_point: Some(crate::input::stroke_point(first)),
                    begin_pressure_from_device: first.pressure_from_device,
                    begin_input_source: Some(crate::input::StrokeInputSource::Touch),
                    reanchored_touch_begins: crate::audit::limited(
                        self.tracker.audit.reanchored_touch_begins + 1,
                    ),
                    ..self.tracker.audit
                },
                ..self.tracker
            },
            ..self
        }
    }

    /// Takes up whether the engine began the stroke anew at `first`.
    pub fn finish_reanchor(
        &mut self,
        first: StrokeInputPoint,
        result: Result<CommandOutput, String>,
    ) -> (r: Result<(), String>)
        ensures
            match result {
                Ok(CommandOutput::StrokeStarted { id }) => {
                    &&& r is Ok
                    &&& *final(self) == old(self).with_reanchor(first, id)
                },
                Ok(_) => {
                    &&& *final(self) == *old(self)
                    &&& r matches Err(error) && error@ == "画笔命令未能重新开始笔画"@
                },
                Err(error) => *final(self) == *old(self) && r == Err::<(), String>(error),
            },
    {
        match result {
            Ok(CommandOutput::StrokeStarted { id }) => {
                self.active_stroke = Some(id);
                self.tracker.audit.note_reanchor(
                    stroke_point_from_input(first),
                    first.pressure_from_device,
                );
                Ok(())
            },
            Ok(_) => Err("画笔命令未能重新开始笔画".to_owned()),
            Err(error) => Err(error),
        }
    }

    /// The shell once a batch was sent.
    pub open spec fn with_append(self, batch: Seq<StrokeInputPoint>) -> CanvasApp {
        CanvasApp {
            tracker: InputTracker {
                audit: crate::audit::StrokeAudit {
                    append_batches: crate::audit::limited(
                        self.tracker.audit.append_batches + 1,
                    ),
                    last_append_len: batch.len() as usize,
                    last_append_first: Some(crate::input::stroke_point(batch[0])),
                    last_append_second: if batch.len() > 1 {
                        Some(crate::input::stroke_point(batch[1]))
                    } else {
                        None
                    },
                    ..self.tracker.audit
                },
                ..self.tracker
            },
            ..self
        }
    }

    /// The command that appends a batch to the stroke under way, if there is anything to
    /// append and a stroke to append it to.
    pub fn append_stroke_command(&mut self, batch: &Vec<StrokeInputPoint>) -> (r: Option<
        CanvasCommand,
    >)
        ensures
            appends(r, old(self).active_stroke, batch@),
            r is None ==> *final(self) == *old(self),
            r is Some ==> *final(self) == old(self).with_append(batch@),
    {
        match self.active_stroke {
            Some(stroke) => {
                if batch.len() == 0 {
                    return None;
                }
                let points = stroke_points_from_input(batch);
                self.tracker.audit.note_append(points.as_slice());
                Some(CanvasCommand::AppendStroke(AppendStrokeCommand { stroke, points }))
            },
            None => None,
        }
    }

    /// The shell once the engine did what `report` says with a batch.
    pub open spec fn with_dispatch(self, report: DispatchReport) -> CanvasApp {
        CanvasApp {
            tracker: InputTracker {
                audit: crate::audit::StrokeAudit {
                    last_core_uploaded_points: report.uploaded_points,
                    last_core_dispatches: report.dispatches,
                    ..self.tracker.audit
                },
                ..self.tracker
            },
            last_error: None,
            ..self
        }
    }

    /// Takes up what the engine made of a batch; true if it painted anything.
    pub fn finish_append(&mut self, result: Result<DispatchReport, String>) -> (r: bool)
        ensures
            match result {
                Ok(report) => {
                    &&& r == (report.dispatches > 0)
                    &&& *final(self) == old(self).with_dispatch(report)
                },
                Err(error) => !r && *final(self) == (CanvasApp {
                    last_error: Some(error),
                    ..*old(self)
                }),
            },
    {
        match result {
            Ok(report) => {
                self.tracker.audit.note_dispatch(report.uploaded_points, report.dispatches);
                self.last_error = None;
                report.dispatches > 0
            },
            Err(error) => {
                self.last_error = Some(error);
                false
            },
        }
    }

    /// `command` paints a single dab for a tap: on the current layer, with the current brush.
    pub open spec fn paints_dab(self, tap: StrokeInputPoint, command: CanvasCommand) -> bool {
        command matches CanvasCommand::Brush(dab) && dab.layer == self.cursor.layer_id && dab.mode
            == self.brush.brush_mode && dab.points@ == seq![crate::input::stroke_point(tap)]
            && dab.radius == self.brush.brush_radius && dab.color == (crate::brush::Color {
            red: self.brush.brush_red,
            green: self.brush.brush_green,
            blue: self.brush.brush_blue,
            alpha: self.brush.brush_alpha,
        })
    }

    /// The command that paints a single dab for a tap.
    pub fn tap_command(&self, tap: StrokeInputPoint) -> (r: CanvasCommand)
        ensures
            self.paints_dab(tap, r),
    {
        let mut points: Vec<StrokePoint> = Vec::new();
        points.push(stroke_point_from_input(tap));
        assert(points@ =~= seq![crate::input::stroke_point(tap)]);
        CanvasCommand::Brush(
            BrushCommand {
                layer: self.cursor.layer_id,
                mode: self.brush.brush_mode,
                points,
                radius: self.brush.brush_radius,
                color: self.brush.color(),
            },
        )
    }

    /// Ends a drag: says what the engine has to do about it, and forgets whatever was
    /// dragged out or previewed.
    pub fn end_drag(&mut self) -> (r: DragEnd)
        ensures
            drag_ended(*old(self), *final(self), r),
            final(self).valid(),
    {
        let end = match self.tool_mode {
            ToolMode::Brush => match self.active_stroke.take() {
                Some(stroke) => DragEnd::Stroke(stroke),
                None => DragEnd::Nothing,
            },
            tool => match self.selection.end_command(tool) {
                Some(command) => DragEnd::Selection(command),
                None => DragEnd::Nothing,
            },
        };
        self.selection.selection_drag = None;
        self.motion = PointerMotion::resting(None);
        self.tracker.latest_input_preview = None;
        self.tracker.raw_lead_points.clear();
        end
    }

    /// The configuration of the canvas that the panel asks for.
    pub fn create_new_canvas(&self, current: CanvasConfig) -> (r: CanvasConfig)
        ensures
            r == crate::config::resized(
                current,
                self.new_canvas_width,
                self.new_canvas_height,
                self.new_canvas_tile_size,
                self.brush,
            ),
    {
        crate::config::new_canvas_config(
            current,
            self.new_canvas_width,
            self.new_canvas_height,
            self.new_canvas_tile_size,
            &self.brush,
        )
    }

    /// Takes up what came of making a canvas. If it was made and shown with the given layers,
    /// everything about the old one is forgotten; otherwise only the error is kept.
    pub fn finish_new_canvas(
        &mut self,
        config: &CanvasConfig,
        result: Result<Vec<LayerSnapshot>, String>,
    )
        ensures
            match result {
                Err(error) => *final(self) == (CanvasApp {
                    last_error: Some(error),
                    ..*old(self)
                }),
                Ok(layers) => final(self).valid() && taken_up(
                    *old(self),
                    *config,
                    layers,
                    *final(self),
                ),
            },
    {
        match result {
            Err(error) => {
                self.note_error(error);
            },
            Ok(layers) => {
                self.cursor.reset_to_first_layer();
                self.canvas_width = config.width;
                self.canvas_height = config.height;
                self.active_stroke = None;
                self.tracker.reset_active_stroke_tracking();
                self.viewport.fit();
                self.motion = PointerMotion::resting(None);
                self.tracker.audit.reset();
                self.brush.forget_device_pressure();
                self.brush.stamp_texture_created = false;
                self.recording.trace_base_layers = layers;
            },
        }
    }

    /// Takes up changed recording settings.
    pub fn apply_trace_config(&mut self, has_current_trace: bool, layers: Vec<LayerSnapshot>) -> (r:
        crate::capture::DataCaptureConfig)
        ensures
            r == (crate::capture::DataCaptureConfig {
                enabled: old(self).recording.trace_enabled,
                level: old(self).recording.trace_level,
                max_bytes_per_session: crate::capture::budget_bytes(
                    old(self).recording.trace_budget_mb,
                ),
                allow_gpu_readback: false,
            }),
            *final(self) == (CanvasApp {
                recording: old(self).recording.configured(has_current_trace, layers),
                last_error: None,
                ..*old(self)
            }),
    {
        let capture = self.recording.apply_trace_config(has_current_trace, layers);
        self.last_error = None;
        capture
    }

    /// Takes up a canvas that was rebuilt from a record of `canvas`, and now has `layers`.
    pub fn rebuild_from_trace(&mut self, canvas: &CanvasConfig, layers: Vec<LayerSnapshot>)
        ensures
            *final(self) == adopted(*old(self), *canvas, layers),
    {
        self.cursor.adopt_layers(layers.as_slice());
        self.canvas_width = canvas.width;
        self.canvas_height = canvas.height;
        self.recording.adopt_rebuild(layers);
    }
}

/// `after` is the shell once it took up a new canvas of `config` with `layers`: the first
/// layer is drawn on, the whole canvas is in view, and nothing is known of strokes on the
/// canvas `before`.
pub open spec fn taken_up(
    before: CanvasApp,
    config: CanvasConfig,
    layers: Vec<LayerSnapshot>,
    after: CanvasApp,
) -> bool {
    &&& after == (CanvasApp {
        brush: BrushSettings {
            last_pressure: before.brush.fallback_pressure,
            pressure_from_device: false,
            stamp_texture_created: false,
            ..before.brush
        },
        cursor: LayerCursor { layer_id: LayerId(1), next_layer_id: 2 },
        tracker: after.tracker,
        recording: RecordingState { trace_base_layers: layers, ..before.recording },
        viewport: crate::viewport::whole_canvas(),
        motion: crate::viewport::at_rest(None),
        active_stroke: None,
        canvas_width: config.width,
        canvas_height: config.height,
        ..before
    })
    &&& after.tracker.audit.blank()
    &&& after.tracker.latest_input_preview is None
    &&& after.tracker.raw_lead_points@.len() == 0
    &&& after.tracker.latency_probe is None
    &&& after.tracker.next_latency_sample_id == before.tracker.next_latency_sample_id
}

/// The shell once it took up a canvas that was rebuilt from a record of `canvas`, and now
/// has `layers`: the topmost is drawn on, new ones are numbered behind the highest, and the
/// rebuilt canvas is not recorded.
pub open spec fn adopted(
    before: CanvasApp,
    canvas: CanvasConfig,
    layers: Vec<LayerSnapshot>,
) -> CanvasApp {
    CanvasApp {
        cursor: LayerCursor {
            layer_id: if layers@.len() > 0 {
                layers@.last().spec.id
            } else {
                LayerId(1)
            },
            next_layer_id: crate::layers::following(crate::layers::highest_id(layers@)),
        },
        canvas_width: canvas.width,
        canvas_height: canvas.height,
        recording: RecordingState {
            trace_enabled: false,
            trace_base_layers: layers,
            ..before.recording
        },
        ..before
    }
}

/// Where the clipboard belongs on `layer`: where its pixels came from.
pub open spec fn paste_target(clipboard: Option<ClipboardInfo>, layer: LayerId) -> Option<
    PasteRequest,
> {
    match clipboard {
        Some(pixels) => Some(
            PasteRequest { layer, origin_x: pixels.bounds.x, origin_y: pixels.bounds.y },
        ),
        None => None,
    }
}

/// What the start of a drag leads to: a native sample comes before the pointer, and the
/// tool decides what is dragged.
pub open spec fn drag_start(
    tool: ToolMode,
    native: Option<NativeInputPoint>,
    pointer: Option<ScreenPos>,
) -> DragStart {
    match (native, pointer) {
        (None, None) => DragStart::Nowhere,
        (Some(input), _) => match tool {
            ToolMode::Brush => DragStart::StrokeFrom(input.point),
            ToolMode::RectSelection => DragStart::RectAt(input.window_pos),
            ToolMode::LassoSelection => DragStart::LassoAt(input.window_pos),
        },
        (None, Some(pos)) => match tool {
            ToolMode::Brush => DragStart::StrokeAt(pos),
            ToolMode::RectSelection => DragStart::RectAt(pos),
            ToolMode::LassoSelection => DragStart::LassoAt(pos),
        },
    }
}

/// `after` is the shell `before` once its drag ended with `end`: whatever was dragged out or
/// previewed is gone.
pub open spec fn drag_ended(before: CanvasApp, after: CanvasApp, end: DragEnd) -> bool {
    &&& drag_end(before, end)
    &&& after == (CanvasApp {
        active_stroke: if before.tool_mode == ToolMode::Brush {
            None
        } else {
            before.active_stroke
        },
        selection: crate::selection::SelectionState {
            selection_drag: None,
            ..before.selection
        },
        tracker: InputTracker {
            latest_input_preview: None,
            raw_lead_points: after.tracker.raw_lead_points,
            ..before.tracker
        },
        motion: crate::viewport::at_rest(None),
        ..before
    })
    &&& after.tracker.raw_lead_points@.len() == 0
}

/// The stroke that the engine began, if it began one.
pub open spec fn stroke_begun(result: Result<CommandOutput, String>) -> Option<StrokeId> {
    match result {
        Ok(CommandOutput::StrokeStarted { id }) => Some(id),
        _ => None,
    }
}

/// `command` appends `batch` to the stroke `active`; there is no command if there is nothing
/// to append or no stroke to append it to.
pub open spec fn appends(
    command: Option<CanvasCommand>,
    active: Option<StrokeId>,
    batch: Seq<StrokeInputPoint>,
) -> bool {
    match active {
        Some(stroke) if batch.len() > 0 => {
            command matches Some(CanvasCommand::AppendStroke(append)) && append.stroke == stroke
                && append.points@ == batch.map_values(
                |input: StrokeInputPoint| crate::input::stroke_point(input),
            )
        },
        _ => command is None,
    }
}

/// The stroke that the engine began is the one that is appended to, and the one that is
/// ended: `begun` is the state once the engine answered, `command` is sent on the way, and
/// `end` comes last.
pub proof fn strokes_run_from_begin_to_end(
    id: StrokeId,
    begun: CanvasApp,
    batch: Seq<StrokeInputPoint>,
    command: Option<CanvasCommand>,
    end: DragEnd,
)
    requires
        begun.active_stroke == stroke_begun(Ok(CommandOutput::StrokeStarted { id })),
        begun.tool_mode == ToolMode::Brush,
        appends(command, begun.active_stroke, batch),
        drag_end(begun, end),
    ensures
        batch.len() > 0 ==> command is Some && crate::replay::continued_stroke(command->0) == Some(
            id,
        ),
        end == DragEnd::Stroke(id),
{
}

/// A stroke that the engine did not begin is neither appended to nor ended.
pub proof fn failed_strokes_are_not_continued(
    result: Result<CommandOutput, String>,
    failed: CanvasApp,
    batch: Seq<StrokeInputPoint>,
    command: Option<CanvasCommand>,
    end: DragEnd,
)
    requires
        stroke_begun(result) is None,
        failed.active_stroke == stroke_begun(result),
        failed.tool_mode == ToolMode::Brush,
        appends(command, failed.active_stroke, batch),
        drag_end(failed, end),
    ensures
        command is None,
        end == DragEnd::Nothing,
{
}

/// What is on the clipboard after a copy: the pixels that were copied, or, if there were
/// none, whatever was there before.
pub open spec fn clipboard_after(
    clipboard: Option<ClipboardInfo>,
    result: Result<Option<ClipboardInfo>, String>,
) -> Option<ClipboardInfo> {
    match result {
        Ok(Some(pixels)) => Some(pixels),
        _ => clipboard,
    }
}

/// What was copied is pasted where it came from, on the layer that is asked for, also after
/// a later copy that failed.
pub proof fn pixels_are_pasted_where_they_were_copied(
    clipboard: Option<ClipboardInfo>,
    pixels: ClipboardInfo,
    failure: Result<Option<ClipboardInfo>, String>,
    layer: LayerId,
)
    requires
        !(failure matches Ok(Some(_))),
    ensures
        ({
            let copied = clipboard_after(clipboard, Ok(Some(pixels)));
            let target = Some(
                PasteRequest { layer, origin_x: pixels.bounds.x, origin_y: pixels.bounds.y },
            );
            &&& paste_target(copied, layer) == target
            &&& paste_target(clipboard_after(copied, failure), layer) == target
        }),
{
}

/// `end` is what the end of a drag leads to in the state `app`: the stroke under way ends,
/// the rectangle that was dragged out is selected if it holds a pixel, and the lasso if it
/// has three corners.
pub open spec fn drag_end(app: CanvasApp, end: DragEnd) -> bool {
    match app.tool_mode {
        ToolMode::Brush => end == match app.active_stroke {
            Some(stroke) => DragEnd::Stroke(stroke),
            None => DragEnd::Nothing,
        },
        ToolMode::RectSelection => end == match app.selection.selection_drag {
            Some(crate::selection::SelectionDrag::Rect { start, current }) => {
                match crate::selection::pixel_rect(start, current) {
                    Some(rect) => DragEnd::Selection(
                        crate::selection::rect_command(rect, app.selection.selection_mode),
                    ),
                    None => DragEnd::Nothing,
                }
            },
            _ => DragEnd::Nothing,
        },
        ToolMode::LassoSelection => if app.selection.lasso_points@.len() >= 3 {
            end matches DragEnd::Selection(command) && crate::selection::selects_polygon(
                command,
                app.selection.lasso_points@,
                app.selection.selection_mode,
            )
        } else {
            end == DragEnd::Nothing
        },
    }
}

/// Whether the tap of a stroke has to be painted as a dab: only if the engine did not
/// commit the stroke itself.
pub fn paints_tap(output: CommandOutput) -> (r: bool)
    ensures
        r == (output != CommandOutput::StrokeEnded { committed: true }),
{
    match output {
        CommandOutput::StrokeEnded { committed } => !committed,
        _ => true,
    }
}

} // verus!
