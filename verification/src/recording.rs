//! The recording panel: what is recorded, and what came of a rebuild.

use crate::capture::{capture_config, CaptureLevel, DataCaptureConfig, STARTING_BUDGET_MB};
use crate::command::CanvasError;
use crate::layers::LayerSnapshot;
use crate::trace::{
    trace_rebuild_error_message, trace_rebuild_summary, trace_rebuild_unavailable_message,
    trace_texture_registration_error_message, TraceReport,
};
use vstd::prelude::*;

verus! {

/// Which record is meant: the one being made, or the last one that was finished.
#[derive(Clone, Copy, Debug, PartialEq, Eq, Structural)]
pub enum TraceSource {
    Current,
    Cached,
}

/// The record that is preferred: the current one, then the cached one.
pub open spec fn preferred(has_current_trace: bool, has_cached_trace: bool) -> Option<TraceSource> {
    if has_current_trace {
        Some(TraceSource::Current)
    } else if has_cached_trace {
        Some(TraceSource::Cached)
    } else {
        None
    }
}

/// The text of an optional message.
pub open spec fn message(text: Option<String>) -> Option<Seq<char>> {
    match text {
        Some(text) => Some(text@),
        None => None,
    }
}

pub struct RecordingState {
    pub trace_enabled: bool,
    pub trace_level: CaptureLevel,
    pub trace_budget_mb: u64,
    pub trace_rebuild_result: Option<String>,
    /// Whether a finished record is kept.
    pub has_last_trace: bool,
    /// The layers that the current record started from.
    pub trace_base_layers: Vec<LayerSnapshot>,
}

/// What is said of a rebuild that was made: what was replayed, or that it cannot be shown.
pub open spec fn rebuild_text(
    shown: Result<(), String>,
    report: TraceReport,
    max_diff: Seq<char>,
) -> Seq<char> {
    match shown {
        Err(error) => "重构已完成，但显示纹理注册失败："@ + error@,
        Ok(_) => "已重构到画布：命令="@ + crate::text::decimal(report.command_count as nat)
            + "，点="@ + crate::text::decimal(report.point_count as nat) + "，资源引用="@
            + crate::text::decimal(report.resource_reference_count as nat) + "，降级="@
            + crate::text::decimal(report.degradation_count as nat) + "，重构前最大像素误差="@
            + max_diff,
    }
}

impl RecordingState {
    pub fn new(base_layers: Vec<LayerSnapshot>) -> (r: RecordingState)
        ensures
            r == (RecordingState {
                trace_enabled: true,
                trace_level: CaptureLevel::L1PointStream,
                trace_budget_mb: STARTING_BUDGET_MB,
                trace_rebuild_result: None,
                has_last_trace: false,
                trace_base_layers: base_layers,
            }),
    {
        RecordingState {
            trace_enabled: true,
            trace_level: CaptureLevel::L1PointStream,
            trace_budget_mb: STARTING_BUDGET_MB,
            trace_rebuild_result: None,
            has_last_trace: false,
            trace_base_layers: base_layers,
        }
    }

    /// The recording once changed settings were taken up.
    pub open spec fn configured(
        self,
        has_current_trace: bool,
        layers: Vec<LayerSnapshot>,
    ) -> RecordingState {
        RecordingState {
            has_last_trace: self.has_last_trace || has_current_trace,
            trace_base_layers: if self.trace_enabled {
                layers
            } else {
                self.trace_base_layers
            },
            trace_rebuild_result: if self.trace_enabled {
                None
            } else {
                self.trace_rebuild_result
            },
            ..self
        }
    }

    /// Takes up changed settings. A record that was being made is kept as the last one; if
    /// recording goes on, it starts from `layers`, and the last rebuild is forgotten.
    pub fn apply_trace_config(&mut self, has_current_trace: bool, layers: Vec<LayerSnapshot>) -> (r:
        DataCaptureConfig)
        ensures
            r == (DataCaptureConfig {
                enabled: old(self).trace_enabled,
                level: old(self).trace_level,
                max_bytes_per_session: crate::capture::budget_bytes(old(self).trace_budget_mb),
                allow_gpu_readback: false,
            }),
            *final(self) == old(self).configured(has_current_trace, layers),
    {
        let capture = capture_config(self.trace_enabled, self.trace_level, self.trace_budget_mb);
        if has_current_trace {
            self.has_last_trace = true;
        }
        if self.trace_enabled {
            self.trace_base_layers = layers;
            self.trace_rebuild_result = None;
        }
        capture
    }

    /// Which record's counters are shown.
    pub fn trace_report(&self, has_current_report: bool) -> (r: Option<TraceSource>)
        ensures
            r == preferred(has_current_report, self.has_last_trace),
    {
        if has_current_report {
            Some(TraceSource::Current)
        } else if self.has_last_trace {
            Some(TraceSource::Cached)
        } else {
            None
        }
    }

    /// Chooses the record to rebuild from, or says why nothing can be rebuilt.
    pub fn begin_rebuild(&mut self, can_display: bool, has_current_trace: bool) -> (r: Option<
        TraceSource,
    >)
        ensures
            r == if can_display {
                preferred(has_current_trace, old(self).has_last_trace)
            } else {
                None
            },
            r is Some ==> *final(self) == *old(self),
            r is None ==> {
                &&& *final(self) == (RecordingState {
                    trace_rebuild_result: final(self).trace_rebuild_result,
                    ..*old(self)
                })
                &&& message(final(self).trace_rebuild_result) == Some(
                    if can_display {
                        crate::trace::trace_rebuild_unavailable_text(
                            old(self).trace_enabled,
                            false,
                            false,
                        )
                    } else {
                        "无法访问 WGPU 渲染状态，不能显示重构结果"@
                    },
                )
            },
    {
        if !can_display {
            self.trace_rebuild_result = Some(
                "无法访问 WGPU 渲染状态，不能显示重构结果".to_owned(),
            );
            return None;
        }
        if has_current_trace {
            return Some(TraceSource::Current);
        }
        if self.has_last_trace {
            return Some(TraceSource::Cached);
        }
        self.trace_rebuild_result = Some(
            trace_rebuild_unavailable_message(
                self.trace_enabled,
                false,
                self.has_last_trace,
            ).to_owned(),
        );
        None
    }

    /// Says that a rebuild failed.
    pub fn fail_rebuild(&mut self, error: &CanvasError, diagnostic: &str)
        ensures
            *final(self) == (RecordingState {
                trace_rebuild_result: final(self).trace_rebuild_result,
                ..*old(self)
            }),
            message(final(self).trace_rebuild_result) == Some(
                crate::trace::rebuild_error_text(*error, diagnostic@),
            ),
    {
        self.trace_rebuild_result = Some(trace_rebuild_error_message(error, diagnostic));
    }

    /// Takes up a rebuilt canvas with the given layers, which is not recorded.
    pub fn adopt_rebuild(&mut self, layers: Vec<LayerSnapshot>)
        ensures
            *final(self) == (RecordingState {
                trace_enabled: false,
                trace_base_layers: layers,
                ..*old(self)
            }),
    {
        self.trace_enabled = false;
        self.trace_base_layers = layers;
    }

    /// Says what came of a rebuild: what was replayed, or that it cannot be shown.
    pub fn complete_rebuild(
        &mut self,
        shown: Result<(), String>,
        report: &TraceReport,
        max_diff: &str,
    )
        ensures
            *final(self) == (RecordingState {
                trace_rebuild_result: final(self).trace_rebuild_result,
                ..*old(self)
            }),
            message(final(self).trace_rebuild_result) == Some(
                rebuild_text(shown, *report, max_diff@),
            ),
    {
        self.trace_rebuild_result = Some(
            match shown {
                Err(error) => trace_texture_registration_error_message(error.as_str()),
                Ok(_) => trace_rebuild_summary(report, max_diff),
            },
        );
    }
}

/// Stopping keeps what was recorded: the status says that it can be rebuilt, and a rebuild
/// finds it, with the layers that it started from.
pub proof fn stopping_keeps_the_record(recording: RecordingState, layers: Vec<LayerSnapshot>)
    requires
        !recording.trace_enabled,
    ensures
        ({
            let stopped = recording.configured(true, layers);
            &&& preferred(false, stopped.has_last_trace) == Some(TraceSource::Cached)
            &&& crate::trace::trace_status_text(
                stopped.trace_enabled,
                false,
                stopped.has_last_trace,
            ) == "记录已停止，可重构上次记录"@
            &&& stopped.trace_base_layers == recording.trace_base_layers
        }),
{
}

/// No change of settings loses a record that could be rebuilt.
pub proof fn records_are_not_lost(
    recording: RecordingState,
    has_current_trace: bool,
    layers: Vec<LayerSnapshot>,
)
    ensures
        preferred(has_current_trace, recording.has_last_trace) is Some ==> preferred(
            false,
            recording.configured(has_current_trace, layers).has_last_trace,
        ) is Some,
{
}

/// A rebuild is refused for want of a record just when the status says there is none.
pub proof fn rebuild_needs_a_record(has_current_trace: bool, has_cached_trace: bool, enabled: bool)
    ensures
        preferred(has_current_trace, has_cached_trace) is None <==> crate::trace::trace_status_text(
            enabled,
            has_current_trace,
            has_cached_trace,
        ) == "还没有可用记录"@,
{
    reveal_strlit("正在记录当前绘画");
    reveal_strlit("还没有可用记录");
    reveal_strlit("当前记录未创建，仍可重构上次记录");
    reveal_strlit("记录已停止，可重构上次记录");
    let status = crate::trace::trace_status_text(enabled, has_current_trace, has_cached_trace);
    assert(has_current_trace || has_cached_trace ==> status.len() != "还没有可用记录"@.len());
}

} // verus!
