//! What the panels say about the state of the shell.
//!
//! Numbers with a fraction come in already written out.

use crate::audit::StrokeAudit;
use crate::input::input_source_label;
use crate::layers::LayerSnapshot;
use crate::selection::SelectionRect;
use crate::shell::ClipboardInfo;
use crate::text::push_decimal;
use vstd::prelude::*;
use vstd::string::StringExecFns;

verus! {

/// Where the pressure of the latest sample came from.
pub fn pressure_origin_label(from_device: bool) -> (r: &'static str)
    ensures
        r@ == if from_device {
            "设备"@
        } else {
            "模拟"@
        },
{
    if from_device {
        "设备"
    } else {
        "模拟"
    }
}

/// What maps pressure to the brush.
pub fn pressure_mapping_label(pressure_dynamics: bool) -> (r: &'static str)
    ensures
        r@ == if pressure_dynamics {
            "PS 预设"@
        } else {
            "关闭"@
        },
{
    if pressure_dynamics {
        "PS 预设"
    } else {
        "关闭"
    }
}

/// Where the pressure of the first sample of a stroke came from.
pub fn begin_pressure_label(from_device: bool) -> (r: &'static str)
    ensures
        r@ == if from_device {
            "device"@
        } else {
            "fallback"@
        },
{
    if from_device {
        "device"
    } else {
        "fallback"
    }
}

pub open spec fn visibility_text(visible: bool) -> Seq<char> {
    if visible {
        "可见"@
    } else {
        "隐藏"@
    }
}

pub fn visibility_label(visible: bool) -> (r: &'static str)
    ensures
        r@ == visibility_text(visible),
{
    if visible {
        "可见"
    } else {
        "隐藏"
    }
}

/// A layer in the list of layers. `percent` is its opacity in whole percent.
pub fn layer_line(layer: &LayerSnapshot, percent: &str) -> (r: String)
    ensures
        r@ == visibility_text(layer.spec.visible) + " "@ + crate::layers::layer_text(layer.spec.id)
            + "  "@ + percent@ + "%  "@ + crate::text::decimal(layer.tile_count as nat)
            + " 个 tile"@,
{
    let mut out = visibility_label(layer.spec.visible).to_owned();
    out.append(" ");
    let name = crate::layers::layer_label(layer.spec.id);
    out.append(name.as_str());
    out.append("  ");
    out.append(percent);
    out.append("%  ");
    push_decimal(&mut out, layer.tile_count as u64);
    out.append(" 个 tile");
    out
}

/// The bounds of the selection, if there is one.
pub fn selection_line(bounds: Option<SelectionRect>, span_count: usize) -> (r: String)
    ensures
        r@ == match bounds {
            Some(bounds) => "范围: "@ + crate::text::decimal(bounds.x as nat) + ","@
                + crate::text::decimal(bounds.y as nat) + " "@ + crate::text::decimal(
                bounds.width as nat,
            ) + "x"@ + crate::text::decimal(bounds.height as nat) + "  分段="@
                + crate::text::decimal(span_count as nat),
            None => "无活动选区"@,
        },
{
    match bounds {
        Some(bounds) => {
            let mut out = "范围: ".to_owned();
            push_decimal(&mut out, bounds.x as u64);
            out.append(",");
            push_decimal(&mut out, bounds.y as u64);
            out.append(" ");
            push_decimal(&mut out, bounds.width as u64);
            out.append("x");
            push_decimal(&mut out, bounds.height as u64);
            out.append("  分段=");
            push_decimal(&mut out, span_count as u64);
            out
        },
        None => "无活动选区".to_owned(),
    }
}

/// What is on the clipboard.
pub fn clipboard_line(clipboard: &Option<ClipboardInfo>) -> (r: String)
    ensures
        r@ == match clipboard {
            Some(pixels) => "剪贴板: "@ + crate::text::decimal(pixels.bounds.width as nat) + "x"@
                + crate::text::decimal(pixels.bounds.height as nat) + " 来自图层 "@
                + crate::text::decimal(pixels.layer.0 as nat),
            None => "剪贴板: 空"@,
        },
{
    match clipboard {
        Some(pixels) => {
            let mut out = "剪贴板: ".to_owned();
            push_decimal(&mut out, pixels.bounds.width as u64);
            out.append("x");
            push_decimal(&mut out, pixels.bounds.height as u64);
            out.append(" 来自图层 ");
            push_decimal(&mut out, pixels.layer.0);
            out
        },
        None => "剪贴板: 空".to_owned(),
    }
}

/// The size of the canvas.
pub fn canvas_line(width: u32, height: u32) -> (r: String)
    ensures
        r@ == "当前画布: "@ + crate::text::decimal(width as nat) + " x "@ + crate::text::decimal(
            height as nat,
        ),
{
    let mut out = "当前画布: ".to_owned();
    push_decimal(&mut out, width as u64);
    out.append(" x ");
    push_decimal(&mut out, height as u64);
    out
}

/// An error number, or a dash.
pub open spec fn optional_number(number: Option<u32>) -> Seq<char> {
    match number {
        Some(number) => crate::text::decimal(number as nat),
        None => "-"@,
    }
}

/// The latest batch of native samples. `gap` and `max_gap` are its widest gap and the widest
/// so far.
pub fn native_batch_line(audit: &StrokeAudit, gap: &str, max_gap: &str) -> (r: String)
    ensures
        r@ == "native batch: "@ + crate::text::decimal(audit.last_native_pointer_batch as nat)
            + " total="@ + crate::text::decimal(audit.native_pointer_events as nat) + " dropped="@
            + crate::text::decimal(audit.native_pointer_dropped as nat) + " gap="@ + gap@
            + "px max_gap="@ + max_gap@ + "px last_error="@ + optional_number(
            audit.native_pointer_last_error,
        ),
{
    let mut out = "native batch: ".to_owned();
    push_decimal(&mut out, audit.last_native_pointer_batch as u64);
    out.append(" total=");
    push_decimal(&mut out, audit.native_pointer_events as u64);
    out.append(" dropped=");
    push_decimal(&mut out, audit.native_pointer_dropped);
    out.append(" gap=");
    out.append(gap);
    out.append("px max_gap=");
    out.append(max_gap);
    out.append("px last_error=");
    match audit.native_pointer_last_error {
        Some(error) => push_decimal(&mut out, error as u64),
        None => out.append("-"),
    }
    out
}

/// How many touch events the latest frame brought, phase by phase.
pub fn touch_phases_line(audit: &StrokeAudit) -> (r: String)
    ensures
        r@ == "last touch phases: total="@ + crate::text::decimal(audit.last_touch_events as nat)
            + " start="@ + crate::text::decimal(audit.last_touch_starts as nat) + " move="@
            + crate::text::decimal(audit.last_touch_moves as nat) + " end="@ + crate::text::decimal(
            audit.last_touch_ends as nat,
        ) + " cancel="@ + crate::text::decimal(audit.last_touch_cancels as nat),
{
    let mut out = "last touch phases: total=".to_owned();
    push_decimal(&mut out, audit.last_touch_events as u64);
    out.append(" start=");
    push_decimal(&mut out, audit.last_touch_starts as u64);
    out.append(" move=");
    push_decimal(&mut out, audit.last_touch_moves as u64);
    out.append(" end=");
    push_decimal(&mut out, audit.last_touch_ends as u64);
    out.append(" cancel=");
    push_decimal(&mut out, audit.last_touch_cancels as u64);
    out
}

/// The raw forces of the latest frame. `lightest` and `hardest` are their extremes.
pub fn raw_force_line(audit: &StrokeAudit, lightest: &str, hardest: &str) -> (r: String)
    ensures
        r@ == "raw force: min="@ + lightest@ + " max="@ + hardest@ + " missing="@
            + crate::text::decimal(audit.last_raw_force_missing as nat),
{
    let mut out = "raw force: min=".to_owned();
    out.append(lightest);
    out.append(" max=");
    out.append(hardest);
    out.append(" missing=");
    push_decimal(&mut out, audit.last_raw_force_missing as u64);
    out
}

/// What the stroke began with, and how often it was begun anew.
pub fn begin_source_line(audit: &StrokeAudit) -> (r: String)
    ensures
        r@ == "begin source: "@ + crate::input::input_source_text(audit.begin_input_source)
            + ", touch reanchors: "@ + crate::text::decimal(audit.reanchored_touch_begins as nat),
{
    let mut out = "begin source: ".to_owned();
    out.append(input_source_label(audit.begin_input_source));
    out.append(", touch reanchors: ");
    push_decimal(&mut out, audit.reanchored_touch_begins as u64);
    out
}

/// How many batches were appended, and how long the latest one was.
pub fn append_line(audit: &StrokeAudit) -> (r: String)
    ensures
        r@ == "append batches: "@ + crate::text::decimal(audit.append_batches as nat)
            + ", last len: "@ + crate::text::decimal(audit.last_append_len as nat),
{
    let mut out = "append batches: ".to_owned();
    push_decimal(&mut out, audit.append_batches as u64);
    out.append(", last len: ");
    push_decimal(&mut out, audit.last_append_len as u64);
    out
}

/// What the engine made of the latest batch.
pub fn dispatch_line(audit: &StrokeAudit) -> (r: String)
    ensures
        r@ == "core upload/dispatch: "@ + crate::text::decimal(
            audit.last_core_uploaded_points as nat,
        ) + "/"@ + crate::text::decimal(audit.last_core_dispatches as nat),
{
    let mut out = "core upload/dispatch: ".to_owned();
    push_decimal(&mut out, audit.last_core_uploaded_points as u64);
    out.append("/");
    push_decimal(&mut out, audit.last_core_dispatches as u64);
    out
}

} // verus!
