//! What the panels say: every label and line tells what it is about.

use crate::audit::StrokeAudit;
use crate::brush::{BrushPreset, BrushStampKind};
use crate::capture::CaptureLevel;
use crate::command::CanvasError;
use crate::input::StrokeInputSource;
use crate::layers::{BlendMode, LayerGroupMode, LayerId, LayerSnapshot};
use crate::selection::{SelectionCombineMode, SelectionRect};
use crate::shell::ClipboardInfo;
use crate::trace::TraceReport;
use vstd::prelude::*;

verus! {

/// `text` holds `part` at `at`.
pub open spec fn says_at(text: Seq<char>, part: Seq<char>, at: int) -> bool {
    0 <= at && at + part.len() <= text.len() && text.subrange(at, at + part.len()) == part
}

/// A number is written so that it reads back as itself, and joined to what stands before it.
pub proof fn numbers_are_written_out(head: &str, n: u64, text: String, tail: &str, both: String)
    requires
        call_ensures(crate::text::numbered, (head, n), text),
        call_ensures(crate::text::joined, (head, tail), both),
    ensures
        text@.len() > head@.len(),
        text@.take(head@.len() as int) == head@,
        crate::text::denoted(text@.skip(head@.len() as int)) == n,
        both@ == head@ + tail@,
{
    crate::text::decimal_reads_back(n as nat);
    assert(text@.take(head@.len() as int) =~= head@);
    assert(text@.skip(head@.len() as int) =~= crate::text::decimal(n as nat));
}

/// A number is written behind what was there.
pub proof fn numbers_are_appended(out: &mut String, n: u64)
    requires
        call_ensures(crate::text::push_decimal, (out, n), ()),
    ensures
        final(out)@.len() > old(out)@.len(),
        final(out)@.take(old(out)@.len() as int) == old(out)@,
        crate::text::denoted(final(out)@.skip(old(out)@.len() as int)) == n,
{
    crate::text::decimal_reads_back(n as nat);
    assert(final(out)@.take(old(out)@.len() as int) =~= old(out)@);
    assert(final(out)@.skip(old(out)@.len() as int) =~= crate::text::decimal(n as nat));
}

/// A text starts with a prefix just when it is as long and has its characters.
pub proof fn prefixes_are_told(text: &str, prefix: &str, starts: bool)
    requires
        call_ensures(crate::text::starts_with, (text, prefix), starts),
    ensures
        starts <==> prefix@.len() <= text@.len() && forall|i: int|
            0 <= i < prefix@.len() ==> prefix@[i] == #[trigger] text@[i],
{
    if prefix@.len() <= text@.len() && (forall|i: int|
        0 <= i < prefix@.len() ==> prefix@[i] == #[trigger] text@[i]) {
        assert(prefix@ =~= text@.subrange(0, prefix@.len() as int));
    }
}

/// A preset's label names its edge and what pressure controls.
pub proof fn preset_labels_name_edge_and_pressure(
    preset: BrushPreset,
    label: &str,
    soft: bool,
    sizes: bool,
    fades: bool,
    thins: bool,
)
    requires
        call_ensures(crate::brush::brush_preset_label, (preset,), label),
        call_ensures(BrushPreset::is_soft_round, (preset,), soft),
        call_ensures(BrushPreset::pressure_controls_size, (preset,), sizes),
        call_ensures(BrushPreset::pressure_controls_opacity, (preset,), fades),
        call_ensures(BrushPreset::pressure_controls_flow, (preset,), thins),
    ensures
        label@ == (if soft {
            "柔边圆形"@
        } else {
            "硬边圆形"@
        }) + (if sizes {
            "（压力控制大小）"@
        } else if thins {
            "（压力控制不透明度和流量）"@
        } else if fades {
            "（压力控制不透明度）"@
        } else {
            Seq::empty()
        }),
{
    reveal_strlit("柔边圆形");
    reveal_strlit("硬边圆形");
    reveal_strlit("（压力控制大小）");
    reveal_strlit("（压力控制不透明度）");
    reveal_strlit("（压力控制不透明度和流量）");
    reveal_strlit("柔边圆形（压力控制大小）");
    reveal_strlit("硬边圆形（压力控制大小）");
    reveal_strlit("柔边圆形（压力控制不透明度）");
    reveal_strlit("硬边圆形（压力控制不透明度）");
    reveal_strlit("柔边圆形（压力控制不透明度和流量）");
    reveal_strlit("硬边圆形（压力控制不透明度和流量）");
    let edge = if soft {
        "柔边圆形"@
    } else {
        "硬边圆形"@
    };
    let target = if sizes {
        "（压力控制大小）"@
    } else if thins {
        "（压力控制不透明度和流量）"@
    } else if fades {
        "（压力控制不透明度）"@
    } else {
        Seq::empty()
    };
    assert(label@ =~= edge + target);
}

/// A capture level's label begins with its number, and says that it is degraded just when
/// the recorder cannot do it yet.
pub proof fn capture_labels_name_the_level(level: CaptureLevel, label: &str)
    requires
        call_ensures(crate::capture::capture_level_label, (level,), label),
    ensures
        label@.len() > 3,
        label@[0] == 'L',
        label@[1] == match level {
            CaptureLevel::L0Structure => '0',
            CaptureLevel::L1PointStream => '1',
            CaptureLevel::L2PixelDelta => '2',
            CaptureLevel::L3SparseCheckpoint => '3',
        },
        level == CaptureLevel::L2PixelDelta || level == CaptureLevel::L3SparseCheckpoint
            <==> says_at(label@, "（当前降级）"@, label@.len() - 6),
{
    reveal_strlit("L0 结构事件");
    reveal_strlit("L1 笔触点流");
    reveal_strlit("L2 像素变化（当前降级）");
    reveal_strlit("L3 稀疏存档点（当前降级）");
    reveal_strlit("（当前降级）");
    let end = "（当前降级）"@;
    let at = label@.len() - 6;
    if level == CaptureLevel::L2PixelDelta || level == CaptureLevel::L3SparseCheckpoint {
        assert(label@.subrange(at, at + end.len()) =~= end);
    } else if says_at(label@, end, at) {
        assert(label@.subrange(at, at + end.len())[0] == label@[at]);
        assert(label@[at] == '（');
    }
}

/// The words of the panels for modes and kinds, one for each.
pub proof fn modes_are_called_by_their_names(
    stamp: BrushStampKind,
    stamp_label: &str,
    mode: SelectionCombineMode,
    mode_label: &str,
    group: LayerGroupMode,
    group_label: &str,
    source: Option<StrokeInputSource>,
    source_label: &str,
)
    requires
        call_ensures(crate::brush::stamp_kind_label, (stamp,), stamp_label),
        call_ensures(crate::selection::selection_mode_label, (mode,), mode_label),
        call_ensures(crate::layers::group_mode_label, (group,), group_label),
        call_ensures(crate::input::input_source_label, (source,), source_label),
    ensures
        stamp == BrushStampKind::Circle ==> stamp_label@ == "圆形"@,
        stamp == BrushStampKind::Square ==> stamp_label@ == "方形"@,
        stamp == BrushStampKind::Diamond ==> stamp_label@ == "菱形"@,
        stamp == BrushStampKind::Stripe ==> stamp_label@ == "条纹"@,
        mode == SelectionCombineMode::Replace ==> mode_label@ == "替换"@,
        mode == SelectionCombineMode::Add ==> mode_label@ == "添加"@,
        mode == SelectionCombineMode::Subtract ==> mode_label@ == "减去"@,
        mode == SelectionCombineMode::Intersect ==> mode_label@ == "相交"@,
        group == LayerGroupMode::PassThrough ==> group_label@ == "穿透"@,
        group == LayerGroupMode::Isolated ==> group_label@ == "隔离"@,
        source is None ==> source_label@ == "-"@,
        source == Some(StrokeInputSource::Touch) ==> source_label@ == "touch"@,
        source == Some(StrokeInputSource::WindowsPointer) ==> source_label@
            == "windows pointer"@,
        source == Some(StrokeInputSource::PointerFallback) ==> source_label@
            == "pointer fallback"@,
{
}

/// The words for the blend modes: those that darken, those that lighten, those that do either,
/// and the others.
pub proof fn blend_modes_are_called_by_their_names(mode: BlendMode, label: &str)
    requires
        call_ensures(crate::layers::blend_mode_label, (mode,), label),
    ensures
        mode == BlendMode::Multiply ==> label@ == "正片叠底"@,
        mode == BlendMode::ColorBurn ==> label@ == "颜色加深"@,
        mode == BlendMode::LinearBurn ==> label@ == "线性加深"@,
        mode == BlendMode::Darken ==> label@ == "变暗"@,
        mode == BlendMode::Screen ==> label@ == "滤色"@,
        mode == BlendMode::ColorDodge ==> label@ == "颜色减淡"@,
        mode == BlendMode::Add ==> label@ == "添加"@,
        mode == BlendMode::Lighten ==> label@ == "变亮"@,
        mode == BlendMode::Overlay ==> label@ == "叠加"@,
        mode == BlendMode::SoftLight ==> label@ == "柔光"@,
        mode == BlendMode::HardLight ==> label@ == "强光"@,
        mode == BlendMode::Difference ==> label@ == "差值"@,
        mode == BlendMode::Subtract ==> label@ == "减去"@,
        mode == BlendMode::Exclusion ==> label@ == "排除"@,
        mode == BlendMode::Normal ==> label@ == "正常"@,
{
}

/// A layer is called by its number.
pub proof fn layers_are_called_by_their_number(id: LayerId, label: String)
    requires
        call_ensures(crate::layers::layer_label, (id,), label),
    ensures
        label@.take(3) == "图层 "@,
        crate::text::denoted(label@.skip(3)) == id.0,
{
    reveal_strlit("图层 ");
    crate::text::decimal_reads_back(id.0 as nat);
    assert(label@.take(3) =~= "图层 "@);
    assert(label@.skip(3) =~= crate::text::decimal(id.0 as nat));
}

/// Where pressure comes from, what it does and whether a layer is seen are said in two words
/// each, of which one holds.
pub proof fn either_word_holds(
    from_device: bool,
    origin: &str,
    mapped: bool,
    mapping: &str,
    begun: bool,
    begin: &str,
    visible: bool,
    visibility: &str,
)
    requires
        call_ensures(crate::status::pressure_origin_label, (from_device,), origin),
        call_ensures(crate::status::pressure_mapping_label, (mapped,), mapping),
        call_ensures(crate::status::begin_pressure_label, (begun,), begin),
        call_ensures(crate::status::visibility_label, (visible,), visibility),
    ensures
        from_device ==> origin@ == "设备"@,
        !from_device ==> origin@ == "模拟"@,
        mapped ==> mapping@ == "PS 预设"@,
        !mapped ==> mapping@ == "关闭"@,
        begun ==> begin@ == "device"@,
        !begun ==> begin@ == "fallback"@,
        visible ==> visibility@ == "可见"@,
        !visible ==> visibility@ == "隐藏"@,
{
}

/// A layer's line says whether it is seen, its number, its opacity and its tiles.
pub proof fn layer_lines_tell_the_layer(
    layer: LayerSnapshot,
    percent: &str,
    line: String,
    visibility: &str,
    name: String,
)
    requires
        call_ensures(crate::status::layer_line, (&layer, percent), line),
        call_ensures(crate::status::visibility_label, (layer.spec.visible,), visibility),
        call_ensures(crate::layers::layer_label, (layer.spec.id,), name),
    ensures
        line@ == visibility@ + " "@ + name@ + "  "@ + percent@ + "%  "@ + crate::text::decimal(
            layer.tile_count as nat,
        ) + " 个 tile"@,
{
}

/// The selection's line tells where it is and how large, the clipboard's how large its pixels
/// are and of which layer, and the canvas's how large it is; or that there is none.
pub proof fn lines_tell_where_and_how_large(
    bounds: SelectionRect,
    spans: usize,
    selected: String,
    unselected: String,
    pixels: ClipboardInfo,
    copied: String,
    uncopied: String,
    width: u32,
    height: u32,
    canvas: String,
)
    requires
        call_ensures(crate::status::selection_line, (Some(bounds), spans), selected),
        call_ensures(
            crate::status::selection_line,
            (None::<SelectionRect>, spans),
            unselected,
        ),
        call_ensures(crate::status::clipboard_line, (&Some(pixels),), copied),
        call_ensures(crate::status::clipboard_line, (&None::<ClipboardInfo>,), uncopied),
        call_ensures(crate::status::canvas_line, (width, height), canvas),
    ensures
        selected@ == "范围: "@ + crate::text::decimal(bounds.x as nat) + ","@
            + crate::text::decimal(bounds.y as nat) + " "@ + crate::text::decimal(
            bounds.width as nat,
        ) + "x"@ + crate::text::decimal(bounds.height as nat) + "  分段="@ + crate::text::decimal(
            spans as nat,
        ),
        unselected@ == "无活动选区"@,
        copied@ == "剪贴板: "@ + crate::text::decimal(pixels.bounds.width as nat) + "x"@
            + crate::text::decimal(pixels.bounds.height as nat) + " 来自图层 "@
            + crate::text::decimal(pixels.layer.0 as nat),
        uncopied@ == "剪贴板: 空"@,
        canvas@ == "当前画布: "@ + crate::text::decimal(width as nat) + " x "@
            + crate::text::decimal(height as nat),
{
}

/// The lines of the audit tell its counters, each behind its own word.
pub proof fn lines_tell_the_counters(
    audit: StrokeAudit,
    first: &str,
    second: &str,
    native: String,
    touches: String,
    forces: String,
    begin: String,
    source: &str,
    appended: String,
    dispatched: String,
)
    requires
        call_ensures(crate::status::native_batch_line, (&audit, first, second), native),
        call_ensures(crate::status::touch_phases_line, (&audit,), touches),
        call_ensures(crate::status::raw_force_line, (&audit, first, second), forces),
        call_ensures(crate::status::begin_source_line, (&audit,), begin),
        call_ensures(crate::input::input_source_label, (audit.begin_input_source,), source),
        call_ensures(crate::status::append_line, (&audit,), appended),
        call_ensures(crate::status::dispatch_line, (&audit,), dispatched),
    ensures
        native@ == "native batch: "@ + crate::text::decimal(audit.last_native_pointer_batch as nat)
            + " total="@ + crate::text::decimal(audit.native_pointer_events as nat) + " dropped="@
            + crate::text::decimal(audit.native_pointer_dropped as nat) + " gap="@ + first@
            + "px max_gap="@ + second@ + "px last_error="@ + (
        if audit.native_pointer_last_error is Some {
            crate::text::decimal(audit.native_pointer_last_error->0 as nat)
        } else {
            "-"@
        }),
        touches@ == "last touch phases: total="@ + crate::text::decimal(
            audit.last_touch_events as nat,
        ) + " start="@ + crate::text::decimal(audit.last_touch_starts as nat) + " move="@
            + crate::text::decimal(audit.last_touch_moves as nat) + " end="@
            + crate::text::decimal(audit.last_touch_ends as nat) + " cancel="@
            + crate::text::decimal(audit.last_touch_cancels as nat),
        forces@ == "raw force: min="@ + first@ + " max="@ + second@ + " missing="@
            + crate::text::decimal(audit.last_raw_force_missing as nat),
        begin@ == "begin source: "@ + source@ + ", touch reanchors: "@ + crate::text::decimal(
            audit.reanchored_touch_begins as nat,
        ),
        appended@ == "append batches: "@ + crate::text::decimal(audit.append_batches as nat)
            + ", last len: "@ + crate::text::decimal(audit.last_append_len as nat),
        dispatched@ == "core upload/dispatch: "@ + crate::text::decimal(
            audit.last_core_uploaded_points as nat,
        ) + "/"@ + crate::text::decimal(audit.last_core_dispatches as nat),
{
}

/// The status of the recording says whether one is being made, can be rebuilt, or is missing;
/// and a rebuild that is refused says whether recording is off or has nothing yet.
pub proof fn recordings_say_how_they_stand(
    enabled: bool,
    current: bool,
    cached: bool,
    status: &str,
    reason: &str,
)
    requires
        call_ensures(crate::trace::trace_status_label, (enabled, current, cached), status),
        call_ensures(
            crate::trace::trace_rebuild_unavailable_message,
            (enabled, current, cached),
            reason,
        ),
    ensures
        current ==> status@ == "正在记录当前绘画"@,
        !current && cached && !enabled ==> status@ == "记录已停止，可重构上次记录"@,
        !current && cached && enabled ==> status@ == "当前记录未创建，仍可重构上次记录"@,
        !current && !cached ==> status@ == "还没有可用记录"@,
        current || cached ==> reason@ == "已有可重构记录"@,
        !current && !cached && enabled ==> reason@ == "记录为空，无法重构"@,
        !current && !cached && !enabled ==> reason@ == "记录未启用，无法重构"@,
{
}

/// The summary of a record tells each of its counters behind its own word, and its size in
/// whole kilobytes.
pub proof fn records_are_summed_up(report: TraceReport, text: String)
    requires
        call_ensures(crate::trace::trace_report_summary, (&report,), text),
    ensures
        text@ == "事件="@ + crate::text::decimal(report.event_count as nat) + "，命令="@
            + crate::text::decimal(report.command_count as nat) + "，笔触="@
            + crate::text::decimal(report.stroke_count as nat) + "，追加="@
            + crate::text::decimal(report.stroke_append_count as nat) + "，点="@
            + crate::text::decimal(report.point_count as nat) + "，图层事件="@
            + crate::text::decimal(report.layer_event_count as nat) + "，选区事件="@
            + crate::text::decimal(report.selection_event_count as nat) + "，dirty 摘要="@
            + crate::text::decimal(report.dirty_summary_count as nat) + "，资源引用="@
            + crate::text::decimal(report.resource_reference_count as nat) + "，降级="@
            + crate::text::decimal(report.degradation_count as nat) + "，估算="@
            + crate::text::decimal((report.estimated_bytes / 1024) as nat) + " KB"@,
{
}

/// What is said of a rebuild tells what was replayed and how far it is from the original; of a
/// texture, why it cannot be shown.
pub proof fn rebuilds_are_summed_up(
    report: TraceReport,
    max_diff: &str,
    text: String,
    error: &str,
    unshown: String,
)
    requires
        call_ensures(crate::trace::trace_rebuild_summary, (&report, max_diff), text),
        call_ensures(
            crate::trace::trace_texture_registration_error_message,
            (error,),
            unshown,
        ),
    ensures
        text@ == "已重构到画布：命令="@ + crate::text::decimal(report.command_count as nat)
            + "，点="@ + crate::text::decimal(report.point_count as nat) + "，资源引用="@
            + crate::text::decimal(report.resource_reference_count as nat) + "，降级="@
            + crate::text::decimal(report.degradation_count as nat) + "，重构前最大像素误差="@
            + max_diff@,
        unshown@ == "重构已完成，但显示纹理注册失败："@ + error@,
{
}

/// A failed rebuild names the layer or stroke that is missing; what this library says of a
/// missing resource is shown as it is, and for everything else the engine's own words are.
pub proof fn failed_rebuilds_name_what_is_missing(
    error: CanvasError,
    diagnostic: &str,
    text: String,
)
    requires
        call_ensures(crate::trace::trace_rebuild_error_message, (&error, diagnostic), text),
    ensures
        error is MissingLayer ==> text@ == "重构失败：图层 LayerId("@ + crate::text::decimal(
            error->MissingLayer_0.0 as nat,
        ) + ") 不存在"@,
        error is MissingStroke ==> text@ == "重构失败：笔触 StrokeId("@ + crate::text::decimal(
            error->MissingStroke_0.0 as nat,
        ) + ") 不存在"@,
        error is MissingTraceResource && "测试程序"@.is_prefix_of(
            error->MissingTraceResource_0@,
        ) ==> text@ == "重构失败："@ + error->MissingTraceResource_0@,
        error is MissingTraceResource && !"测试程序"@.is_prefix_of(
            error->MissingTraceResource_0@,
        ) ==> text@ == "重构失败："@ + diagnostic@,
        error is InvalidTraceResource || error is InvalidCanvasSize || error is Other ==> text@
            == "重构失败："@ + diagnostic@,
{
}

/// A font that was loaded is named.
pub proof fn loaded_fonts_are_named(path: &str, text: String)
    requires
        call_ensures(crate::fonts::font_loaded_message, (path,), text),
    ensures
        text@ == "已加载中文字体: "@ + path@,
{
}

} // verus!
