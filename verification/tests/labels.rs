use canva_test::audit::{NativeStats, StrokeAudit};
use canva_test::brush::{
    brush_preset_label, low_latency_stabilizer_config, stamp_kind_label, BrushPreset,
    BrushStampKind, StabilizerMode, DEFAULT_STABILIZER_SMOOTH_STRENGTH,
};
use canva_test::capture::{
    capture_config, capture_level_label, initial_capture_config, CaptureLevel, CAPTURE_LEVELS,
};
use canva_test::command::{CanvasError, StrokeId};
use canva_test::config::{initial_canvas_config, new_canvas_config};
use canva_test::brush::BrushSettings;
use canva_test::fonts::{font_loaded_message, CHINESE_FONT_MISSING_WARNING, CHINESE_FONT_PATHS};
use canva_test::input::{input_source_label, StrokeInputSource};
use canva_test::layers::{
    blend_mode_label, group_mode_label, layer_label, BlendMode, LayerGroupMode, LayerId,
    LayerSnapshot, LayerSpec, BLEND_MODES,
};
use canva_test::scalar::Single;
use canva_test::selection::{selection_mode_label, SelectionCombineMode, SelectionRect};
use canva_test::shell::ClipboardInfo;
use canva_test::status::{
    append_line, begin_pressure_label, begin_source_line, canvas_line, clipboard_line,
    dispatch_line, layer_line, native_batch_line, pressure_mapping_label, pressure_origin_label,
    raw_force_line, selection_line, touch_phases_line, visibility_label,
};
use canva_test::trace::{
    trace_rebuild_error_message, trace_rebuild_summary, trace_rebuild_unavailable_message,
    trace_report_summary, trace_status_label, trace_texture_registration_error_message,
    TraceReport,
};

fn no_counts() -> TraceReport {
    TraceReport {
        event_count: 0,
        command_count: 0,
        stroke_count: 0,
        stroke_append_count: 0,
        point_count: 0,
        layer_event_count: 0,
        selection_event_count: 0,
        dirty_summary_count: 0,
        resource_reference_count: 0,
        degradation_count: 0,
        estimated_bytes: 0,
    }
}

#[test]
fn capture_level_labels_are_chinese_and_explicit_about_degradation() {
    assert_eq!(capture_level_label(CaptureLevel::L0Structure), "L0 结构事件");
    assert_eq!(capture_level_label(CaptureLevel::L1PointStream), "L1 笔触点流");
    assert!(capture_level_label(CaptureLevel::L2PixelDelta).contains("当前降级"));
    assert!(capture_level_label(CaptureLevel::L3SparseCheckpoint).contains("当前降级"));
}

#[test]
fn capture_config_is_conservative_for_test_app() {
    let disabled = capture_config(false, CaptureLevel::L1PointStream, 0);
    assert!(!disabled.enabled);
    assert_eq!(disabled.level, CaptureLevel::L1PointStream);
    assert_eq!(disabled.max_bytes_per_session, 1024 * 1024);
    assert!(!disabled.allow_gpu_readback);

    let enabled = capture_config(true, CaptureLevel::L2PixelDelta, 16);
    assert!(enabled.enabled);
    assert_eq!(enabled.level, CaptureLevel::L2PixelDelta);
    assert_eq!(enabled.max_bytes_per_session, 16 * 1024 * 1024);
    assert!(!enabled.allow_gpu_readback);
}

#[test]
fn initial_capture_config_enables_recording_for_test_app() {
    let capture = initial_capture_config();
    assert!(capture.enabled);
    assert_eq!(capture.level, CaptureLevel::L1PointStream);
    assert!(!capture.allow_gpu_readback);
}

#[test]
fn capture_budgets_grow_and_stay_countable() {
    let bytes = |mb: u64| capture_config(true, CaptureLevel::L0Structure, mb).max_bytes_per_session;
    assert_eq!(bytes(1), 1_048_576);
    assert_eq!(bytes(128), 134_217_728);
    assert_eq!(bytes(1 << 44), u64::MAX);
    assert_eq!(bytes((1 << 44) - 1), ((1 << 44) - 1) << 20);
    assert_eq!(bytes(u64::MAX), u64::MAX);
}

#[test]
fn test_app_uses_low_latency_stabilizer_defaults() {
    let stabilizer = low_latency_stabilizer_config();

    assert!(!stabilizer.enabled);
    assert_eq!(stabilizer.mode, StabilizerMode::Adaptive);
    assert_eq!(
        f32::from_bits(stabilizer.smooth_strength.bits),
        f32::from_bits(DEFAULT_STABILIZER_SMOOTH_STRENGTH)
    );
    assert_eq!(f32::from_bits(stabilizer.smooth_strength.bits), 0.0);
    assert_eq!(f32::from_bits(stabilizer.spacing_ratio.bits), 0.05);
}

#[test]
fn canvases_take_their_size_from_the_panel() {
    let first = initial_canvas_config();
    assert_eq!((first.width, first.height, first.tile_size), (1024, 1024, 256));
    assert_eq!(first.history_budget_bytes, 512 * 1024 * 1024);
    assert_eq!(f32::from_bits(first.prediction.max_distance.bits), 12.0);
    assert_eq!(first.data_capture, initial_capture_config());

    let mut brush = BrushSettings::new();
    brush.stabilizer_enabled = true;
    brush.stab_mode = StabilizerMode::PulledString;
    brush.smooth_strength = Single { bits: 0.5f32.to_bits() };
    let next = new_canvas_config(first, 640, 0, 0, &brush);
    assert_eq!((next.width, next.height, next.tile_size), (640, 1, 1));
    assert!(next.stabilizer.enabled);
    assert_eq!(next.stabilizer.mode, StabilizerMode::PulledString);
    assert_eq!(f32::from_bits(next.stabilizer.smooth_strength.bits), 0.5);
    assert_eq!(next.stabilizer.spacing_ratio, first.stabilizer.spacing_ratio);
    assert_eq!(next.prediction, first.prediction);
}

#[test]
fn chinese_font_candidates_cover_macos_and_fallback_platforms() {
    assert!(CHINESE_FONT_PATHS.iter().any(|path| path.starts_with("/System/Library/Fonts/")));
    assert!(CHINESE_FONT_PATHS.iter().any(|path| path.contains("Hiragino")));
    assert!(CHINESE_FONT_PATHS.iter().any(|path| path.contains("NotoSansCJK")));
    assert!(CHINESE_FONT_PATHS.iter().any(|path| path.contains("wqy")));
    assert!(CHINESE_FONT_PATHS.iter().any(|path| path.contains(r"C:\Windows\Fonts")));
    assert!(CHINESE_FONT_MISSING_WARNING.contains("中文字体"));
    assert!(CHINESE_FONT_MISSING_WARNING.contains("乱码"));
}

#[test]
fn loaded_fonts_are_named() {
    assert_eq!(font_loaded_message("/a/b.ttc"), "已加载中文字体: /a/b.ttc");
}

#[test]
fn trace_status_label_distinguishes_current_and_cached_records() {
    assert_eq!(trace_status_label(true, true, false), "正在记录当前绘画");
    assert_eq!(trace_status_label(false, false, true), "记录已停止，可重构上次记录");
    assert_eq!(trace_status_label(false, false, false), "还没有可用记录");
}

#[test]
fn trace_status_label_covers_every_state() {
    assert_eq!(trace_status_label(true, false, true), "当前记录未创建，仍可重构上次记录");
    assert_eq!(trace_status_label(true, false, false), "还没有可用记录");
    assert_eq!(trace_status_label(false, true, true), "正在记录当前绘画");
}

#[test]
fn trace_rebuild_unavailable_message_distinguishes_empty_states() {
    assert_eq!(trace_rebuild_unavailable_message(false, false, false), "记录未启用，无法重构");
    assert_eq!(trace_rebuild_unavailable_message(true, false, false), "记录为空，无法重构");
    assert_eq!(trace_rebuild_unavailable_message(false, false, true), "已有可重构记录");
    assert_eq!(trace_rebuild_unavailable_message(true, true, false), "已有可重构记录");
}

#[test]
fn trace_status_and_rebuild_message_agree() {
    for enabled in [false, true] {
        for current in [false, true] {
            for cached in [false, true] {
                let none = trace_status_label(enabled, current, cached) == "还没有可用记录";
                let found = trace_rebuild_unavailable_message(enabled, current, cached)
                    == "已有可重构记录";
                assert_eq!(none, !found);
            }
        }
    }
}

#[test]
fn trace_texture_registration_error_message_reports_display_failure() {
    let message = trace_texture_registration_error_message("纹理无效");
    assert_eq!(message, "重构已完成，但显示纹理注册失败：纹理无效");
}

#[test]
fn trace_report_summary_contains_recording_counters() {
    let report = TraceReport {
        event_count: 12,
        command_count: 4,
        stroke_count: 2,
        stroke_append_count: 3,
        point_count: 1000,
        layer_event_count: 1,
        selection_event_count: 3,
        dirty_summary_count: 2,
        resource_reference_count: 1,
        degradation_count: 1,
        estimated_bytes: 4096,
    };
    let summary = trace_report_summary(&report);
    assert!(summary.contains("事件=12"));
    assert!(summary.contains("命令=4"));
    assert!(summary.contains("追加=3"));
    assert!(summary.contains("点=1000"));
    assert!(summary.contains("资源引用=1"));
    assert!(summary.contains("降级=1"));
    assert!(summary.contains("估算=4 KB"));
    assert_eq!(
        summary,
        "事件=12，命令=4，笔触=2，追加=3，点=1000，图层事件=1，选区事件=3，dirty 摘要=2，\
         资源引用=1，降级=1，估算=4 KB"
    );
}

#[test]
fn trace_rebuild_error_message_localizes_expected_failures() {
    assert_eq!(
        trace_rebuild_error_message(&CanvasError::MissingLayer(LayerId(7)), ""),
        "重构失败：图层 LayerId(7) 不存在"
    );
    assert_eq!(
        trace_rebuild_error_message(&CanvasError::MissingStroke(StrokeId(29)), ""),
        "重构失败：笔触 StrokeId(29) 不存在"
    );
    assert_eq!(
        trace_rebuild_error_message(
            &CanvasError::MissingTraceResource("paste:fixture".to_owned()),
            "CanvasCore 错误：trace 重放缺少资源引用 paste:fixture"
        ),
        "重构失败：CanvasCore 错误：trace 重放缺少资源引用 paste:fixture"
    );
    assert_eq!(
        trace_rebuild_error_message(
            &CanvasError::InvalidTraceResource("paste:fixture".to_owned()),
            "CanvasCore 错误：trace 重放资源引用与 resolver 返回命令不匹配 paste:fixture"
        ),
        "重构失败：CanvasCore 错误：trace 重放资源引用与 resolver 返回命令不匹配 paste:fixture"
    );
    assert_eq!(
        trace_rebuild_error_message(
            &CanvasError::InvalidCanvasSize,
            "CanvasCore 错误：画布尺寸必须非零"
        ),
        "重构失败：CanvasCore 错误：画布尺寸必须非零"
    );
    assert_eq!(trace_rebuild_error_message(&CanvasError::Other, "x"), "重构失败：x");
}

#[test]
fn trace_rebuild_summary_reports_replay_result() {
    let mut report = no_counts();
    report.command_count = 12;
    report.point_count = 345;
    report.resource_reference_count = 1;
    report.degradation_count = 2;
    let max_diff = format!("{:.6}", 0.00125f32);
    let summary = trace_rebuild_summary(&report, &max_diff);
    assert!(summary.contains("已重构到画布"));
    assert!(summary.contains("命令=12"));
    assert!(summary.contains("点=345"));
    assert!(summary.contains("资源引用=1"));
    assert!(summary.contains("降级=2"));
    assert!(summary.contains("重构前最大像素误差=0.001250"));
}

#[test]
fn capture_level_list_matches_supported_ui_choices() {
    assert_eq!(CAPTURE_LEVELS.len(), 4);
    assert_eq!(CAPTURE_LEVELS[0], CaptureLevel::L0Structure);
    assert_eq!(CAPTURE_LEVELS[1], CaptureLevel::L1PointStream);
    assert_eq!(CAPTURE_LEVELS[2], CaptureLevel::L2PixelDelta);
    assert_eq!(CAPTURE_LEVELS[3], CaptureLevel::L3SparseCheckpoint);
}

#[test]
fn listed_choices_carry_different_labels() {
    for (i, a) in BrushPreset::ALL.iter().enumerate() {
        for b in &BrushPreset::ALL[i + 1..] {
            assert_ne!(a, b);
            assert_ne!(brush_preset_label(*a), brush_preset_label(*b));
        }
    }
    for (i, a) in BLEND_MODES.iter().enumerate() {
        for b in &BLEND_MODES[i + 1..] {
            assert_ne!(a, b);
            assert_ne!(blend_mode_label(*a), blend_mode_label(*b));
        }
    }
    for (i, a) in CAPTURE_LEVELS.iter().enumerate() {
        for b in &CAPTURE_LEVELS[i + 1..] {
            assert_ne!(capture_level_label(*a), capture_level_label(*b));
        }
    }
}

#[test]
fn choices_are_labelled() {
    assert_eq!(
        brush_preset_label(BrushPreset::SoftRoundPressureOpacityFlow),
        "柔边圆形（压力控制不透明度和流量）"
    );
    assert_eq!(brush_preset_label(BrushPreset::HardRound), "硬边圆形");
    assert_eq!(stamp_kind_label(BrushStampKind::Circle), "圆形");
    assert_eq!(stamp_kind_label(BrushStampKind::Square), "方形");
    assert_eq!(stamp_kind_label(BrushStampKind::Diamond), "菱形");
    assert_eq!(stamp_kind_label(BrushStampKind::Stripe), "条纹");
    assert_eq!(selection_mode_label(SelectionCombineMode::Replace), "替换");
    assert_eq!(selection_mode_label(SelectionCombineMode::Add), "添加");
    assert_eq!(selection_mode_label(SelectionCombineMode::Subtract), "减去");
    assert_eq!(selection_mode_label(SelectionCombineMode::Intersect), "相交");
    assert_eq!(blend_mode_label(BlendMode::ColorBurn), "颜色加深");
    assert_eq!(blend_mode_label(BlendMode::LinearBurn), "线性加深");
    assert_eq!(group_mode_label(LayerGroupMode::PassThrough), "穿透");
    assert_eq!(group_mode_label(LayerGroupMode::Isolated), "隔离");
    assert_eq!(layer_label(LayerId(12)), "图层 12");
    assert_ne!(layer_label(LayerId(1)), layer_label(LayerId(11)));
    assert_eq!(input_source_label(Some(StrokeInputSource::Touch)), "touch");
    assert_eq!(input_source_label(Some(StrokeInputSource::WindowsPointer)), "windows pointer");
    assert_eq!(input_source_label(Some(StrokeInputSource::PointerFallback)), "pointer fallback");
    assert_eq!(input_source_label(None), "-");
}

#[test]
fn panel_lines_say_what_the_shell_knows() {
    assert_eq!(pressure_origin_label(true), "设备");
    assert_eq!(pressure_origin_label(false), "模拟");
    assert_eq!(pressure_mapping_label(true), "PS 预设");
    assert_eq!(pressure_mapping_label(false), "关闭");
    assert_eq!(begin_pressure_label(true), "device");
    assert_eq!(begin_pressure_label(false), "fallback");
    assert_eq!(visibility_label(true), "可见");
    assert_eq!(visibility_label(false), "隐藏");

    let bounds = SelectionRect { x: 1, y: 2, width: 30, height: 40 };
    assert_eq!(selection_line(Some(bounds), 5), "范围: 1,2 30x40  分段=5");
    assert_eq!(selection_line(None, 5), "无活动选区");
    assert_eq!(
        clipboard_line(&Some(ClipboardInfo { bounds, layer: LayerId(3) })),
        "剪贴板: 30x40 来自图层 3"
    );
    assert_eq!(clipboard_line(&None), "剪贴板: 空");
    assert_eq!(canvas_line(1024, 768), "当前画布: 1024 x 768");

    let layer = LayerSnapshot {
        spec: LayerSpec {
            id: LayerId(4),
            visible: false,
            opacity: Single { bits: 0.5f32.to_bits() },
            alpha_locked: false,
            clip_to_below: false,
            blend_mode: BlendMode::Normal,
            mask_layer: None,
        },
        parent: None,
        group_mode: LayerGroupMode::PassThrough,
        tile_count: 9,
    };
    assert_eq!(layer_line(&layer, "50"), "隐藏 图层 4  50%  9 个 tile");
}

#[test]
fn audit_lines_say_what_was_recorded() {
    let mut audit = StrokeAudit::new();
    assert_eq!(
        native_batch_line(&audit, "0.0", "0.0"),
        "native batch: 0 total=0 dropped=0 gap=0.0px max_gap=0.0px last_error=-"
    );
    audit.note_native_batch(3, Some(NativeStats { dropped_events: 2, last_error: Some(87) }));
    assert_eq!(
        native_batch_line(&audit, "1.5", "2.5"),
        "native batch: 3 total=3 dropped=2 gap=1.5px max_gap=2.5px last_error=87"
    );
    assert_eq!(
        touch_phases_line(&audit),
        "last touch phases: total=0 start=0 move=0 end=0 cancel=0"
    );
    assert_eq!(raw_force_line(&audit, "-", "-"), "raw force: min=- max=- missing=0");
    assert_eq!(begin_source_line(&audit), "begin source: -, touch reanchors: 0");
    assert_eq!(append_line(&audit), "append batches: 0, last len: 0");
    audit.note_dispatch(12, 4);
    assert_eq!(dispatch_line(&audit), "core upload/dispatch: 12/4");
}
