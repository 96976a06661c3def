//! Presets, brush settings, and what the engine is told of them.

use crate::brush::{
    BrushDynamics, BrushMode, BrushPreset, BrushSettings, BrushStampKind, Color,
    EngineBrushSettings, PressureCalibration, PressureCurve, StabilizerConfig, StabilizerMode,
    StampTextureStep,
};
use crate::geometry::StrokePoint;
use crate::input::{StylusPhase, StylusSample};
use crate::scalar::{Double, Single};
use crate::shell::CanvasApp;
use vstd::prelude::*;

verus! {

/// The curve rises from a twentieth at no pressure to one at full pressure.
pub open spec fn rises_with_pressure(curve: PressureCurve) -> bool {
    &&& curve matches PressureCurve::Linear { from, to } && from.bits == 0x3d4c_cccd && to.bits
        == 0x3f80_0000
    &&& curve matches PressureCurve::Linear { from, to } && from.below(to)
}

/// The curve falls from `from` for a slow pen to `to` for a fast one.
pub open spec fn falls_with_speed(curve: PressureCurve, from: u32, to: u32) -> bool {
    &&& curve == (PressureCurve::Linear { from: Single { bits: from }, to: Single { bits: to } })
    &&& (Single { bits: to }).below(Single { bits: from })
}

/// Pressing harder never makes a stroke smaller, fainter or thinner: what pressure controls
/// rises with it, and what it does not control is the same whatever the preset is.
pub proof fn pressure_raises_what_it_controls(
    brush: BrushSettings,
    dynamics: BrushDynamics,
    sizes: bool,
    fades: bool,
    thins: bool,
)
    requires
        call_ensures(BrushSettings::current_brush_dynamics, (&brush,), dynamics),
        call_ensures(BrushPreset::pressure_controls_size, (brush.brush_preset,), sizes),
        call_ensures(BrushPreset::pressure_controls_opacity, (brush.brush_preset,), fades),
        call_ensures(BrushPreset::pressure_controls_flow, (brush.brush_preset,), thins),
    ensures
        sizes ==> rises_with_pressure(dynamics.size),
        fades ==> rises_with_pressure(dynamics.opacity),
        thins ==> rises_with_pressure(dynamics.flow),
        !sizes ==> dynamics.size == PressureCurve::Constant(Single { bits: 0x3f80_0000 }),
        !fades ==> dynamics.opacity is EngineDefault,
        !thins ==> dynamics.flow is EngineDefault,
{
}

/// A preset is called after what it does. The hard presets differ from the soft ones in their
/// edge alone, and pressure controls nothing, the size, the opacity, or opacity and flow.
pub proof fn presets_do_what_they_are_called(
    preset: BrushPreset,
    soft: bool,
    sizes: bool,
    fades: bool,
    thins: bool,
)
    requires
        call_ensures(BrushPreset::is_soft_round, (preset,), soft),
        call_ensures(BrushPreset::pressure_controls_size, (preset,), sizes),
        call_ensures(BrushPreset::pressure_controls_opacity, (preset,), fades),
        call_ensures(BrushPreset::pressure_controls_flow, (preset,), thins),
    ensures
        preset == match (soft, sizes, fades, thins) {
            (true, false, false, false) => BrushPreset::SoftRound,
            (false, false, false, false) => BrushPreset::HardRound,
            (true, true, false, false) => BrushPreset::SoftRoundPressureSize,
            (false, true, false, false) => BrushPreset::HardRoundPressureSize,
            (true, false, true, false) => BrushPreset::SoftRoundPressureOpacity,
            (false, false, true, false) => BrushPreset::HardRoundPressureOpacity,
            (true, false, true, true) => BrushPreset::SoftRoundPressureOpacityFlow,
            _ => BrushPreset::HardRoundPressureOpacityFlow,
        },
        !(sizes && fades),
        thins ==> fades,
{
}

/// Velocity makes a stroke smaller, fainter and thinner the faster the pen goes, or is left to
/// the engine altogether. It has no say in what pressure does.
pub proof fn speed_lowers_what_it_controls(
    brush: BrushSettings,
    other: BrushSettings,
    dynamics: BrushDynamics,
    others: BrushDynamics,
)
    requires
        call_ensures(BrushSettings::current_brush_dynamics, (&brush,), dynamics),
        call_ensures(BrushSettings::current_brush_dynamics, (&other,), others),
        other == (BrushSettings { velocity_dynamics: !brush.velocity_dynamics, ..brush }),
    ensures
        brush.velocity_dynamics ==> falls_with_speed(
            dynamics.velocity_size,
            0x3fa0_0000,
            0x3f26_6666,
        ),
        brush.velocity_dynamics ==> falls_with_speed(
            dynamics.velocity_opacity,
            0x3f80_0000,
            0x3f0c_cccd,
        ),
        brush.velocity_dynamics ==> falls_with_speed(
            dynamics.velocity_flow,
            0x3f80_0000,
            0x3f33_3333,
        ),
        !brush.velocity_dynamics ==> dynamics.velocity_size is EngineDefault
            && dynamics.velocity_opacity is EngineDefault && dynamics.velocity_flow
            is EngineDefault,
        others == (BrushDynamics {
            velocity_size: others.velocity_size,
            velocity_opacity: others.velocity_opacity,
            velocity_flow: others.velocity_flow,
            ..dynamics
        }),
{
}

/// The paper's grain shows more the harder the pen is pressed, from 0.15 to three quarters, or
/// is left to the engine. Its scale is eighteen, whatever the brush is.
pub proof fn grain_rises_with_pressure(
    brush: BrushSettings,
    other: BrushSettings,
    dynamics: BrushDynamics,
    others: BrushDynamics,
)
    requires
        call_ensures(BrushSettings::current_brush_dynamics, (&brush,), dynamics),
        call_ensures(BrushSettings::current_brush_dynamics, (&other,), others),
        other == (BrushSettings { texture_grain: !brush.texture_grain, ..brush }),
    ensures
        brush.texture_grain ==> dynamics.texture_grain == (PressureCurve::Linear {
            from: Single { bits: 0x3e19_999a },
            to: Single { bits: 0x3f40_0000 },
        }),
        (Single { bits: 0x3e19_999a }).below(Single { bits: 0x3f40_0000 }),
        !brush.texture_grain ==> dynamics.texture_grain is EngineDefault,
        dynamics.texture_scale.bits == 0x4190_0000,
        others == (BrushDynamics { texture_grain: others.texture_grain, ..dynamics }),
{
}

/// The stamp is the one that the panel shows, attribute by attribute, and nothing but the
/// preset, velocity, grain and stamp bears on the dynamics.
pub proof fn dynamics_carry_the_stamp(
    brush: BrushSettings,
    other: BrushSettings,
    dynamics: BrushDynamics,
    others: BrushDynamics,
)
    requires
        call_ensures(BrushSettings::current_brush_dynamics, (&brush,), dynamics),
        call_ensures(BrushSettings::current_brush_dynamics, (&other,), others),
        other.brush_preset == brush.brush_preset,
        other.velocity_dynamics == brush.velocity_dynamics,
        other.texture_grain == brush.texture_grain,
    ensures
        dynamics.stamp.kind == brush.stamp_kind,
        dynamics.stamp.hardness == brush.stamp_hardness,
        dynamics.stamp.aspect == brush.stamp_aspect,
        dynamics.stamp.angle == brush.stamp_angle,
        others == (BrushDynamics { stamp: others.stamp, ..dynamics }),
{
}

/// Choosing a preset makes a plain round brush: black and opaque, fourteen pixels wide, with
/// full simulated pressure and no texture, soft or hard as the preset is called.
pub proof fn presets_are_plain_round_brushes(
    brush: &mut BrushSettings,
    preset: BrushPreset,
    soft: bool,
    sizes: bool,
    fades: bool,
    thins: bool,
)
    requires
        call_ensures(BrushSettings::apply_brush_preset, (brush, preset), ()),
        call_ensures(BrushPreset::is_soft_round, (preset,), soft),
        call_ensures(BrushPreset::pressure_controls_size, (preset,), sizes),
        call_ensures(BrushPreset::pressure_controls_opacity, (preset,), fades),
        call_ensures(BrushPreset::pressure_controls_flow, (preset,), thins),
    ensures
        final(brush).brush_preset == preset,
        final(brush).brush_radius.bits == 0x4160_0000,
        final(brush).brush_red.bits == 0,
        final(brush).brush_green.bits == 0,
        final(brush).brush_blue.bits == 0,
        final(brush).brush_alpha.bits == 0x3f80_0000,
        final(brush).brush_mode == BrushMode::Paint,
        final(brush).fallback_pressure.bits == 0x3f80_0000,
        final(brush).last_pressure.bits == 0x3f80_0000,
        !final(brush).pressure_from_device,
        final(brush).stamp_kind == BrushStampKind::Circle,
        final(brush).stamp_aspect.bits == 0x3f80_0000,
        final(brush).stamp_angle.bits == 0,
        final(brush).stamp_hardness.bits == if soft {
            0
        } else {
            0x3f80_0000u32
        },
        !final(brush).stamp_texture,
        !final(brush).velocity_dynamics,
        !final(brush).texture_grain,
        final(brush).pressure_dynamics <==> sizes || fades || thins,
{
}

/// Choosing a preset leaves the stabilizer, the prediction and a created texture alone.
pub proof fn presets_leave_the_stabilizer_alone(brush: &mut BrushSettings, preset: BrushPreset)
    requires
        call_ensures(BrushSettings::apply_brush_preset, (brush, preset), ()),
    ensures
        final(brush).stabilizer_enabled == old(brush).stabilizer_enabled,
        final(brush).smooth_strength == old(brush).smooth_strength,
        final(brush).stab_mode == old(brush).stab_mode,
        final(brush).core_prediction == old(brush).core_prediction,
        final(brush).stamp_texture_created == old(brush).stamp_texture_created,
{
}

/// The preset that was chosen last counts, and none before it.
pub proof fn the_last_preset_counts(
    first: &mut BrushSettings,
    again: &mut BrushSettings,
    alone: &mut BrushSettings,
    before: BrushPreset,
    preset: BrushPreset,
)
    requires
        call_ensures(BrushSettings::apply_brush_preset, (first, before), ()),
        call_ensures(BrushSettings::apply_brush_preset, (again, preset), ()),
        call_ensures(BrushSettings::apply_brush_preset, (alone, preset), ()),
        *old(again) == *final(first),
        *old(alone) == *old(first),
    ensures
        *final(again) == *final(alone),
{
}

/// The color is the one that was picked, channel by channel.
pub proof fn colors_are_as_picked(brush: BrushSettings, color: Color)
    requires
        call_ensures(BrushSettings::color, (&brush,), color),
    ensures
        color.red == brush.brush_red,
        color.green == brush.brush_green,
        color.blue == brush.brush_blue,
        color.alpha == brush.brush_alpha,
{
}

/// The engine is told what the panel shows: its dynamics are those of the brush, the
/// stabilizer and the pressure without a pen are as set, and it predicts, if asked to, a
/// hundred-and-twentieth of a second ahead from two samples on, as far as `lead`.
pub proof fn the_engine_is_told_what_the_panel_shows(
    brush: BrushSettings,
    lead: Single,
    told: EngineBrushSettings,
    dynamics: BrushDynamics,
)
    requires
        call_ensures(BrushSettings::sync_core_brush_settings, (&brush, lead), told),
        call_ensures(BrushSettings::current_brush_dynamics, (&brush,), dynamics),
    ensures
        told.dynamics == dynamics,
        told.session_radius == brush.brush_radius,
        told.stabilizer_enabled == brush.stabilizer_enabled,
        told.stabilizer_mode == brush.stab_mode,
        told.stabilizer_strength == brush.smooth_strength,
        told.pressure_fallback == brush.fallback_pressure,
        told.prediction.enabled == brush.core_prediction,
        told.prediction.max_distance == lead,
        told.prediction.time_horizon_seconds.bits == 0x3c08_8889,
        told.prediction.min_samples == 2,
{
}

/// The stamp texture is used just when the panel asks for it, and created once: when it is
/// first used, and not again after the engine created it.
pub proof fn textures_are_created_once(
    app: &mut CanvasApp,
    lead: Single,
    first: EngineBrushSettings,
    created: bool,
    result: Result<(), String>,
    second: EngineBrushSettings,
)
    requires
        call_ensures(BrushSettings::sync_core_brush_settings, (&old(app).brush, lead), first),
        call_ensures(CanvasApp::finish_brush_sync, (app, created, result), ()),
        call_ensures(BrushSettings::sync_core_brush_settings, (&final(app).brush, lead), second),
        first.stamp_texture == StampTextureStep::CreateAndActivate ==> created,
    ensures
        first.stamp_texture == StampTextureStep::Deactivate <==> !old(app).brush.stamp_texture,
        first.stamp_texture == StampTextureStep::CreateAndActivate <==> (
        old(app).brush.stamp_texture && !old(app).brush.stamp_texture_created),
        second.stamp_texture != StampTextureStep::CreateAndActivate,
        second == (EngineBrushSettings { stamp_texture: second.stamp_texture, ..first }),
        final(app).last_error is None <==> result is Ok,
        result matches Err(error) ==> final(app).last_error == Some(error),
{
}

/// Sending the settings changes nothing but the error and whether there is a texture, and a
/// texture that was created stays.
pub proof fn sending_settings_changes_no_setting(
    app: &mut CanvasApp,
    created: bool,
    result: Result<(), String>,
)
    requires
        call_ensures(CanvasApp::finish_brush_sync, (app, created, result), ()),
    ensures
        *final(app) == (CanvasApp {
            brush: BrushSettings {
                stamp_texture_created: final(app).brush.stamp_texture_created,
                ..old(app).brush
            },
            last_error: final(app).last_error,
            ..*old(app)
        }),
        final(app).brush.stamp_texture_created <==> old(app).brush.stamp_texture_created
            || created,
{
}

/// A pointer or touch event is sampled where it happened, as it was pressed: with its own
/// force as far as that is a finite number, erasing just when the brush erases, and in a batch
/// that holds at least itself.
pub proof fn samples_are_taken_where_the_event_was(
    brush: BrushSettings,
    point: StrokePoint,
    phase: StylusPhase,
    force: Option<Single>,
    pressure: Option<Single>,
    time: Double,
    batch_size: usize,
    sample: StylusSample,
)
    requires
        call_ensures(
            BrushSettings::stylus_sample,
            (&brush, point, phase, force, pressure, time, batch_size),
            sample,
        ),
    ensures
        sample.x == point.x,
        sample.y == point.y,
        sample.phase == phase,
        sample.time_seconds == time,
        sample.pressure == pressure,
        sample.pressure_raw is Some <==> force is Some && force->0.finite(),
        sample.pressure_raw is Some ==> sample.pressure_raw == force,
        sample.eraser <==> brush.brush_mode == BrushMode::Erase,
        sample.primary_button,
        sample.device_id == 0,
        sample.batch_size >= 1,
        batch_size >= 1 ==> sample.batch_size == batch_size,
        batch_size == 0 ==> sample.batch_size == 1,
{
}

/// The brush remembers the pressure of the latest sample, but no less than a hundredth, and
/// whether it came from a device; and it forgets both for the simulated pressure.
pub proof fn brushes_remember_the_latest_pressure(
    brush: &mut BrushSettings,
    sample: StylusSample,
    pressure: Single,
    later: &mut BrushSettings,
)
    requires
        call_ensures(BrushSettings::adapt_stylus_sample, (brush, sample, pressure), ()),
        call_ensures(BrushSettings::forget_device_pressure, (later,), ()),
        *old(later) == *final(brush),
    ensures
        (Single { bits: 0x3c23_d70a }).at_most(final(brush).last_pressure),
        (Single { bits: 0x3c23_d70a }).below(pressure) ==> final(brush).last_pressure == pressure,
        !(Single { bits: 0x3c23_d70a }).at_most(pressure) ==> final(brush).last_pressure.bits
            == 0x3c23_d70a,
        final(brush).pressure_from_device <==> sample.pressure is Some,
        *final(brush) == (BrushSettings {
            last_pressure: final(brush).last_pressure,
            pressure_from_device: final(brush).pressure_from_device,
            ..*old(brush)
        }),
        final(later).last_pressure == old(brush).fallback_pressure,
        !final(later).pressure_from_device,
        *final(later) == (BrushSettings {
            last_pressure: final(later).last_pressure,
            pressure_from_device: false,
            ..*old(brush)
        }),
{
}

/// A device without pressure is calibrated to the simulated one.
pub proof fn calibration_falls_back_on_the_brush(
    brush: BrushSettings,
    calibration: PressureCalibration,
)
    requires
        call_ensures(BrushSettings::input_calibration, (&brush,), calibration),
    ensures
        calibration.fallback_pressure == brush.fallback_pressure,
{
}

/// The shell starts with a hard round black brush of fifteen pixels that neither smooths nor
/// predicts, and with a stabilizer to match.
pub proof fn brushes_start_plain(brush: BrushSettings, stabilizer: StabilizerConfig)
    requires
        call_ensures(BrushSettings::new, (), brush),
        call_ensures(crate::brush::low_latency_stabilizer_config, (), stabilizer),
    ensures
        brush.brush_preset == BrushPreset::HardRound,
        brush.brush_radius.bits == 0x4170_0000,
        brush.brush_mode == BrushMode::Paint,
        brush.brush_red.bits == 0 && brush.brush_green.bits == 0 && brush.brush_blue.bits == 0,
        brush.brush_alpha.bits == 0x3f80_0000,
        brush.fallback_pressure.bits == 0x3f80_0000,
        brush.last_pressure == brush.fallback_pressure,
        !brush.pressure_from_device,
        !brush.pressure_dynamics && !brush.velocity_dynamics && !brush.texture_grain,
        !brush.core_prediction,
        brush.stamp_kind == BrushStampKind::Circle,
        brush.stamp_hardness.bits == 0x3f80_0000,
        brush.stamp_aspect.bits == 0x3f80_0000,
        brush.stamp_angle.bits == 0,
        !brush.stamp_texture && !brush.stamp_texture_created,
        !stabilizer.enabled,
        stabilizer.mode == StabilizerMode::Adaptive,
        stabilizer.smooth_strength.bits == 0,
        stabilizer.spacing_ratio.bits == 0x3d4c_cccd,
        brush.stabilizer_enabled == stabilizer.enabled,
        brush.smooth_strength == stabilizer.smooth_strength,
        brush.stab_mode == stabilizer.mode,
{
}

} // verus!
