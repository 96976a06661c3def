//! Brush presets, the settings they choose, and what the engine is told about them.

use crate::geometry::StrokePoint;
use crate::input::{StylusPhase, StylusSample};
use crate::scalar::{Double, Single};
use vstd::prelude::*;

verus! {

/// Binary32 bit patterns of the constants that brush settings are made of.
pub const ONE: u32 = 0x3f80_0000;

pub const STARTING_RADIUS: u32 = 0x4170_0000;

pub const PRESET_RADIUS: u32 = 0x4160_0000;

/// One hundredth, the least pressure that the next sample starts from.
pub const LEAST_PRESSURE: u32 = 0x3c23_d70a;

/// One twentieth.
pub const FAINT: u32 = 0x3d4c_cccd;

/// One hundred-and-twentieth of a second.
pub const PREDICTION_HORIZON: u32 = 0x3c08_8889;

pub const PREDICTION_MIN_SAMPLES: usize = 2;

pub const TEXTURE_SCALE: u32 = 0x4190_0000;

/// Five quarters, the size of a slow brush.
pub const SLOW_SIZE: u32 = 0x3fa0_0000;

/// 0.65, the size of a fast brush.
pub const FAST_SIZE: u32 = 0x3f26_6666;

/// 0.55, the opacity of a fast brush.
pub const FAST_OPACITY: u32 = 0x3f0c_cccd;

/// 0.7, the flow of a fast brush.
pub const FAST_FLOW: u32 = 0x3f33_3333;

/// 0.15, the grain under the lightest pressure.
pub const LIGHT_GRAIN: u32 = 0x3e19_999a;

/// Three quarters, the grain under full pressure.
pub const FULL_GRAIN: u32 = 0x3f40_0000;

pub const DEFAULT_STABILIZER_ENABLED: bool = false;

pub const DEFAULT_STABILIZER_SMOOTH_STRENGTH: u32 = 0;

#[derive(Clone, Copy, Debug, PartialEq, Eq, Structural)]
pub enum BrushMode {
    Paint,
    Erase,
    WetMix,
}

#[derive(Clone, Copy, Debug, PartialEq, Eq, Structural)]
pub enum StabilizerMode {
    Adaptive,
    PulledString,
}

/// The stabilizer settings that the shell chooses; the engine keeps its own defaults for
/// the rest.
#[derive(Clone, Copy, Debug, PartialEq, Eq, Structural)]
pub struct StabilizerConfig {
    pub enabled: bool,
    pub mode: StabilizerMode,
    pub smooth_strength: Single,
    pub spacing_ratio: Single,
}

#[derive(Clone, Copy, Debug, PartialEq, Eq, Structural)]
pub struct StrokePredictionConfig {
    pub enabled: bool,
    pub time_horizon_seconds: Single,
    pub max_distance: Single,
    pub min_samples: usize,
}

/// The stabilizer as the shell starts it: off, so that ink follows the pen at once.
pub fn low_latency_stabilizer_config() -> (r: StabilizerConfig)
    ensures
        r == (StabilizerConfig {
            enabled: false,
            mode: StabilizerMode::Adaptive,
            smooth_strength: Single { bits: 0 },
            spacing_ratio: Single { bits: FAINT },
        }),
{
    StabilizerConfig {
        enabled: DEFAULT_STABILIZER_ENABLED,
        mode: StabilizerMode::Adaptive,
        smooth_strength: Single { bits: DEFAULT_STABILIZER_SMOOTH_STRENGTH },
        spacing_ratio: Single { bits: FAINT },
    }
}

#[derive(Clone, Copy, Debug, PartialEq, Eq, Structural)]
pub enum BrushPreset {
    SoftRound,
    HardRound,
    SoftRoundPressureSize,
    HardRoundPressureSize,
    SoftRoundPressureOpacity,
    HardRoundPressureOpacity,
    SoftRoundPressureOpacityFlow,
    HardRoundPressureOpacityFlow,
}

impl BrushPreset {
    /// The presets in the order in which the panel lists them.
    pub const ALL: [BrushPreset; 8] = [
        BrushPreset::SoftRound,
        BrushPreset::HardRound,
        BrushPreset::SoftRoundPressureSize,
        BrushPreset::HardRoundPressureSize,
        BrushPreset::SoftRoundPressureOpacity,
        BrushPreset::HardRoundPressureOpacity,
        BrushPreset::SoftRoundPressureOpacityFlow,
        BrushPreset::HardRoundPressureOpacityFlow,
    ];

    pub open spec fn soft(self) -> bool {
        ||| self == BrushPreset::SoftRound
        ||| self == BrushPreset::SoftRoundPressureSize
        ||| self == BrushPreset::SoftRoundPressureOpacity
        ||| self == BrushPreset::SoftRoundPressureOpacityFlow
    }

    pub open spec fn sized_by_pressure(self) -> bool {
        self == BrushPreset::SoftRoundPressureSize || self == BrushPreset::HardRoundPressureSize
    }

    pub open spec fn faded_by_pressure(self) -> bool {
        ||| self == BrushPreset::SoftRoundPressureOpacity
        ||| self == BrushPreset::HardRoundPressureOpacity
        ||| self == BrushPreset::SoftRoundPressureOpacityFlow
        ||| self == BrushPreset::HardRoundPressureOpacityFlow
    }

    pub open spec fn thinned_by_pressure(self) -> bool {
        ||| self == BrushPreset::SoftRoundPressureOpacityFlow
        ||| self == BrushPreset::HardRoundPressureOpacityFlow
    }

    pub fn is_soft_round(self) -> (r: bool)
        ensures
            r == self.soft(),
    {
        matches!(
            self,
            BrushPreset::SoftRound
                | BrushPreset::SoftRoundPressureSize
                | BrushPreset::SoftRoundPressureOpacity
                | BrushPreset::SoftRoundPressureOpacityFlow
        )
    }

    pub fn pressure_controls_size(self) -> (r: bool)
        ensures
            r == self.sized_by_pressure(),
    {
        matches!(self, BrushPreset::SoftRoundPressureSize | BrushPreset::HardRoundPressureSize)
    }

    pub fn pressure_controls_opacity(self) -> (r: bool)
        ensures
            r == self.faded_by_pressure(),
    {
        matches!(
            self,
            BrushPreset::SoftRoundPressureOpacity
                | BrushPreset::HardRoundPressureOpacity
                | BrushPreset::SoftRoundPressureOpacityFlow
                | BrushPreset::HardRoundPressureOpacityFlow
        )
    }

    pub fn pressure_controls_flow(self) -> (r: bool)
        ensures
            r == self.thinned_by_pressure(),
    {
        matches!(
            self,
            BrushPreset::SoftRoundPressureOpacityFlow
                | BrushPreset::HardRoundPressureOpacityFlow
        )
    }
}

/// Pressure that controls flow controls opacity too, and never size as well.
pub proof fn preset_pressure_targets(preset: BrushPreset)
    ensures
        preset.thinned_by_pressure() ==> preset.faded_by_pressure(),
        !(preset.sized_by_pressure() && preset.faded_by_pressure()),
{
}

/// Every preset is on the panel's list, once.
pub proof fn presets_are_listed_once(preset: BrushPreset)
    ensures
        exists|i: int| 0 <= i < 8 && BrushPreset::ALL[i] == preset,
        forall|i: int, j: int|
            0 <= i < j < 8 ==> BrushPreset::ALL[i] != BrushPreset::ALL[j],
{
}

pub open spec fn brush_preset_text(preset: BrushPreset) -> Seq<char> {
    match preset {
        BrushPreset::SoftRound => "柔边圆形"@,
        BrushPreset::HardRound => "硬边圆形"@,
        BrushPreset::SoftRoundPressureSize => "柔边圆形（压力控制大小）"@,
        BrushPreset::HardRoundPressureSize => "硬边圆形（压力控制大小）"@,
        BrushPreset::SoftRoundPressureOpacity => "柔边圆形（压力控制不透明度）"@,
        BrushPreset::HardRoundPressureOpacity => "硬边圆形（压力控制不透明度）"@,
        BrushPreset::SoftRoundPressureOpacityFlow => "柔边圆形（压力控制不透明度和流量）"@,
        BrushPreset::HardRoundPressureOpacityFlow => "硬边圆形（压力控制不透明度和流量）"@,
    }
}

pub fn brush_preset_label(preset: BrushPreset) -> (r: &'static str)
    ensures
        r@ == brush_preset_text(preset),
{
    match preset {
        BrushPreset::SoftRound => "柔边圆形",
        BrushPreset::HardRound => "硬边圆形",
        BrushPreset::SoftRoundPressureSize => "柔边圆形（压力控制大小）",
        BrushPreset::HardRoundPressureSize => "硬边圆形（压力控制大小）",
        BrushPreset::SoftRoundPressureOpacity => "柔边圆形（压力控制不透明度）",
        BrushPreset::HardRoundPressureOpacity => "硬边圆形（压力控制不透明度）",
        BrushPreset::SoftRoundPressureOpacityFlow => "柔边圆形（压力控制不透明度和流量）",
        BrushPreset::HardRoundPressureOpacityFlow => "硬边圆形（压力控制不透明度和流量）",
    }
}

/// No two presets carry the same label.
pub proof fn brush_preset_labels_differ(a: BrushPreset, b: BrushPreset)
    requires
        a != b,
    ensures
        brush_preset_text(a) != brush_preset_text(b),
{
    reveal_strlit("柔边圆形");
    reveal_strlit("硬边圆形");
    reveal_strlit("柔边圆形（压力控制大小）");
    reveal_strlit("硬边圆形（压力控制大小）");
    reveal_strlit("柔边圆形（压力控制不透明度）");
    reveal_strlit("硬边圆形（压力控制不透明度）");
    reveal_strlit("柔边圆形（压力控制不透明度和流量）");
    reveal_strlit("硬边圆形（压力控制不透明度和流量）");
    let (s, t) = (brush_preset_text(a), brush_preset_text(b));
    assert(s.len() != t.len() || s[0] != t[0]);
}

#[derive(Clone, Copy, Debug, PartialEq, Eq, Structural)]
pub enum BrushStampKind {
    Circle,
    Square,
    Diamond,
    Stripe,
}

pub open spec fn stamp_kind_text(kind: BrushStampKind) -> Seq<char> {
    match kind {
        BrushStampKind::Circle => "圆形"@,
        BrushStampKind::Square => "方形"@,
        BrushStampKind::Diamond => "菱形"@,
        BrushStampKind::Stripe => "条纹"@,
    }
}

pub fn stamp_kind_label(kind: BrushStampKind) -> (r: &'static str)
    ensures
        r@ == stamp_kind_text(kind),
{
    match kind {
        BrushStampKind::Circle => "圆形",
        BrushStampKind::Square => "方形",
        BrushStampKind::Diamond => "菱形",
        BrushStampKind::Stripe => "条纹",
    }
}

/// How one brush attribute answers to pressure or speed.
#[derive(Clone, Copy, Debug, PartialEq, Eq, Structural)]
pub enum PressureCurve {
    Linear { from: Single, to: Single },
    Constant(Single),
    /// The engine's own curve for that attribute.
    EngineDefault,
}

#[derive(Clone, Copy, Debug, PartialEq, Eq, Structural)]
pub struct BrushStamp {
    pub kind: BrushStampKind,
    pub hardness: Single,
    pub aspect: Single,
    pub angle: Single,
}

#[derive(Clone, Copy, Debug, PartialEq, Eq, Structural)]
pub struct BrushDynamics {
    pub size: PressureCurve,
    pub opacity: PressureCurve,
    pub flow: PressureCurve,
    pub velocity_size: PressureCurve,
    pub velocity_opacity: PressureCurve,
    pub velocity_flow: PressureCurve,
    pub texture_grain: PressureCurve,
    pub texture_scale: Single,
    pub stamp: BrushStamp,
}

/// A straight curve between two binary32 bit patterns.
pub open spec fn line(from: u32, to: u32) -> PressureCurve {
    PressureCurve::Linear { from: Single { bits: from }, to: Single { bits: to } }
}

fn linear(from: u32, to: u32) -> (r: PressureCurve)
    ensures
        r == line(from, to),
{
    PressureCurve::Linear { from: Single { bits: from }, to: Single { bits: to } }
}

/// What happens to the engine's stamp texture when settings are sent.
#[derive(Clone, Copy, Debug, PartialEq, Eq, Structural)]
pub enum StampTextureStep {
    /// Paint without a stamp texture.
    Deactivate,
    /// Use the stamp texture that was created before.
    Activate,
    /// Create the stamp texture, then use it.
    CreateAndActivate,
}

/// Everything that the engine is told before a stroke.
#[derive(Clone, Copy, Debug, PartialEq, Eq, Structural)]
pub struct EngineBrushSettings {
    pub session_radius: Single,
    pub stabilizer_enabled: bool,
    pub stabilizer_mode: StabilizerMode,
    pub stabilizer_strength: Single,
    pub dynamics: BrushDynamics,
    pub prediction: StrokePredictionConfig,
    pub pressure_fallback: Single,
    pub stamp_texture: StampTextureStep,
}

/// What the brush panel edits, together with the pressure seen last.
#[derive(Clone, Copy, Debug, PartialEq, Eq, Structural)]
pub struct BrushSettings {
    pub brush_radius: Single,
    pub brush_red: Single,
    pub brush_green: Single,
    pub brush_blue: Single,
    pub brush_alpha: Single,
    pub brush_mode: BrushMode,
    pub brush_preset: BrushPreset,
    pub stabilizer_enabled: bool,
    pub smooth_strength: Single,
    pub stab_mode: StabilizerMode,
    pub core_prediction: bool,
    pub fallback_pressure: Single,
    pub last_pressure: Single,
    pub pressure_from_device: bool,
    pub pressure_dynamics: bool,
    pub velocity_dynamics: bool,
    pub texture_grain: bool,
    pub stamp_kind: BrushStampKind,
    pub stamp_hardness: Single,
    pub stamp_aspect: Single,
    pub stamp_angle: Single,
    pub stamp_texture: bool,
    pub stamp_texture_created: bool,
}

/// A color with four channels.
#[derive(Clone, Copy, Debug, PartialEq, Eq, Structural)]
pub struct Color {
    pub red: Single,
    pub green: Single,
    pub blue: Single,
    pub alpha: Single,
}

/// How raw pressure is turned into stroke pressure; the engine's defaults hold for the
/// rest of the calibration.
#[derive(Clone, Copy, Debug, PartialEq, Eq, Structural)]
pub struct PressureCalibration {
    pub fallback_pressure: Single,
}

/// The settings with which the shell starts.
pub open spec fn starting_settings() -> BrushSettings {
    BrushSettings {
        brush_radius: Single { bits: STARTING_RADIUS },
        brush_red: Single { bits: 0 },
        brush_green: Single { bits: 0 },
        brush_blue: Single { bits: 0 },
        brush_alpha: Single { bits: ONE },
        brush_mode: BrushMode::Paint,
        brush_preset: BrushPreset::HardRound,
        stabilizer_enabled: false,
        smooth_strength: Single { bits: 0 },
        stab_mode: StabilizerMode::Adaptive,
        core_prediction: false,
        fallback_pressure: Single { bits: ONE },
        last_pressure: Single { bits: ONE },
        pressure_from_device: false,
        pressure_dynamics: false,
        velocity_dynamics: false,
        texture_grain: false,
        stamp_kind: BrushStampKind::Circle,
        stamp_hardness: Single { bits: ONE },
        stamp_aspect: Single { bits: ONE },
        stamp_angle: Single { bits: 0 },
        stamp_texture: false,
        stamp_texture_created: false,
    }
}

impl BrushSettings {
    pub fn new() -> (r: BrushSettings)
        ensures
            r == starting_settings(),
    {
        BrushSettings {
            brush_radius: Single { bits: STARTING_RADIUS },
            brush_red: Single::zero(),
            brush_green: Single::zero(),
            brush_blue: Single::zero(),
            brush_alpha: Single { bits: ONE },
            brush_mode: BrushMode::Paint,
            brush_preset: BrushPreset::HardRound,
            stabilizer_enabled: DEFAULT_STABILIZER_ENABLED,
            smooth_strength: Single { bits: DEFAULT_STABILIZER_SMOOTH_STRENGTH },
            stab_mode: StabilizerMode::Adaptive,
            core_prediction: false,
            fallback_pressure: Single { bits: ONE },
            last_pressure: Single { bits: ONE },
            pressure_from_device: false,
            pressure_dynamics: false,
            velocity_dynamics: false,
            texture_grain: false,
            stamp_kind: BrushStampKind::Circle,
            stamp_hardness: Single { bits: ONE },
            stamp_aspect: Single { bits: ONE },
            stamp_angle: Single::zero(),
            stamp_texture: false,
            stamp_texture_created: false,
        }
    }

    pub fn color(&self) -> (r: Color)
        ensures
            r == (Color {
                red: self.brush_red,
                green: self.brush_green,
                blue: self.brush_blue,
                alpha: self.brush_alpha,
            }),
    {
        Color {
            red: self.brush_red,
            green: self.brush_green,
            blue: self.brush_blue,
            alpha: self.brush_alpha,
        }
    }

    /// What choosing `preset` makes of the settings: a plain black round brush with full
    /// simulated pressure. The stabilizer, prediction and a created stamp texture stay.
    pub open spec fn with_preset(self, preset: BrushPreset) -> BrushSettings {
        BrushSettings {
            brush_preset: preset,
            brush_mode: BrushMode::Paint,
            stamp_kind: BrushStampKind::Circle,
            stamp_aspect: Single { bits: ONE },
            stamp_angle: Single { bits: 0 },
            stamp_texture: false,
            velocity_dynamics: false,
            texture_grain: false,
            brush_radius: Single { bits: PRESET_RADIUS },
            brush_red: Single { bits: 0 },
            brush_green: Single { bits: 0 },
            brush_blue: Single { bits: 0 },
            brush_alpha: Single { bits: ONE },
            fallback_pressure: Single { bits: ONE },
            last_pressure: Single { bits: ONE },
            pressure_dynamics: preset.sized_by_pressure() || preset.faded_by_pressure()
                || preset.thinned_by_pressure(),
            stamp_hardness: if preset.soft() {
                Single { bits: 0 }
            } else {
                Single { bits: ONE }
            },
            pressure_from_device: false,
            ..self
        }
    }

    pub fn apply_brush_preset(&mut self, preset: BrushPreset)
        ensures
            *final(self) == old(self).with_preset(preset),
    {
        self.brush_preset = preset;
        self.brush_mode = BrushMode::Paint;
        self.stamp_kind = BrushStampKind::Circle;
        self.stamp_aspect = Single { bits: ONE };
        self.stamp_angle = Single::zero();
        self.stamp_texture = false;
        self.velocity_dynamics = false;
        self.texture_grain = false;
        self.brush_radius = Single { bits: PRESET_RADIUS };
        self.brush_red = Single::zero();
        self.brush_green = Single::zero();
        self.brush_blue = Single::zero();
        self.brush_alpha = Single { bits: ONE };
        self.fallback_pressure = Single { bits: ONE };
        self.last_pressure = self.fallback_pressure;
        self.pressure_dynamics = matches!(
            preset,
            BrushPreset::SoftRoundPressureSize
                | BrushPreset::HardRoundPressureSize
                | BrushPreset::SoftRoundPressureOpacity
                | BrushPreset::HardRoundPressureOpacity
                | BrushPreset::SoftRoundPressureOpacityFlow
                | BrushPreset::HardRoundPressureOpacityFlow
        );
        self.stamp_hardness = if preset.is_soft_round() {
            Single::zero()
        } else {
            Single { bits: ONE }
        };
        self.pressure_from_device = false;
    }

    /// The brush dynamics that these settings ask of the engine.
    pub open spec fn dynamics(self) -> BrushDynamics {
        let preset = self.brush_preset;
        BrushDynamics {
            size: if preset.sized_by_pressure() {
                line(FAINT, ONE)
            } else {
                PressureCurve::Constant(Single { bits: ONE })
            },
            opacity: if preset.faded_by_pressure() {
                line(FAINT, ONE)
            } else {
                PressureCurve::EngineDefault
            },
            flow: if preset.thinned_by_pressure() {
                line(FAINT, ONE)
            } else {
                PressureCurve::EngineDefault
            },
            velocity_size: if self.velocity_dynamics {
                line(SLOW_SIZE, FAST_SIZE)
            } else {
                PressureCurve::EngineDefault
            },
            velocity_opacity: if self.velocity_dynamics {
                line(ONE, FAST_OPACITY)
            } else {
                PressureCurve::EngineDefault
            },
            velocity_flow: if self.velocity_dynamics {
                line(ONE, FAST_FLOW)
            } else {
                PressureCurve::EngineDefault
            },
            texture_grain: if self.texture_grain {
                line(LIGHT_GRAIN, FULL_GRAIN)
            } else {
                PressureCurve::EngineDefault
            },
            texture_scale: Single { bits: TEXTURE_SCALE },
            stamp: BrushStamp {
                kind: self.stamp_kind,
                hardness: self.stamp_hardness,
                aspect: self.stamp_aspect,
                angle: self.stamp_angle,
            },
        }
    }

    pub fn current_brush_dynamics(&self) -> (r: BrushDynamics)
        ensures
            r == self.dynamics(),
    {
        let preset = self.brush_preset;
        BrushDynamics {
            size: if preset.pressure_controls_size() {
                linear(FAINT, ONE)
            } else {
                PressureCurve::Constant(Single { bits: ONE })
            },
            opacity: if preset.pressure_controls_opacity() {
                linear(FAINT, ONE)
            } else {
                PressureCurve::EngineDefault
            },
            flow: if preset.pressure_controls_flow() {
                linear(FAINT, ONE)
            } else {
                PressureCurve::EngineDefault
            },
            velocity_size: if self.velocity_dynamics {
                linear(SLOW_SIZE, FAST_SIZE)
            } else {
                PressureCurve::EngineDefault
            },
            velocity_opacity: if self.velocity_dynamics {
                linear(ONE, FAST_OPACITY)
            } else {
                PressureCurve::EngineDefault
            },
            velocity_flow: if self.velocity_dynamics {
                linear(ONE, FAST_FLOW)
            } else {
                PressureCurve::EngineDefault
            },
            texture_grain: if self.texture_grain {
                linear(LIGHT_GRAIN, FULL_GRAIN)
            } else {
                PressureCurve::EngineDefault
            },
            texture_scale: Single { bits: TEXTURE_SCALE },
            stamp: BrushStamp {
                kind: self.stamp_kind,
                hardness: self.stamp_hardness,
                aspect: self.stamp_aspect,
                angle: self.stamp_angle,
            },
        }
    }

    /// What has to be done about the stamp texture.
    pub open spec fn stamp_texture_step(self) -> StampTextureStep {
        if !self.stamp_texture {
            StampTextureStep::Deactivate
        } else if self.stamp_texture_created {
            StampTextureStep::Activate
        } else {
            StampTextureStep::CreateAndActivate
        }
    }

    /// Gathers what the engine is told before a stroke. `lead` is four fifths of the
    /// radius, the farthest that the engine may predict ahead.
    pub fn sync_core_brush_settings(&self, lead: Single) -> (r: EngineBrushSettings)
        ensures
            r == (EngineBrushSettings {
                session_radius: self.brush_radius,
                stabilizer_enabled: self.stabilizer_enabled,
                stabilizer_mode: self.stab_mode,
                stabilizer_strength: self.smooth_strength,
                dynamics: self.dynamics(),
                prediction: StrokePredictionConfig {
                    enabled: self.core_prediction,
                    time_horizon_seconds: Single { bits: PREDICTION_HORIZON },
                    max_distance: lead,
                    min_samples: PREDICTION_MIN_SAMPLES,
                },
                pressure_fallback: self.fallback_pressure,
                stamp_texture: self.stamp_texture_step(),
            }),
    {
        EngineBrushSettings {
            session_radius: self.brush_radius,
            stabilizer_enabled: self.stabilizer_enabled,
            stabilizer_mode: self.stab_mode,
            stabilizer_strength: self.smooth_strength,
            dynamics: self.current_brush_dynamics(),
            prediction: StrokePredictionConfig {
                enabled: self.core_prediction,
                time_horizon_seconds: Single { bits: PREDICTION_HORIZON },
                max_distance: lead,
                min_samples: PREDICTION_MIN_SAMPLES,
            },
            pressure_fallback: self.fallback_pressure,
            stamp_texture: if self.stamp_texture {
                if self.stamp_texture_created {
                    StampTextureStep::Activate
                } else {
                    StampTextureStep::CreateAndActivate
                }
            } else {
                StampTextureStep::Deactivate
            },
        }
    }

    pub fn input_calibration(&self) -> (r: PressureCalibration)
        ensures
            r.fallback_pressure == self.fallback_pressure,
    {
        PressureCalibration { fallback_pressure: self.fallback_pressure }
    }

    /// The sample that a pointer or touch event at `point` stands for. `pressure` is what
    /// the input layer makes of `force`.
    pub fn stylus_sample(
        &self,
        point: StrokePoint,
        phase: StylusPhase,
        force: Option<Single>,
        pressure: Option<Single>,
        time_seconds: Double,
        batch_size: usize,
    ) -> (r: StylusSample)
        ensures
            r == (StylusSample {
                device_id: 0,
                primary_button: true,
                phase,
                time_seconds,
                x: point.x,
                y: point.y,
                pressure,
                pressure_raw: match force {
                    Some(value) if value.finite() => Some(value),
                    _ => None,
                },
                eraser: self.brush_mode == BrushMode::Erase,
                batch_size: if batch_size == 0 {
                    1
                } else {
                    batch_size
                },
            }),
    {
        let pressure_raw = match force {
            Some(value) => {
                if value.is_finite() {
                    Some(value)
                } else {
                    None
                }
            },
            None => None,
        };
        StylusSample {
            device_id: 0,
            primary_button: true,
            phase,
            time_seconds,
            x: point.x,
            y: point.y,
            pressure,
            pressure_raw,
            eraser: self.brush_mode == BrushMode::Erase,
            batch_size: if batch_size == 0 {
                1
            } else {
                batch_size
            },
        }
    }

    /// Remembers the pressure that a sample was adapted to, and whether the sample had
    /// one of its own.
    pub fn adapt_stylus_sample(&mut self, sample: StylusSample, adapted_pressure: Single)
        ensures
            *final(self) == (BrushSettings {
                last_pressure: adapted_pressure.larger(Single { bits: LEAST_PRESSURE }),
                pressure_from_device: sample.pressure is Some,
                ..*old(self)
            }),
    {
        self.last_pressure = adapted_pressure.max(Single { bits: LEAST_PRESSURE });
        self.pressure_from_device = sample.pressure.is_some();
    }

    /// Forgets device pressure: the next sample starts from the simulated one.
    pub fn forget_device_pressure(&mut self)
        ensures
            *final(self) == (BrushSettings {
                last_pressure: old(self).fallback_pressure,
                pressure_from_device: false,
                ..*old(self)
            }),
    {
        self.last_pressure = self.fallback_pressure;
        self.pressure_from_device = false;
    }
}

/// The remembered pressure is never below one hundredth and never a NaN.
pub proof fn remembered_pressure_is_positive(adapted_pressure: Single)
    ensures
        ({
            let kept = adapted_pressure.larger(Single { bits: LEAST_PRESSURE });
            !kept.nan() && !kept.below(Single { bits: LEAST_PRESSURE })
        }),
{
}

} // verus!
