//! What the canvas is made with.

use crate::brush::{
    low_latency_stabilizer_config, BrushSettings, StabilizerConfig, StabilizerMode,
    StrokePredictionConfig, FAINT, PREDICTION_HORIZON, PREDICTION_MIN_SAMPLES,
};
use crate::capture::{initial_capture_config, CaptureLevel, DataCaptureConfig};
use crate::scalar::Single;
use vstd::prelude::*;

verus! {

/// The canvas settings that the shell chooses; the engine keeps its own defaults for the
/// rest.
#[derive(Clone, Copy, Debug, PartialEq, Eq, Structural)]
pub struct CanvasConfig {
    pub width: u32,
    pub height: u32,
    pub tile_size: u32,
    pub history_budget_bytes: u64,
    pub streaming_sample_min_distance: Single,
    pub stabilizer: StabilizerConfig,
    pub prediction: StrokePredictionConfig,
    pub data_capture: DataCaptureConfig,
}

/// Width and height of the first canvas.
pub const STARTING_SIZE: u32 = 1024;

pub const STARTING_TILE_SIZE: u32 = 256;

/// Half a gigabyte of undo history.
pub const HISTORY_BUDGET_BYTES: u64 = 536_870_912;

/// Twelve pixels, the farthest that the first canvas predicts a stroke ahead.
pub const STARTING_PREDICTION_DISTANCE: u32 = 0x4140_0000;

/// The canvas with which the shell starts: every sample is kept, nothing is predicted or
/// smoothed, and recording is on.
pub fn initial_canvas_config() -> (r: CanvasConfig)
    ensures
        r == (CanvasConfig {
            width: STARTING_SIZE,
            height: STARTING_SIZE,
            tile_size: STARTING_TILE_SIZE,
            history_budget_bytes: HISTORY_BUDGET_BYTES,
            streaming_sample_min_distance: Single { bits: 0 },
            stabilizer: StabilizerConfig {
                enabled: false,
                mode: StabilizerMode::Adaptive,
                smooth_strength: Single { bits: 0 },
                spacing_ratio: Single { bits: FAINT },
            },
            prediction: StrokePredictionConfig {
                enabled: false,
                time_horizon_seconds: Single { bits: PREDICTION_HORIZON },
                max_distance: Single { bits: STARTING_PREDICTION_DISTANCE },
                min_samples: PREDICTION_MIN_SAMPLES,
            },
            data_capture: DataCaptureConfig {
                enabled: true,
                level: CaptureLevel::L1PointStream,
                max_bytes_per_session: 8_388_608,
                allow_gpu_readback: false,
            },
        }),
{
    CanvasConfig {
        width: STARTING_SIZE,
        height: STARTING_SIZE,
        tile_size: STARTING_TILE_SIZE,
        history_budget_bytes: HISTORY_BUDGET_BYTES,
        streaming_sample_min_distance: Single::zero(),
        stabilizer: low_latency_stabilizer_config(),
        prediction: StrokePredictionConfig {
            enabled: false,
            time_horizon_seconds: Single { bits: PREDICTION_HORIZON },
            max_distance: Single { bits: STARTING_PREDICTION_DISTANCE },
            min_samples: PREDICTION_MIN_SAMPLES,
        },
        data_capture: initial_capture_config(),
    }
}

/// `n`, but at least one.
pub open spec fn at_least_one(n: u32) -> u32 {
    if n == 0 {
        1
    } else {
        n
    }
}

fn positive(n: u32) -> (r: u32)
    ensures
        r == at_least_one(n),
{
    if n == 0 {
        1
    } else {
        n
    }
}

/// The configuration of a new canvas of the given size, which takes over the stabilizer
/// settings of the brush and everything else from `current`.
pub open spec fn resized(
    current: CanvasConfig,
    width: u32,
    height: u32,
    tile_size: u32,
    brush: BrushSettings,
) -> CanvasConfig {
    CanvasConfig {
        width: at_least_one(width),
        height: at_least_one(height),
        tile_size: at_least_one(tile_size),
        stabilizer: StabilizerConfig {
            enabled: brush.stabilizer_enabled,
            mode: brush.stab_mode,
            smooth_strength: brush.smooth_strength,
            ..current.stabilizer
        },
        ..current
    }
}

pub fn new_canvas_config(
    current: CanvasConfig,
    width: u32,
    height: u32,
    tile_size: u32,
    brush: &BrushSettings,
) -> (r: CanvasConfig)
    ensures
        r == resized(current, width, height, tile_size, *brush),
{
    let mut config = current;
    config.width = positive(width);
    config.height = positive(height);
    config.tile_size = positive(tile_size);
    config.stabilizer.enabled = brush.stabilizer_enabled;
    config.stabilizer.mode = brush.stab_mode;
    config.stabilizer.smooth_strength = brush.smooth_strength;
    config
}

} // verus!
