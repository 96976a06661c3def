//! How much of a drawing session is recorded.

use vstd::prelude::*;

verus! {

#[derive(Clone, Copy, Debug, PartialEq, Eq, Structural)]
pub enum CaptureLevel {
    L0Structure,
    L1PointStream,
    L2PixelDelta,
    L3SparseCheckpoint,
}

/// The capture levels in the order in which the panel lists them.
pub const CAPTURE_LEVELS: [CaptureLevel; 4] = [
    CaptureLevel::L0Structure,
    CaptureLevel::L1PointStream,
    CaptureLevel::L2PixelDelta,
    CaptureLevel::L3SparseCheckpoint,
];

/// Bytes in a megabyte of budget.
pub const MEGABYTE: u64 = 1_048_576;

/// The recording budget with which the shell starts, in megabytes.
pub const STARTING_BUDGET_MB: u64 = 8;

pub open spec fn capture_level_text(level: CaptureLevel) -> Seq<char> {
    match level {
        CaptureLevel::L0Structure => "L0 结构事件"@,
        CaptureLevel::L1PointStream => "L1 笔触点流"@,
        CaptureLevel::L2PixelDelta => "L2 像素变化（当前降级）"@,
        CaptureLevel::L3SparseCheckpoint => "L3 稀疏存档点（当前降级）"@,
    }
}

pub fn capture_level_label(level: CaptureLevel) -> (r: &'static str)
    ensures
        r@ == capture_level_text(level),
{
    match level {
        CaptureLevel::L0Structure => "L0 结构事件",
        CaptureLevel::L1PointStream => "L1 笔触点流",
        CaptureLevel::L2PixelDelta => "L2 像素变化（当前降级）",
        CaptureLevel::L3SparseCheckpoint => "L3 稀疏存档点（当前降级）",
    }
}

/// Every capture level is on the panel's list, once.
pub proof fn capture_levels_are_listed_once(level: CaptureLevel)
    ensures
        exists|i: int| 0 <= i < 4 && CAPTURE_LEVELS[i] == level,
        forall|i: int, j: int| 0 <= i < j < 4 ==> CAPTURE_LEVELS[i] != CAPTURE_LEVELS[j],
{
}

/// No two capture levels carry the same label.
pub proof fn capture_level_labels_differ(a: CaptureLevel, b: CaptureLevel)
    requires
        a != b,
    ensures
        capture_level_text(a) != capture_level_text(b),
{
    reveal_strlit("L0 结构事件");
    reveal_strlit("L1 笔触点流");
    reveal_strlit("L2 像素变化（当前降级）");
    reveal_strlit("L3 稀疏存档点（当前降级）");
    let (s, t) = (capture_level_text(a), capture_level_text(b));
    assert(s[1] != t[1]);
}

/// What the shell decides about recording; the engine keeps its own defaults for the rest.
#[derive(Clone, Copy, Debug, PartialEq, Eq, Structural)]
pub struct DataCaptureConfig {
    pub enabled: bool,
    pub level: CaptureLevel,
    pub max_bytes_per_session: u64,
    pub allow_gpu_readback: bool,
}

/// The bytes that a budget of `budget_mb` megabytes allows: at least one megabyte, and
/// never more than can be counted.
pub open spec fn budget_bytes(budget_mb: u64) -> u64 {
    let megabytes: int = if budget_mb == 0 {
        1
    } else {
        budget_mb as int
    };
    if megabytes * MEGABYTE > u64::MAX {
        u64::MAX
    } else {
        (megabytes * MEGABYTE) as u64
    }
}

/// A recording that never reads pixels back from the graphics device.
pub fn capture_config(enabled: bool, level: CaptureLevel, budget_mb: u64) -> (r: DataCaptureConfig)
    ensures
        r == (DataCaptureConfig {
            enabled,
            level,
            max_bytes_per_session: budget_bytes(budget_mb),
            allow_gpu_readback: false,
        }),
{
    let megabytes: u64 = if budget_mb == 0 {
        1
    } else {
        budget_mb
    };
    DataCaptureConfig {
        enabled,
        level,
        max_bytes_per_session: match megabytes.checked_mul(MEGABYTE) {
            Some(bytes) => bytes,
            None => u64::MAX,
        },
        allow_gpu_readback: false,
    }
}

/// The recording with which the shell starts.
pub fn initial_capture_config() -> (r: DataCaptureConfig)
    ensures
        r == (DataCaptureConfig {
            enabled: true,
            level: CaptureLevel::L1PointStream,
            max_bytes_per_session: 8_388_608,
            allow_gpu_readback: false,
        }),
{
    capture_config(true, CaptureLevel::L1PointStream, STARTING_BUDGET_MB)
}

/// No budget allows less than one megabyte, and a larger budget never allows less.
pub proof fn budgets_are_ordered(small_mb: u64, large_mb: u64)
    requires
        small_mb <= large_mb,
    ensures
        MEGABYTE <= budget_bytes(small_mb) <= budget_bytes(large_mb),
{
}

} // verus!
