//! Where a font with Chinese glyphs may be found.

use crate::text::joined;
use vstd::prelude::*;

verus! {

/// Font files in the order in which they are tried.
pub const CHINESE_FONT_PATHS: [&'static str; 12] = [
    "/System/Library/Fonts/STHeiti Medium.ttc",
    "/System/Library/Fonts/Hiragino Sans GB.ttc",
    "/System/Library/Fonts/Supplemental/Songti.ttc",
    "/Library/Fonts/Arial Unicode.ttf",
    "/Library/Fonts/NotoSansCJK-Regular.ttc",
    "/usr/share/fonts/opentype/noto/NotoSansCJK-Regular.ttc",
    "/usr/share/fonts/truetype/noto/NotoSansCJK-Regular.ttc",
    "/usr/share/fonts/truetype/wqy/wqy-microhei.ttc",
    "C:\\Windows\\Fonts\\msyh.ttc",
    "C:\\Windows\\Fonts\\msyh.ttf",
    "C:\\Windows\\Fonts\\simhei.ttf",
    "C:\\Windows\\Fonts\\simsun.ttc",
];

/// What is said when none of the fonts can be read.
pub const CHINESE_FONT_MISSING_WARNING: &'static str =
    "未找到可用中文字体，测试程序中文界面可能显示为方框或乱码";

/// What is said when the font at `path` was loaded.
pub fn font_loaded_message(path: &str) -> (r: String)
    ensures
        r@ == "已加载中文字体: "@ + path@,
{
    joined("已加载中文字体: ", path)
}

} // verus!
