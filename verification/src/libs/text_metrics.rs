use vstd::prelude::*;

verus! {

/// The left margin and the indent, in pixels, for a paragraph at the given
/// margin and indent levels, each level being one character wide: the margin
/// is the baseline margin moved by `margin_level` characters, never below
/// zero; the indent is `indent_level` characters.
pub fn get_margin_indent(
    margin_level: i32,
    indent_level: i32,
    baseline_margin: i32,
    char_width: i32,
) -> (r: (i32, i32))
    requires
        i32::MIN <= char_width * margin_level <= i32::MAX,
        i32::MIN <= baseline_margin + char_width * margin_level <= i32::MAX,
        i32::MIN <= char_width * indent_level <= i32::MAX,
    ensures
        r.0 == if baseline_margin + char_width * margin_level > 0 {
            baseline_margin + char_width * margin_level
        } else {
            0
        },
        r.1 == char_width * indent_level,
{
    let shifted: i32 = baseline_margin + char_width * margin_level;
    let margin: i32 = if shifted > 0 {
        shifted
    } else {
        0
    };
    let indent: i32 = char_width * indent_level;
    (margin, indent)
}

} // verus!
