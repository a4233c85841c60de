//! A small system-monitor rendering library.
//!
//! The formatter layer turns numeric resource readings into display text:
//! percentage computation, byte-size humanization, color-tier selection and
//! fixed-width progress bars. Percentages are carried as integer tenths of a
//! percent (so `50.0%` is `500`), which keeps every boundary and the
//! one-decimal display exact.

use vstd::prelude::*;

pub mod output;
pub mod report;
pub mod text;

use crate::text::{dec_rep, tenths_rep, u64_to_string};

verus! {

/// Exact percentage of `used` out of `total`, in tenths of a percent,
/// rounded half-to-even; a zero `total` is defined to give 0.
pub open spec fn percent_tenths(used: nat, total: nat) -> nat {
    if total == 0 {
        0
    } else {
        rounded_div(used * 1000, total)
    }
}

/// Quotient `n / d` rounded to the nearest integer, ties to even.
pub open spec fn rounded_div(n: nat, d: nat) -> nat
    recommends
        d > 0,
{
    let q = n / d;
    let r = n % d;
    if 2 * r < d {
        q
    } else if 2 * r > d {
        q + 1
    } else if q % 2 == 0 {
        q
    } else {
        q + 1
    }
}

/// `percent_tenths` capped at `u64::MAX`, the value the executable
/// computation returns when the exact ratio does not fit.
pub open spec fn percent_tenths_sat(used: nat, total: nat) -> nat {
    let p = percent_tenths(used, total);
    if p > u64::MAX {
        u64::MAX as nat
    } else {
        p
    }
}

fn div_rounded_even(n: u128, d: u128) -> (q: u128)
    requires
        d > 0,
    ensures
        q == rounded_div(n as nat, d as nat),
{
    let quot = n / d;
    let rem = n % d;
    if rem < d - rem {
        quot
    } else {
        assert(quot < u128::MAX) by {
            assert(d >= 2);
            assert(n / d <= n / 2) by {
                vstd::arithmetic::div_mod::lemma_div_is_ordered_by_denominator(n as int, 2, d as int);
            }
        }
        if rem > d - rem {
            quot + 1
        } else if quot % 2 == 0 {
            quot
        } else {
            quot + 1
        }
    }
}

/// Percentage of `used` out of `total` in tenths of a percent.
///
/// A zero `total` yields 0 rather than an error: the reading is treated as
/// an empty capacity. `used` may exceed `total`; the result is then above
/// 1000 (that is, above 100%) without clamping, capped only by the `u64`
/// range.
pub fn calculate_percentage(used: u64, total: u64) -> (r: u64)
    ensures
        r as nat == percent_tenths_sat(used as nat, total as nat),
        total == 0 ==> r == 0,
        total > 0 && (used as nat * 1000) % (total as nat) == 0 && used as nat * 1000 / (
        total as nat) <= u64::MAX ==> r as nat * (total as nat) == used as nat * 1000,
{
    if total == 0 {
        0
    } else {
        let t = div_rounded_even((used as u128) * 1000, total as u128);
        proof {
            let n = used as nat * 1000;
            let d = total as nat;
            if n % d == 0 {
                assert(t == n / d);
                vstd::arithmetic::div_mod::lemma_fundamental_div_mod(n as int, d as int);
                assert(n == d * (n / d));
                assert((n / d) * d == d * (n / d)) by (nonlinear_arith);
            }
        }
        if t > u64::MAX as u128 {
            u64::MAX
        } else {
            t as u64
        }
    }
}

/// Severity band of a percentage: the thresholds sit at 75% and 90%,
/// both mapping to the lower band when hit exactly.
#[derive(Clone, Copy, Debug, PartialEq, Eq, Structural)]
pub enum ColorTier {
    Normal,
    Warning,
    Critical,
}

/// The tier of a percentage given in tenths of a percent: above 90.0%
/// is critical, above 75.0% is warning, everything else is normal.
pub open spec fn tier_of(tenths: nat) -> ColorTier {
    if tenths > 900 {
        ColorTier::Critical
    } else if tenths > 750 {
        ColorTier::Warning
    } else {
        ColorTier::Normal
    }
}

/// The ANSI foreground color escape sequence of a tier: green for
/// normal, yellow for warning, red for critical.
pub open spec fn color_code_view(t: ColorTier) -> Seq<char> {
    match t {
        ColorTier::Normal => "\u{1B}[32m"@,
        ColorTier::Warning => "\u{1B}[33m"@,
        ColorTier::Critical => "\u{1B}[31m"@,
    }
}

/// The ANSI reset escape sequence that ends a colored span.
pub open spec fn reset_code() -> Seq<char> {
    "\u{1B}[0m"@
}

/// Tier of a percentage in tenths of a percent.
pub fn color_tier(percent: u64) -> (t: ColorTier)
    ensures
        t == tier_of(percent as nat),
{
    if percent > 900 {
        ColorTier::Critical
    } else if percent > 750 {
        ColorTier::Warning
    } else {
        ColorTier::Normal
    }
}

/// ANSI color escape sequence of a tier.
pub fn tier_color(t: ColorTier) -> (r: &'static str)
    ensures
        r@ == color_code_view(t),
{
    match t {
        ColorTier::Normal => "\u{1B}[32m",
        ColorTier::Warning => "\u{1B}[33m",
        ColorTier::Critical => "\u{1B}[31m",
    }
}

/// ANSI color escape sequence for a percentage in tenths of a percent:
/// red above 90.0%, yellow above 75.0%, green otherwise.
pub fn get_color_for_percentage(percent: u64) -> (r: String)
    ensures
        r@ == color_code_view(tier_of(percent as nat)),
{
    tier_color(color_tier(percent)).to_owned()
}

/// Number of filled cells in a 40-cell bar for the ratio `current / max`,
/// truncated toward zero and clamped: a zero `max` is treated as an empty
/// bar, and `current >= max` fills it completely.
pub open spec fn filled_cells(current: nat, max: nat) -> nat {
    if max == 0 {
        0
    } else if current >= max {
        40
    } else {
        current * 40 / max
    }
}

/// Tier of the exact normalized percentage `current / max * 100`, with the
/// same 75% and 90% thresholds as `tier_of`; a zero `max` counts as 0%.
pub open spec fn bar_tier(current: nat, max: nat) -> ColorTier {
    if max == 0 {
        ColorTier::Normal
    } else if 10 * current > 9 * max {
        ColorTier::Critical
    } else if 4 * current > 3 * max {
        ColorTier::Warning
    } else {
        ColorTier::Normal
    }
}

/// The full text of a progress bar: an opening bracket, the filled cells
/// (wrapped in a color escape and a reset when `use_color` is set), the
/// empty cells as spaces, and a closing bracket.
pub open spec fn bar_view(current: nat, max: nat, use_color: bool) -> Seq<char> {
    let filled = filled_cells(current, max);
    let fill = if use_color {
        color_code_view(bar_tier(current, max)) + text::repeat_char('█', filled) + reset_code()
    } else {
        text::repeat_char('█', filled)
    };
    "["@ + fill + text::repeat_char(' ', (40 - filled) as nat) + "]"@
}

/// The filled-cell count never exceeds the 40 cells of the track.
pub proof fn lemma_filled_cells_bounded(current: nat, max: nat)
    ensures
        filled_cells(current, max) <= 40,
{
    if max != 0 && current < max {
        assert(current * 40 < max * 40) by (nonlinear_arith)
            requires
                current < max,
        ;
        vstd::arithmetic::div_mod::lemma_multiply_divide_lt(current as int * 40, max as int, 40);
    }
}

/// A bar always renders its 42 visible characters: the two brackets and
/// the 40 fill cells. Coloring adds exactly the nine characters of the
/// color escape and the reset escape, and nothing else.
pub proof fn lemma_bar_width(current: nat, max: nat, use_color: bool)
    ensures
        bar_view(current, max, use_color).len() == if use_color {
            51int
        } else {
            42int
        },
{
    lemma_filled_cells_bounded(current, max);
    reveal_strlit("[");
    reveal_strlit("]");
    reveal_strlit("\u{1B}[32m");
    reveal_strlit("\u{1B}[33m");
    reveal_strlit("\u{1B}[31m");
    reveal_strlit("\u{1B}[0m");
}

/// On a 0–100 percent scale carried in tenths (`max` of 1000), the bar's
/// color tier is exactly the tier of the raw `current` value.
pub proof fn lemma_bar_tier_matches_percent(current: nat)
    ensures
        bar_tier(current, 1000) == tier_of(current),
{
}

/// Fixed-width progress bar for the ratio `current / max`, 40 fill cells
/// between brackets. With color, the filled span is wrapped in the escape
/// code of the normalized ratio's tier and a reset code; the reset appears
/// even when nothing is filled. Out-of-range inputs are clamped: a zero
/// `max` renders an empty track and `current > max` a full one.
pub fn generate_progress_bar(current: u64, max: u64, use_color: bool) -> (r: String)
    ensures
        r@ == bar_view(current as nat, max as nat, use_color),
{
    let filled: u64 = if max == 0 {
        0
    } else if current >= max {
        40
    } else {
        let f = ((current as u128) * 40) / (max as u128);
        proof {
            lemma_filled_cells_bounded(current as nat, max as nat);
        }
        f as u64
    };
    assert(filled as nat == filled_cells(current as nat, max as nat));
    assert(filled <= 40) by {
        lemma_filled_cells_bounded(current as nat, max as nat);
    }
    proof {
        reveal_strlit("█");
        reveal_strlit(" ");
        assert("█"@ =~= seq!['█']);
        assert(" "@ =~= seq![' ']);
    }
    let mut r = "[".to_owned();
    if use_color {
        let t = if max == 0 {
            ColorTier::Normal
        } else if (current as u128) * 10 > (max as u128) * 9 {
            ColorTier::Critical
        } else if (current as u128) * 4 > (max as u128) * 3 {
            ColorTier::Warning
        } else {
            ColorTier::Normal
        };
        assert(t == bar_tier(current as nat, max as nat));
        r.append(tier_color(t));
        text::append_repeat(&mut r, "█", filled);
        r.append("\u{1B}[0m");
    } else {
        text::append_repeat(&mut r, "█", filled);
    }
    text::append_repeat(&mut r, " ", 40 - filled);
    r.append("]");
    proof {
        assert(r@ =~= bar_view(current as nat, max as nat, use_color));
    }
    r
}

/// Index on the unit ladder B, KB, MB, GB for a byte count: the largest
/// unit (capped at GB) whose value is at least 1. Values of 1024 GB and
/// above stay in GB with a growing integer part.
pub open spec fn unit_index_of(bytes: nat) -> nat {
    if bytes < 1024 {
        0
    } else if bytes < 1048576 {
        1
    } else if bytes < 1073741824 {
        2
    } else {
        3
    }
}

/// The divisor that scales a byte count to the unit at index `k`.
pub open spec fn unit_divisor(k: nat) -> nat {
    if k == 0 {
        1
    } else if k == 1 {
        1024
    } else if k == 2 {
        1048576
    } else {
        1073741824
    }
}

/// The display suffix of the unit at index `k`.
pub open spec fn unit_suffix(k: nat) -> Seq<char> {
    if k == 0 {
        " B"@
    } else if k == 1 {
        " KB"@
    } else if k == 2 {
        " MB"@
    } else {
        " GB"@
    }
}

/// Human-readable byte count: a bare integer in the byte tier, one
/// fractional digit (rounded half-to-even on the scaled tenths) above it.
pub open spec fn format_bytes_view(bytes: nat) -> Seq<char> {
    let k = unit_index_of(bytes);
    if k == 0 {
        dec_rep(bytes) + " B"@
    } else {
        tenths_rep(rounded_div(bytes * 10, unit_divisor(k))) + unit_suffix(k)
    }
}

/// Byte count scaled to the largest unit of the B / KB / MB / GB ladder,
/// base 1024. Byte values render as a bare integer ("500 B"); any higher
/// unit renders with exactly one fractional digit ("1.5 KB", "476.8 GB").
/// The ladder stops at GB, so very large values keep growing in GB.
pub fn format_bytes(bytes: u64) -> (r: String)
    ensures
        r@ == format_bytes_view(bytes as nat),
{
    if bytes < 1024 {
        let mut r = u64_to_string(bytes);
        r.append(" B");
        r
    } else {
        let divisor: u64 = if bytes < 1048576 {
            1024
        } else if bytes < 1073741824 {
            1048576
        } else {
            1073741824
        };
        let suffix: &'static str = if bytes < 1048576 {
            " KB"
        } else if bytes < 1073741824 {
            " MB"
        } else {
            " GB"
        };
        let t128 = div_rounded_even((bytes as u128) * 10, divisor as u128);
        proof {
            let n = bytes as nat * 10;
            assert(t128 as nat <= n / (divisor as nat) + 1);
            assert(n / (divisor as nat) <= n / 1024) by {
                vstd::arithmetic::div_mod::lemma_div_is_ordered_by_denominator(
                    n as int,
                    1024,
                    divisor as int,
                );
            }
            assert(n / 1024 <= (u64::MAX as nat * 10) / 1024) by {
                vstd::arithmetic::div_mod::lemma_div_is_ordered(
                    n as int,
                    u64::MAX as int * 10,
                    1024,
                );
            }
        }
        let t = t128 as u64;
        let mut r = String::new();
        text::append_tenths(&mut r, t);
        r.append(suffix);
        proof {
            assert(r@ =~= format_bytes_view(bytes as nat));
        }
        r
    }
}

/// A bar rendered without color holds no ANSI escape character at all.
pub proof fn lemma_plain_bar_esc_free(current: nat, max: nat)
    ensures
        text::esc_free(bar_view(current, max, false)),
{
    let filled = filled_cells(current, max);
    reveal_strlit("[");
    reveal_strlit("]");
    assert(text::esc_free("["@));
    assert(text::esc_free("]"@));
    text::lemma_repeat_esc_free('█', filled);
    text::lemma_repeat_esc_free(' ', (40 - filled) as nat);
    text::lemma_esc_free_concat("["@, text::repeat_char('█', filled));
    text::lemma_esc_free_concat(
        "["@ + text::repeat_char('█', filled),
        text::repeat_char(' ', (40 - filled) as nat),
    );
    text::lemma_esc_free_concat(
        "["@ + text::repeat_char('█', filled) + text::repeat_char(' ', (40 - filled) as nat),
        "]"@,
    );
}

/// A humanized byte count holds no ANSI escape character.
pub proof fn lemma_format_bytes_esc_free(bytes: nat)
    ensures
        text::esc_free(format_bytes_view(bytes)),
{
    reveal_strlit(" B");
    reveal_strlit(" KB");
    reveal_strlit(" MB");
    reveal_strlit(" GB");
    let k = unit_index_of(bytes);
    assert(text::esc_free(unit_suffix(k)));
    if k == 0 {
        text::lemma_dec_rep_esc_free(bytes);
        text::lemma_esc_free_concat(text::dec_rep(bytes), " B"@);
    } else {
        let t = rounded_div(bytes * 10, unit_divisor(k));
        text::lemma_tenths_rep_esc_free(t);
        text::lemma_esc_free_concat(text::tenths_rep(t), unit_suffix(k));
    }
}

/// A colored bar always carries the reset escape sequence, right after
/// its filled cells.
pub proof fn lemma_colored_bar_has_reset(current: nat, max: nat)
    ensures
        ({
            let b = bar_view(current, max, true);
            exists|j: int|
                0 <= j && j + 4 <= b.len() && #[trigger] b.subrange(j, j + 4) == reset_code()
        }),
{
    let b = bar_view(current, max, true);
    let filled = filled_cells(current, max);
    reveal_strlit("[");
    reveal_strlit("\u{1B}[32m");
    reveal_strlit("\u{1B}[33m");
    reveal_strlit("\u{1B}[31m");
    reveal_strlit("\u{1B}[0m");
    let j = 1 + color_code_view(bar_tier(current, max)).len() as int + filled as int;
    assert(b.subrange(j, j + 4) =~= reset_code());
    assert(0 <= j && j + 4 <= b.len() && b.subrange(j, j + 4) == reset_code());
}

} // verus!

