use vstd::prelude::*;

verus! {

use crate::style::AnsiColor;
use crate::text::all_dec_digits;
use crate::text::all_upper_hex_digits;
use crate::text::dec_val;
use crate::text::hex_digit_val;
use crate::text::hex_val;
use crate::text::is_dec_digit;
use crate::text::is_hex_digit;
use crate::text::parse_u32_dec;
use crate::text::push_char;
use crate::text::remove_last_char;
use crate::text::spec_upper_hex;
use crate::text::upper_hex;
use vstd::arithmetic::div_mod::lemma_fundamental_div_mod;
use vstd::arithmetic::div_mod::lemma_fundamental_div_mod_converse;
use vstd::arithmetic::mul::lemma_mul_inequality;
use vstd::string::StrSliceExecFns;

/// The three sub-modes of the picker: the sixteen ANSI colors, the
/// 256-color palette, and free RGB entry.
#[derive(Debug, Clone, Copy, PartialEq, Eq, Structural)]
pub enum ColorPickerMode {
    Basic16,
    Extended256,
    RgbInput,
}

/// The field under edit in the RGB entry sub-mode.
#[derive(Debug, Clone, Copy, PartialEq, Eq, Structural)]
pub enum RgbField {
    Red,
    Green,
    Blue,
    Hex,
}

/// The text of the four RGB entry fields and which of them is under edit.
#[derive(Debug)]
pub struct RgbInput {
    pub r: String,
    pub g: String,
    pub b: String,
    pub hex: String,
    pub editing_field: RgbField,
}

/// Well-formed entry state: the numeric fields hold at most three decimal
/// digits each, the hex field at most six uppercase hexadecimal digits.
pub open spec fn spec_rgb_input_wf(i: RgbInput) -> bool {
    &&& all_dec_digits(i.r@) && i.r@.len() <= 3
    &&& all_dec_digits(i.g@) && i.g@.len() <= 3
    &&& all_dec_digits(i.b@) && i.b@.len() <= 3
    &&& all_upper_hex_digits(i.hex@) && i.hex@.len() <= 6
}

pub open spec fn spec_rgb_input_empty(i: RgbInput) -> bool {
    &&& i.r@.len() == 0
    &&& i.g@.len() == 0
    &&& i.b@.len() == 0
    &&& i.hex@.len() == 0
    &&& i.editing_field == RgbField::Red
}

impl Default for RgbInput {
    fn default() -> (r: Self)
        ensures
            spec_rgb_input_empty(r),
            spec_rgb_input_wf(r),
    {
        RgbInput {
            r: String::new(),
            g: String::new(),
            b: String::new(),
            hex: String::new(),
            editing_field: RgbField::Red,
        }
    }
}

impl Clone for RgbInput {
    fn clone(&self) -> (r: Self)
        ensures
            r.r@ == self.r@,
            r.g@ == self.g@,
            r.b@ == self.b@,
            r.hex@ == self.hex@,
            r.editing_field == self.editing_field,
    {
        RgbInput {
            r: self.r.clone(),
            g: self.g.clone(),
            b: self.b.clone(),
            hex: self.hex.clone(),
            editing_field: self.editing_field,
        }
    }
}

/// Which of a segment's three colors the picker is editing.
#[derive(Debug, Clone, Copy, PartialEq, Eq, Structural)]
pub enum ColorTarget {
    IconColor,
    TextColor,
    BackgroundColor,
}

/// The value of a numeric entry field: its decimal value when it holds at
/// least one digit and the value fits a byte.
pub open spec fn spec_u8_val(s: Seq<char>) -> Option<u8> {
    if s.len() > 0 && all_dec_digits(s) && dec_val(s) <= 255 {
        Some(dec_val(s) as u8)
    } else {
        None
    }
}

/// The color the RGB entry state stands for: six hex digits win; otherwise
/// three valid numeric fields; otherwise the color that was already
/// current.
pub open spec fn spec_rgb_color_update(inp: RgbInput, cur: Option<AnsiColor>) -> Option<
    AnsiColor,
> {
    if inp.hex@.len() == 6 {
        Some(
            AnsiColor::Rgb {
                r: (hex_val(inp.hex@[0]) * 16 + hex_val(inp.hex@[1])) as u8,
                g: (hex_val(inp.hex@[2]) * 16 + hex_val(inp.hex@[3])) as u8,
                b: (hex_val(inp.hex@[4]) * 16 + hex_val(inp.hex@[5])) as u8,
            },
        )
    } else if spec_u8_val(inp.r@) is Some && spec_u8_val(inp.g@) is Some && spec_u8_val(inp.b@)
        is Some {
        Some(
            AnsiColor::Rgb {
                r: spec_u8_val(inp.r@)->0,
                g: spec_u8_val(inp.g@)->0,
                b: spec_u8_val(inp.b@)->0,
            },
        )
    } else {
        cur
    }
}

/// The entry field reached by one horizontal move, in the fixed cycle
/// R, G, B, Hex.
pub open spec fn spec_next_field(f: RgbField, right: bool) -> RgbField {
    if right {
        match f {
            RgbField::Red => RgbField::Green,
            RgbField::Green => RgbField::Blue,
            RgbField::Blue => RgbField::Hex,
            RgbField::Hex => RgbField::Red,
        }
    } else {
        match f {
            RgbField::Red => RgbField::Hex,
            RgbField::Green => RgbField::Red,
            RgbField::Blue => RgbField::Green,
            RgbField::Hex => RgbField::Blue,
        }
    }
}

/// The cell to the right on a cyclic strip of `n` cells.
pub open spec fn spec_wrap_right(i: nat, n: nat) -> nat {
    if i + 1 < n {
        i + 1
    } else {
        0
    }
}

/// The cell to the left on a cyclic strip of `n` cells.
pub open spec fn spec_wrap_left(i: nat, n: nat) -> nat {
    if i > 0 {
        (i - 1) as nat
    } else {
        (n - 1) as nat
    }
}

/// The cell reached after `k` moves to the right.
pub open spec fn spec_iter_wrap_right(i: nat, n: nat, k: nat) -> nat
    decreases k,
{
    if k == 0 {
        i
    } else {
        spec_wrap_right(spec_iter_wrap_right(i, n, (k - 1) as nat), n)
    }
}

proof fn lemma_iter_wrap_right_mod(i: nat, n: nat, k: nat)
    requires
        n >= 1,
        i < n,
    ensures
        spec_iter_wrap_right(i, n, k) == ((i + k) as int) % (n as int),
    decreases k,
{
    if k == 0 {
        lemma_fundamental_div_mod_converse(i as int, n as int, 0, i as int);
    } else {
        lemma_iter_wrap_right_mod(i, n, (k - 1) as nat);
        let j = spec_iter_wrap_right(i, n, (k - 1) as nat);
        lemma_fundamental_div_mod(i + k - 1, n as int);
        let t = (i + k - 1) / (n as int);
        assert(i + k - 1 == (n as int) * t + j);
        if j + 1 < n {
            lemma_fundamental_div_mod_converse((i + k) as int, n as int, t, (j + 1) as int);
        } else {
            assert((i + k) as int == (t + 1) * (n as int) + 0) by (nonlinear_arith)
                requires
                    i + k - 1 == (n as int) * t + j,
                    j + 1 == n,
            ;
            lemma_fundamental_div_mod_converse((i + k) as int, n as int, t + 1, 0);
        }
    }
}

/// Grid navigation comes back around: on a palette of `n` colors, `n`
/// moves to the right return to the starting cell, from any starting cell.
pub proof fn lemma_horizontal_cycle(i: nat, n: nat)
    requires
        n >= 1,
        i < n,
    ensures
        spec_iter_wrap_right(i, n, n) == i,
{
    lemma_iter_wrap_right_mod(i, n, n);
    lemma_fundamental_div_mod_converse((i + n) as int, n as int, 1, i as int);
}

/// The cell reached by one vertical move on a grid of `n` cells laid out
/// in rows of `cols`: the row above or below, clamped at the first and
/// last row, keeping the column, the result clamped into the palette.
pub open spec fn spec_row_step(i: int, cols: int, n: int, down: bool) -> int {
    let row = i / cols;
    let col = i % cols;
    let total = (n + cols - 1) / cols;
    let nr = if down {
        if row + 1 < total {
            row + 1
        } else {
            row
        }
    } else {
        if row > 0 {
            row - 1
        } else {
            row
        }
    };
    let cand = nr * cols + col;
    if cand < n - 1 {
        cand
    } else {
        n - 1
    }
}

/// A vertical move never leaves the palette: the result stays between zero
/// and the palette size.
pub proof fn lemma_vertical_in_bounds(i: int, cols: int, n: int, down: bool)
    requires
        0 <= i < n,
        cols >= 1,
    ensures
        0 <= spec_row_step(i, cols, n, down) < n,
{
    let row = i / cols;
    let col = i % cols;
    lemma_fundamental_div_mod(i, cols);
    assert(row >= 0) by (nonlinear_arith)
        requires
            i == cols * row + col,
            0 <= col < cols,
            i >= 0,
    ;
    let total = (n + cols - 1) / cols;
    let nr = if down {
        if row + 1 < total {
            row + 1
        } else {
            row
        }
    } else {
        if row > 0 {
            row - 1
        } else {
            row
        }
    };
    assert(nr >= 0);
    assert(nr * cols >= 0) by (nonlinear_arith)
        requires
            nr >= 0,
            cols >= 1,
    ;
}

/// One vertical grid step, executable form.
fn grid_step_vertical(sel: usize, cols: usize, n: usize, down: bool) -> (r: usize)
    requires
        1 <= cols,
        sel < n,
        1 <= n <= 256,
    ensures
        r as int == spec_row_step(sel as int, cols as int, n as int, down),
        r < n,
{
    proof {
        lemma_vertical_in_bounds(sel as int, cols as int, n as int, down);
    }
    let row = sel / cols;
    let col = sel % cols;
    proof {
        lemma_fundamental_div_mod(sel as int, cols as int);
        assert(row <= sel) by (nonlinear_arith)
            requires
                sel as int == (cols as int) * (row as int) + (col as int),
                0 <= col < cols,
                row >= 0,
                cols >= 1,
        ;
        assert(col <= sel || col < cols);
        if cols > sel {
            lemma_fundamental_div_mod_converse(sel as int, cols as int, 0, sel as int);
        }
        assert(col < n || col < cols);
    }
    let total_rows: usize = if cols > n {
        proof {
            lemma_fundamental_div_mod_converse(
                n as int + cols as int - 1,
                cols as int,
                1,
                n as int - 1,
            );
        }
        1
    } else {
        (n + cols - 1) / cols
    };
    let nr = if down {
        if row + 1 < total_rows {
            row + 1
        } else {
            row
        }
    } else {
        if row > 0 {
            row - 1
        } else {
            row
        }
    };
    proof {
        lemma_fundamental_div_mod(n as int + cols as int - 1, cols as int);
        let t = total_rows as int;
        let r2 = (n as int + cols as int - 1) % (cols as int);
        assert(n as int + cols as int - 1 == (cols as int) * t + r2);
        if nr > row {
            assert(cols <= n);
            assert(nr <= t - 1);
            lemma_mul_inequality(nr as int, t - 1, cols as int);
            assert((t - 1) * (cols as int) == (cols as int) * t - (cols as int))
                by (nonlinear_arith);
            assert((nr as int) * (cols as int) <= n as int - 1 - r2);
        } else {
            lemma_mul_inequality(nr as int, row as int, cols as int);
            assert((row as int) * (cols as int) == (cols as int) * (row as int))
                by (nonlinear_arith);
            assert((nr as int) * (cols as int) + (col as int) <= sel as int);
        }
        assert(nr * cols + col <= 2 * n);
    }
    let cand = nr * cols + col;
    if cand > n - 1 {
        n - 1
    } else {
        cand
    }
}

/// The interactive color picker: a grid selection over the basic and
/// extended palettes and a free RGB entry form, tracking the currently
/// picked color.
#[derive(Debug)]
pub struct ColorPicker {
    pub is_open: bool,
    pub mode: ColorPickerMode,
    pub selected_basic: usize,
    pub selected_extended: usize,
    pub rgb_input: RgbInput,
    pub current_color: Option<AnsiColor>,
    pub target_field: ColorTarget,
    pub cached_basic_cols: usize,
    pub cached_extended_cols: usize,
}

impl ColorPicker {
    /// Well-formed picker state: the selections lie inside their palettes,
    /// the cached column counts are at least one, and the entry fields are
    /// well formed.
    pub open spec fn wf(self) -> bool {
        &&& self.selected_basic < 16
        &&& self.selected_extended < 256
        &&& self.cached_basic_cols >= 1
        &&& self.cached_extended_cols >= 1
        &&& spec_rgb_input_wf(self.rgb_input)
    }
}

impl Default for ColorPicker {
    fn default() -> (r: Self)
        ensures
            r.wf(),
            !r.is_open,
            r.mode == ColorPickerMode::Basic16,
            r.selected_basic == 0,
            r.selected_extended == 0,
            spec_rgb_input_empty(r.rgb_input),
            r.current_color is None,
            r.target_field == ColorTarget::IconColor,
            r.cached_basic_cols == 8,
            r.cached_extended_cols == 8,
    {
        ColorPicker {
            is_open: false,
            mode: ColorPickerMode::Basic16,
            selected_basic: 0,
            selected_extended: 0,
            rgb_input: RgbInput::default(),
            current_color: None,
            target_field: ColorTarget::IconColor,
            cached_basic_cols: 8,
            cached_extended_cols: 8,
        }
    }
}

impl ColorPicker {
    /// Opens the picker on a target color slot: the sub-mode and the grid
    /// selections reset, the entry fields clear, and the given color
    /// becomes current.
    pub fn open(&mut self, target: ColorTarget, current: Option<AnsiColor>)
        requires
            old(self).wf(),
        ensures
            final(self).wf(),
            final(self).is_open,
            final(self).target_field == target,
            final(self).mode == ColorPickerMode::Basic16,
            final(self).selected_basic == 0,
            final(self).selected_extended == 0,
            spec_rgb_input_empty(final(self).rgb_input),
            final(self).current_color == current,
            final(self).cached_basic_cols == old(self).cached_basic_cols,
            final(self).cached_extended_cols == old(self).cached_extended_cols,
    {
        self.is_open = true;
        self.target_field = target;
        self.mode = ColorPickerMode::Basic16;
        self.selected_basic = 0;
        self.selected_extended = 0;
        self.rgb_input = RgbInput::default();
        self.current_color = current;
    }

    /// Closes the picker; its other state stays as it is.
    pub fn close(&mut self)
        requires
            old(self).wf(),
        ensures
            final(self).wf(),
            !final(self).is_open,
            *final(self) == (ColorPicker { is_open: false, ..*old(self) }),
    {
        self.is_open = false;
    }

    /// Rotates to the next sub-mode in the fixed cycle basic, extended,
    /// RGB entry.
    pub fn cycle_mode(&mut self)
        requires
            old(self).wf(),
        ensures
            final(self).wf(),
            final(self).mode == match old(self).mode {
                ColorPickerMode::Basic16 => ColorPickerMode::Extended256,
                ColorPickerMode::Extended256 => ColorPickerMode::RgbInput,
                ColorPickerMode::RgbInput => ColorPickerMode::Basic16,
            },
            *final(self) == (ColorPicker { mode: final(self).mode, ..*old(self) }),
    {
        self.mode = match self.mode {
            ColorPickerMode::Basic16 => ColorPickerMode::Extended256,
            ColorPickerMode::Extended256 => ColorPickerMode::RgbInput,
            ColorPickerMode::RgbInput => ColorPickerMode::Basic16,
        };
    }

    /// One horizontal move: in a grid sub-mode the selection wraps around
    /// the strip and the color at the new cell becomes current; in RGB
    /// entry the edited field rotates. A positive delta moves right,
    /// any other delta left.
    pub fn move_horizontal(&mut self, delta: i32)
        requires
            old(self).wf(),
        ensures
            final(self).wf(),
            final(self).mode == old(self).mode,
            final(self).is_open == old(self).is_open,
            final(self).target_field == old(self).target_field,
            final(self).cached_basic_cols == old(self).cached_basic_cols,
            final(self).cached_extended_cols == old(self).cached_extended_cols,
            old(self).mode == ColorPickerMode::Basic16 ==> {
                &&& final(self).selected_basic == (if delta > 0 {
                    spec_wrap_right(old(self).selected_basic as nat, 16)
                } else {
                    spec_wrap_left(old(self).selected_basic as nat, 16)
                })
                &&& final(self).current_color == Some(
                    AnsiColor::Color16 { c16: final(self).selected_basic as u8 },
                )
                &&& final(self).selected_extended == old(self).selected_extended
                &&& final(self).rgb_input == old(self).rgb_input
            },
            old(self).mode == ColorPickerMode::Extended256 ==> {
                &&& final(self).selected_extended == (if delta > 0 {
                    spec_wrap_right(old(self).selected_extended as nat, 256)
                } else {
                    spec_wrap_left(old(self).selected_extended as nat, 256)
                })
                &&& final(self).current_color == Some(
                    AnsiColor::Color256 { c256: final(self).selected_extended as u8 },
                )
                &&& final(self).selected_basic == old(self).selected_basic
                &&& final(self).rgb_input == old(self).rgb_input
            },
            old(self).mode == ColorPickerMode::RgbInput ==> {
                &&& final(self).rgb_input.editing_field == spec_next_field(
                    old(self).rgb_input.editing_field,
                    delta > 0,
                )
                &&& final(self).rgb_input.r == old(self).rgb_input.r
                &&& final(self).rgb_input.g == old(self).rgb_input.g
                &&& final(self).rgb_input.b == old(self).rgb_input.b
                &&& final(self).rgb_input.hex == old(self).rgb_input.hex
                &&& final(self).current_color == old(self).current_color
                &&& final(self).selected_basic == old(self).selected_basic
                &&& final(self).selected_extended == old(self).selected_extended
            },
    {
        match self.mode {
            ColorPickerMode::Basic16 => {
                let current = self.selected_basic;
                let new_selection = if delta > 0 {
                    if current < 15 {
                        current + 1
                    } else {
                        0
                    }
                } else if current > 0 {
                    current - 1
                } else {
                    15
                };
                self.selected_basic = new_selection;
                self.current_color = Some(AnsiColor::c16(self.selected_basic as u8));
            },
            ColorPickerMode::Extended256 => {
                let current = self.selected_extended;
                let new_selection = if delta > 0 {
                    if current < 255 {
                        current + 1
                    } else {
                        0
                    }
                } else if current > 0 {
                    current - 1
                } else {
                    255
                };
                self.selected_extended = new_selection;
                self.current_color = Some(AnsiColor::c256(self.selected_extended as u8));
            },
            ColorPickerMode::RgbInput => {
                self.rgb_input.editing_field = match (self.rgb_input.editing_field, delta > 0) {
                    (RgbField::Red, true) => RgbField::Green,
                    (RgbField::Green, true) => RgbField::Blue,
                    (RgbField::Blue, true) => RgbField::Hex,
                    (RgbField::Hex, true) => RgbField::Red,
                    (RgbField::Red, false) => RgbField::Hex,
                    (RgbField::Green, false) => RgbField::Red,
                    (RgbField::Blue, false) => RgbField::Green,
                    (RgbField::Hex, false) => RgbField::Blue,
                };
            },
        }
    }

    /// One vertical move: in a grid sub-mode the selection steps one row,
    /// clamped at the first and last row, and the color at the new cell
    /// becomes current; RGB entry ignores it. A positive delta moves
    /// down, any other delta up.
    pub fn move_vertical(&mut self, delta: i32)
        requires
            old(self).wf(),
        ensures
            final(self).wf(),
            final(self).mode == old(self).mode,
            final(self).is_open == old(self).is_open,
            final(self).target_field == old(self).target_field,
            final(self).cached_basic_cols == old(self).cached_basic_cols,
            final(self).cached_extended_cols == old(self).cached_extended_cols,
            old(self).mode == ColorPickerMode::Basic16 ==> {
                &&& final(self).selected_basic as int == spec_row_step(
                    old(self).selected_basic as int,
                    old(self).cached_basic_cols as int,
                    16,
                    delta > 0,
                )
                &&& final(self).current_color == Some(
                    AnsiColor::Color16 { c16: final(self).selected_basic as u8 },
                )
                &&& final(self).selected_extended == old(self).selected_extended
                &&& final(self).rgb_input == old(self).rgb_input
            },
            old(self).mode == ColorPickerMode::Extended256 ==> {
                &&& final(self).selected_extended as int == spec_row_step(
                    old(self).selected_extended as int,
                    old(self).cached_extended_cols as int,
                    256,
                    delta > 0,
                )
                &&& final(self).current_color == Some(
                    AnsiColor::Color256 { c256: final(self).selected_extended as u8 },
                )
                &&& final(self).selected_basic == old(self).selected_basic
                &&& final(self).rgb_input == old(self).rgb_input
            },
            old(self).mode == ColorPickerMode::RgbInput ==> *final(self) == *old(self),
    {
        match self.mode {
            ColorPickerMode::Basic16 => {
                let new_selection = grid_step_vertical(
                    self.selected_basic,
                    self.cached_basic_cols,
                    16,
                    delta > 0,
                );
                self.selected_basic = new_selection;
                self.current_color = Some(AnsiColor::c16(self.selected_basic as u8));
            },
            ColorPickerMode::Extended256 => {
                let new_selection = grid_step_vertical(
                    self.selected_extended,
                    self.cached_extended_cols,
                    256,
                    delta > 0,
                );
                self.selected_extended = new_selection;
                self.current_color = Some(AnsiColor::c256(self.selected_extended as u8));
            },
            ColorPickerMode::RgbInput => {},
        }
    }

    /// The number entered in a numeric field, when it holds one that fits
    /// a byte.
    fn parse_u8_field(s: &str) -> (r: Option<u8>)
        requires
            all_dec_digits(s@),
            s@.len() <= 3,
        ensures
            r == spec_u8_val(s@),
    {
        match parse_u32_dec(s) {
            Some(v) => {
                if v <= 255 {
                    Some(v as u8)
                } else {
                    None
                }
            },
            None => None,
        }
    }

    /// Recomputes the current color from the entry fields: six hex digits
    /// win; otherwise three valid numeric fields; otherwise the current
    /// color stays.
    fn update_rgb_color(&mut self)
        requires
            old(self).wf(),
        ensures
            final(self).wf(),
            final(self).current_color == spec_rgb_color_update(
                old(self).rgb_input,
                old(self).current_color,
            ),
            final(self).rgb_input == old(self).rgb_input,
            final(self).mode == old(self).mode,
            final(self).is_open == old(self).is_open,
            final(self).selected_basic == old(self).selected_basic,
            final(self).selected_extended == old(self).selected_extended,
            final(self).target_field == old(self).target_field,
            final(self).cached_basic_cols == old(self).cached_basic_cols,
            final(self).cached_extended_cols == old(self).cached_extended_cols,
    {
        let hex_len = self.rgb_input.hex.as_str().unicode_len();
        if hex_len == 6 {
            let h = self.rgb_input.hex.as_str();
            let r = hex_digit_val(h.get_char(0)) * 16 + hex_digit_val(h.get_char(1));
            let g = hex_digit_val(h.get_char(2)) * 16 + hex_digit_val(h.get_char(3));
            let b = hex_digit_val(h.get_char(4)) * 16 + hex_digit_val(h.get_char(5));
            self.current_color = Some(AnsiColor::rgb(r, g, b));
            return ;
        }
        let pr = Self::parse_u8_field(self.rgb_input.r.as_str());
        let pg = Self::parse_u8_field(self.rgb_input.g.as_str());
        let pb = Self::parse_u8_field(self.rgb_input.b.as_str());
        match (pr, pg, pb) {
            (Some(r), Some(g), Some(b)) => {
                self.current_color = Some(AnsiColor::rgb(r, g, b));
            },
            _ => {},
        }
    }

    /// One typed character in RGB entry: a decimal digit extends a numeric
    /// field below three digits, a hexadecimal digit extends the hex field
    /// below six digits as its uppercase form, anything else is dropped;
    /// then the current color is recomputed. Outside RGB entry nothing
    /// changes.
    pub fn input_char(&mut self, c: char)
        requires
            old(self).wf(),
        ensures
            final(self).wf(),
            final(self).selected_basic == old(self).selected_basic,
            final(self).selected_extended == old(self).selected_extended,
            final(self).target_field == old(self).target_field,
            final(self).cached_basic_cols == old(self).cached_basic_cols,
            final(self).cached_extended_cols == old(self).cached_extended_cols,
            old(self).mode != ColorPickerMode::RgbInput ==> *final(self) == *old(self),
            old(self).mode == ColorPickerMode::RgbInput ==> {
                let inp = old(self).rgb_input;
                let new_inp = final(self).rgb_input;
                &&& new_inp.editing_field == inp.editing_field
                &&& new_inp.r@ == (if inp.editing_field == RgbField::Red && inp.r@.len() < 3
                    && is_dec_digit(c) {
                    inp.r@.push(c)
                } else {
                    inp.r@
                })
                &&& new_inp.g@ == (if inp.editing_field == RgbField::Green && inp.g@.len() < 3
                    && is_dec_digit(c) {
                    inp.g@.push(c)
                } else {
                    inp.g@
                })
                &&& new_inp.b@ == (if inp.editing_field == RgbField::Blue && inp.b@.len() < 3
                    && is_dec_digit(c) {
                    inp.b@.push(c)
                } else {
                    inp.b@
                })
                &&& new_inp.hex@ == (if inp.editing_field == RgbField::Hex && inp.hex@.len() < 6
                    && is_hex_digit(c) {
                    inp.hex@.push(spec_upper_hex(c))
                } else {
                    inp.hex@
                })
                &&& final(self).current_color == spec_rgb_color_update(
                    new_inp,
                    old(self).current_color,
                )
                &&& final(self).mode == old(self).mode
                &&& final(self).is_open == old(self).is_open
            },
    {
        if !matches!(self.mode, ColorPickerMode::RgbInput) {
            return ;
        }
        match self.rgb_input.editing_field {
            RgbField::Red => {
                if self.rgb_input.r.as_str().unicode_len() < 3 && c >= '0' && c <= '9' {
                    push_char(&mut self.rgb_input.r, c);
                }
            },
            RgbField::Green => {
                if self.rgb_input.g.as_str().unicode_len() < 3 && c >= '0' && c <= '9' {
                    push_char(&mut self.rgb_input.g, c);
                }
            },
            RgbField::Blue => {
                if self.rgb_input.b.as_str().unicode_len() < 3 && c >= '0' && c <= '9' {
                    push_char(&mut self.rgb_input.b, c);
                }
            },
            RgbField::Hex => {
                let is_hex = (c >= '0' && c <= '9') || (c >= 'a' && c <= 'f') || (c >= 'A' && c
                    <= 'F');
                if self.rgb_input.hex.as_str().unicode_len() < 6 && is_hex {
                    push_char(&mut self.rgb_input.hex, upper_hex(c));
                }
            },
        }
        self.update_rgb_color();
    }

    /// One erased character in RGB entry: the edited field loses its last
    /// character, and the current color is recomputed. Outside RGB entry
    /// nothing changes.
    pub fn backspace(&mut self)
        requires
            old(self).wf(),
        ensures
            final(self).wf(),
            final(self).selected_basic == old(self).selected_basic,
            final(self).selected_extended == old(self).selected_extended,
            final(self).target_field == old(self).target_field,
            final(self).cached_basic_cols == old(self).cached_basic_cols,
            final(self).cached_extended_cols == old(self).cached_extended_cols,
            old(self).mode != ColorPickerMode::RgbInput ==> *final(self) == *old(self),
            old(self).mode == ColorPickerMode::RgbInput ==> {
                let inp = old(self).rgb_input;
                let new_inp = final(self).rgb_input;
                &&& new_inp.editing_field == inp.editing_field
                &&& new_inp.r@ == (if inp.editing_field == RgbField::Red && inp.r@.len() > 0 {
                    inp.r@.drop_last()
                } else {
                    inp.r@
                })
                &&& new_inp.g@ == (if inp.editing_field == RgbField::Green && inp.g@.len() > 0 {
                    inp.g@.drop_last()
                } else {
                    inp.g@
                })
                &&& new_inp.b@ == (if inp.editing_field == RgbField::Blue && inp.b@.len() > 0 {
                    inp.b@.drop_last()
                } else {
                    inp.b@
                })
                &&& new_inp.hex@ == (if inp.editing_field == RgbField::Hex && inp.hex@.len() > 0 {
                    inp.hex@.drop_last()
                } else {
                    inp.hex@
                })
                &&& final(self).current_color == spec_rgb_color_update(
                    new_inp,
                    old(self).current_color,
                )
                &&& final(self).mode == old(self).mode
                &&& final(self).is_open == old(self).is_open
            },
    {
        if !matches!(self.mode, ColorPickerMode::RgbInput) {
            return ;
        }
        match self.rgb_input.editing_field {
            RgbField::Red => {
                self.rgb_input.r = remove_last_char(self.rgb_input.r.as_str());
            },
            RgbField::Green => {
                self.rgb_input.g = remove_last_char(self.rgb_input.g.as_str());
            },
            RgbField::Blue => {
                self.rgb_input.b = remove_last_char(self.rgb_input.b.as_str());
            },
            RgbField::Hex => {
                self.rgb_input.hex = remove_last_char(self.rgb_input.hex.as_str());
            },
        }
        self.update_rgb_color();
    }

    /// The color the picker currently stands on.
    pub fn get_selected_color(&self) -> (r: Option<AnsiColor>)
        ensures
            r == self.current_color,
    {
        self.current_color
    }
}

/// The name of one of the sixteen standard ANSI colors.
pub open spec fn spec_color_name(ansi: int) -> Seq<char> {
    if ansi == 0 {
        "Black"@
    } else if ansi == 1 {
        "Red"@
    } else if ansi == 2 {
        "Green"@
    } else if ansi == 3 {
        "Yellow"@
    } else if ansi == 4 {
        "Blue"@
    } else if ansi == 5 {
        "Magenta"@
    } else if ansi == 6 {
        "Cyan"@
    } else if ansi == 7 {
        "White"@
    } else if ansi == 8 {
        "DarkGray"@
    } else if ansi == 9 {
        "LightRed"@
    } else if ansi == 10 {
        "LightGreen"@
    } else if ansi == 11 {
        "LightYellow"@
    } else if ansi == 12 {
        "LightBlue"@
    } else if ansi == 13 {
        "LightMagenta"@
    } else if ansi == 14 {
        "LightCyan"@
    } else if ansi == 15 {
        "Gray"@
    } else {
        "Unknown"@
    }
}

/// The display name of a sixteen-color code; codes above fifteen are
/// unknown.
pub fn get_color_name(ansi: u8) -> (r: &'static str)
    ensures
        r@ == spec_color_name(ansi as int),
{
    match ansi {
        0 => "Black",
        1 => "Red",
        2 => "Green",
        3 => "Yellow",
        4 => "Blue",
        5 => "Magenta",
        6 => "Cyan",
        7 => "White",
        8 => "DarkGray",
        9 => "LightRed",
        10 => "LightGreen",
        11 => "LightYellow",
        12 => "LightBlue",
        13 => "LightMagenta",
        14 => "LightCyan",
        15 => "Gray",
        _ => "Unknown",
    }
}

} // verus!
