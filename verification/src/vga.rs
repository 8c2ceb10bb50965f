//! Text-mode display driver logic for a fixed 80x25 character grid.
//!
//! Terminal-style coordinates: logical row 0 is the bottom visible row,
//! where new text appears; on newline or column overflow the whole grid
//! shifts up one row, the top row is discarded, and the bottom row is
//! cleared — newest content anchored at the bottom. Each cell pairs an
//! ASCII code with a packed 4-bit background / 4-bit foreground color.
//! On hardware the grid lives at a fixed memory-mapped address and every
//! cell access is volatile; this module carries the grid as an owned,
//! bounds-checked buffer with the same cell-level semantics.
use vstd::prelude::*;

verus! {

pub const BUFFER_HEIGHT: usize = 25;

pub const BUFFER_WIDTH: usize = 80;

/// The 16-color palette of the display.
#[derive(Clone, Copy, PartialEq, Eq, Structural, Debug)]
pub enum Color {
    Black,
    Blue,
    Green,
    Cyan,
    Red,
    Magenta,
    Brown,
    LightGray,
    DarkGray,
    LightBlue,
    LightGreen,
    LightCyan,
    LightRed,
    Pink,
    Yellow,
    White,
}

/// The 4-bit palette index of each color.
pub open spec fn color_number(c: Color) -> u8 {
    match c {
        Color::Black => 0,
        Color::Blue => 1,
        Color::Green => 2,
        Color::Cyan => 3,
        Color::Red => 4,
        Color::Magenta => 5,
        Color::Brown => 6,
        Color::LightGray => 7,
        Color::DarkGray => 8,
        Color::LightBlue => 9,
        Color::LightGreen => 10,
        Color::LightCyan => 11,
        Color::LightRed => 12,
        Color::Pink => 13,
        Color::Yellow => 14,
        Color::White => 15,
    }
}

impl Color {
    /// The 4-bit palette index of this color.
    pub fn index(self) -> (n: u8)
        ensures
            n == color_number(self),
            n <= 15,
    {
        match self {
            Color::Black => 0,
            Color::Blue => 1,
            Color::Green => 2,
            Color::Cyan => 3,
            Color::Red => 4,
            Color::Magenta => 5,
            Color::Brown => 6,
            Color::LightGray => 7,
            Color::DarkGray => 8,
            Color::LightBlue => 9,
            Color::LightGreen => 10,
            Color::LightCyan => 11,
            Color::LightRed => 12,
            Color::Pink => 13,
            Color::Yellow => 14,
            Color::White => 15,
        }
    }
}

/// A packed cell attribute: background palette index in the high four
/// bits, foreground in the low four.
#[derive(Clone, Copy, PartialEq, Eq, Structural, Debug)]
pub struct ColorCode(u8);

impl ColorCode {
    /// The packed byte value of the attribute.
    pub closed spec fn packed(&self) -> u8 {
        self.0
    }

    /// Packs a foreground and a background color into one attribute byte.
    pub fn new(foreground: Color, background: Color) -> (c: ColorCode)
        ensures
            c.packed() == color_number(background) * 16 + color_number(foreground),
    {
        let fg = foreground.index();
        let bg = background.index();
        proof {
            assert((bg << 4) | fg == bg * 16 + fg) by (bit_vector)
                requires
                    bg <= 15,
                    fg <= 15,
            ;
        }
        ColorCode((bg << 4) | fg)
    }

    /// The packed byte value, for inspection.
    pub fn value(&self) -> (v: u8)
        ensures
            v == self.packed(),
    {
        self.0
    }
}

/// Attributes with equal packed bytes are the same attribute.
pub proof fn lemma_color_code_determined(a: ColorCode, b: ColorCode)
    requires
        a.packed() == b.packed(),
    ensures
        a == b,
{
}

/// One cell of the grid: an ASCII code and its attribute.
#[derive(Clone, Copy, PartialEq, Eq, Structural, Debug)]
pub struct ScreenChar {
    pub character: u8,
    pub color: ColorCode,
}

/// Abstract display state: the cursor column, the current attribute, and
/// the grid in logical coordinates — `rows[0]` is the bottom visible row.
pub struct ScreenState {
    pub col: int,
    pub attr: ColorCode,
    pub rows: Seq<Seq<ScreenChar>>,
}

/// The shape every reachable display state has: a full 25-row by
/// 80-column grid with the cursor inside or just past the last column.
pub open spec fn screen_wf(s: ScreenState) -> bool {
    &&& 0 <= s.col <= BUFFER_WIDTH
    &&& s.rows.len() == BUFFER_HEIGHT
    &&& forall|r: int| 0 <= r < s.rows.len() ==> (#[trigger] s.rows[r]).len() == BUFFER_WIDTH
}

/// A space in the given attribute.
pub open spec fn blank_cell(attr: ColorCode) -> ScreenChar {
    ScreenChar { character: 32u8, color: attr }
}

/// A full row of spaces in the given attribute.
pub open spec fn blank_row(attr: ColorCode) -> Seq<ScreenChar> {
    Seq::new(BUFFER_WIDTH as nat, |c: int| blank_cell(attr))
}

/// One cell replaced; cursor and attribute unchanged.
pub open spec fn spec_set_cell(s: ScreenState, row: int, col: int, ch: ScreenChar) -> ScreenState {
    ScreenState { rows: s.rows.update(row, s.rows[row].update(col, ch)), ..s }
}

/// The bottom row blanked from column `from` rightward, in the current
/// attribute; cursor and attribute unchanged.
pub open spec fn spec_clear_from(s: ScreenState, from: int) -> ScreenState {
    ScreenState {
        rows: s.rows.update(
            0,
            Seq::new(
                BUFFER_WIDTH as nat,
                |c: int|
                    if c >= from {
                        blank_cell(s.attr)
                    } else {
                        s.rows[0][c]
                    },
            ),
        ),
        ..s
    }
}

/// Scroll one line: every row moves up, the top row is discarded, a fresh
/// blank bottom row appears in the current attribute, and the cursor
/// returns to the left edge.
pub open spec fn spec_new_line(s: ScreenState) -> ScreenState {
    ScreenState {
        col: 0,
        attr: s.attr,
        rows: Seq::new(
            s.rows.len(),
            |r: int|
                if r == 0 {
                    blank_row(s.attr)
                } else {
                    s.rows[r - 1]
                },
        ),
    }
}

/// One byte written at the cursor: a full line wraps (scrolls) first; a
/// newline scrolls; any other byte lands at the cursor in the current
/// attribute and advances it.
pub open spec fn spec_write_byte(s: ScreenState, b: u8) -> ScreenState {
    let s1 = if s.col >= BUFFER_WIDTH {
        spec_new_line(s)
    } else {
        s
    };
    if b == 10 {
        spec_new_line(s1)
    } else {
        ScreenState {
            col: s1.col + 1,
            ..spec_set_cell(s1, 0, s1.col, ScreenChar { character: b, color: s1.attr })
        }
    }
}

/// A character as the display stores it: the ASCII code itself, or the
/// fixed placeholder glyph 0xFE for anything non-ASCII.
pub open spec fn encode_char(c: char) -> u8 {
    if (c as u32) < 128 {
        (c as u32) as u8
    } else {
        254u8
    }
}

/// A whole character sequence written through `spec_write_byte`.
pub open spec fn spec_write_chars(s: ScreenState, cs: Seq<char>) -> ScreenState
    decreases cs.len(),
{
    if cs.len() == 0 {
        s
    } else {
        spec_write_chars(spec_write_byte(s, encode_char(cs[0])), cs.drop_first())
    }
}

/// Display driver state: cursor column, current attribute, and the
/// bounds-checked character grid (physical row-major, top row first).
pub struct VgaScreen {
    column: usize,
    color_code: ColorCode,
    buffer: Vec<ScreenChar>,
}

impl View for VgaScreen {
    type V = ScreenState;

    /// The abstract state, with the grid flipped into logical (bottom-up)
    /// row order.
    closed spec fn view(&self) -> ScreenState {
        ScreenState {
            col: self.column as int,
            attr: self.color_code,
            rows: Seq::new(
                BUFFER_HEIGHT as nat,
                |r: int|
                    Seq::new(
                        BUFFER_WIDTH as nat,
                        |c: int| self.buffer@[(BUFFER_HEIGHT - 1 - r) * BUFFER_WIDTH + c],
                    ),
            ),
        }
    }
}

impl VgaScreen {
    /// The backing buffer covers the whole grid and the cursor is in
    /// range.
    pub closed spec fn wf(&self) -> bool {
        &&& self.buffer@.len() == BUFFER_HEIGHT * BUFFER_WIDTH
        &&& self.column <= BUFFER_WIDTH
    }

    /// A well-formed screen has a well-formed abstract state.
    pub proof fn lemma_wf_view(&self)
        requires
            self.wf(),
        ensures
            screen_wf(self@),
    {
    }

    /// A fresh screen: cursor at the left edge of the bottom row, light
    /// gray on black, every cell a blank in that attribute.
    pub fn new() -> (s: VgaScreen)
        ensures
            s.wf(),
            s@.col == 0,
            s@.attr.packed() == color_number(Color::LightGray),
            s@.rows =~~= Seq::new(BUFFER_HEIGHT as nat, |r: int| blank_row(s@.attr)),
    {
        let color_code = ColorCode::new(Color::LightGray, Color::Black);
        let mut buffer: Vec<ScreenChar> = Vec::new();
        let mut i: usize = 0;
        while i < BUFFER_HEIGHT * BUFFER_WIDTH
            invariant
                i <= BUFFER_HEIGHT * BUFFER_WIDTH,
                buffer@.len() == i,
                forall|p: int| 0 <= p < i ==> buffer@[p] == blank_cell(color_code),
            decreases BUFFER_HEIGHT * BUFFER_WIDTH - i,
        {
            buffer.push(ScreenChar { character: 32u8, color: color_code });
            i = i + 1;
        }
        let s = VgaScreen { column: 0, color_code, buffer };
        proof {
            assert forall|r: int| 0 <= r < BUFFER_HEIGHT implies s@.rows[r] =~= blank_row(
                s@.attr,
            ) by {
                assert((BUFFER_HEIGHT - 1 - r) * BUFFER_WIDTH + BUFFER_WIDTH <= BUFFER_HEIGHT * BUFFER_WIDTH);
            }
        }
        s
    }

    /// Writes one cell at the given logical coordinates. An address
    /// outside the fixed grid is a fatal error and is excluded here;
    /// nothing is ever silently clamped.
    pub fn write(&mut self, byte: u8, color: ColorCode, row: usize, col: usize)
        requires
            old(self).wf(),
            row < BUFFER_HEIGHT,
            col < BUFFER_WIDTH,
        ensures
            final(self).wf(),
            final(self)@ == spec_set_cell(
                old(self)@,
                row as int,
                col as int,
                ScreenChar { character: byte, color },
            ),
    {
        let phys_row = BUFFER_HEIGHT - 1 - row;
        let idx = phys_row * BUFFER_WIDTH + col;
        self.buffer[idx] = ScreenChar { character: byte, color };
        proof {
            let target = spec_set_cell(
                old(self)@,
                row as int,
                col as int,
                ScreenChar { character: byte, color },
            );
            assert forall|r: int| 0 <= r < BUFFER_HEIGHT implies self@.rows[r] =~= target.rows[r] by {
                assert((BUFFER_HEIGHT - 1 - r) * BUFFER_WIDTH + BUFFER_WIDTH <= BUFFER_HEIGHT * BUFFER_WIDTH);
            }
            assert(self@.rows =~~= target.rows);
        }
    }

    /// Reads one cell at the given logical coordinates; out-of-grid
    /// addresses are excluded, exactly as for writes.
    pub fn read(&self, row: usize, col: usize) -> (ch: ScreenChar)
        requires
            self.wf(),
            row < BUFFER_HEIGHT,
            col < BUFFER_WIDTH,
        ensures
            ch == self@.rows[row as int][col as int],
    {
        let phys_row = BUFFER_HEIGHT - 1 - row;
        let idx = phys_row * BUFFER_WIDTH + col;
        self.buffer[idx]
    }

    /// Blanks the bottom row from the cursor to the right edge, in the
    /// current attribute.
    pub fn clear_line(&mut self)
        requires
            old(self).wf(),
        ensures
            final(self).wf(),
            final(self)@ == spec_clear_from(old(self)@, old(self)@.col),
    {
        let start = self.column;
        let mut col = start;
        while col < BUFFER_WIDTH
            invariant
                old(self).wf(),
                start == old(self).column,
                start <= col <= BUFFER_WIDTH,
                self.wf(),
                self@.col == old(self)@.col,
                self@.attr == old(self)@.attr,
                forall|r: int| 1 <= r < BUFFER_HEIGHT ==> self@.rows[r] =~= old(self)@.rows[r],
                forall|c: int|
                    0 <= c < BUFFER_WIDTH ==> self@.rows[0][c] == (if start <= c < col {
                        blank_cell(old(self)@.attr)
                    } else {
                        old(self)@.rows[0][c]
                    }),
            decreases BUFFER_WIDTH - col,
        {
            let attr = self.color_code;
            self.write(32u8, attr, 0, col);
            col = col + 1;
        }
        proof {
            assert(self@.rows =~~= spec_clear_from(old(self)@, old(self)@.col).rows);
        }
    }

    /// Scrolls the grid up one row: the top row is lost, the bottom row
    /// is cleared to the current attribute, and the cursor returns to the
    /// left edge.
    pub fn new_line(&mut self)
        requires
            old(self).wf(),
        ensures
            final(self).wf(),
            final(self)@ == spec_new_line(old(self)@),
    {
        let mut i: usize = 0;
        while i < (BUFFER_HEIGHT - 1) * BUFFER_WIDTH
            invariant
                old(self).wf(),
                i <= (BUFFER_HEIGHT - 1) * BUFFER_WIDTH,
                self.wf(),
                self.column == old(self).column,
                self.color_code == old(self).color_code,
                forall|p: int|
                    0 <= p < i ==> #[trigger] self.buffer_spec()[p] == old(self).buffer_spec()[p
                        + BUFFER_WIDTH],
                forall|p: int|
                    i <= p < BUFFER_HEIGHT * BUFFER_WIDTH ==> #[trigger] self.buffer_spec()[p]
                        == old(self).buffer_spec()[p],
            decreases (BUFFER_HEIGHT - 1) * BUFFER_WIDTH - i,
        {
            let ghost before = self.buffer_spec();
            let ch = self.buffer[i + BUFFER_WIDTH];
            self.buffer[i] = ch;
            proof {
                assert(self.buffer_spec() =~= before.update(i as int, ch));
                assert(ch == old(self).buffer_spec()[i + BUFFER_WIDTH]);
            }
            i = i + 1;
        }
        let ghost shifted = *self;
        self.column = 0;
        let ghost moved = *self;
        self.clear_line();
        proof {
            let target = spec_new_line(old(self)@);
            assert(self@ == spec_clear_from(moved@, 0));
            assert forall|r: int| 0 <= r < BUFFER_HEIGHT implies self@.rows[r] =~= target.rows[
                r
            ] by {
                if r == 0 {
                    assert forall|c: int| 0 <= c < BUFFER_WIDTH implies self@.rows[0][c]
                        == blank_cell(old(self)@.attr) by {}
                } else {
                    assert(self@.rows[r] == moved@.rows[r]);
                    assert forall|c: int| 0 <= c < BUFFER_WIDTH implies moved@.rows[r][c] == old(
                        self,
                    )@.rows[r - 1][c] by {
                        let p = (BUFFER_HEIGHT - 1 - r) * BUFFER_WIDTH + c;
                        assert(0 <= p < (BUFFER_HEIGHT - 1) * BUFFER_WIDTH);
                        assert(moved@.rows[r][c] == shifted.buffer_spec()[p]);
                        assert(shifted.buffer_spec()[p] == old(self).buffer_spec()[p
                            + BUFFER_WIDTH]);
                        assert(old(self)@.rows[r - 1][c] == old(self).buffer_spec()[(BUFFER_HEIGHT
                            - 1 - (r - 1)) * BUFFER_WIDTH + c]);
                        assert((BUFFER_HEIGHT - 1 - (r - 1)) * BUFFER_WIDTH + c == p
                            + BUFFER_WIDTH);
                    }
                }
            }
            assert(self@.rows =~~= target.rows);
        }
    }

    /// The raw buffer contents, for internal reasoning.
    closed spec fn buffer_spec(&self) -> Seq<ScreenChar> {
        self.buffer@
    }

    /// Writes one byte at the cursor: wraps a full line, scrolls on
    /// newline, and otherwise stores the byte in the current attribute
    /// and advances the cursor.
    pub fn write_byte(&mut self, byte: u8)
        requires
            old(self).wf(),
        ensures
            final(self).wf(),
            final(self)@ == spec_write_byte(old(self)@, byte),
    {
        if self.column >= BUFFER_WIDTH {
            self.new_line();
        }
        if byte == 10u8 {
            self.new_line();
        } else {
            let col = self.column;
            let attr = self.color_code;
            self.write(byte, attr, 0, col);
            self.column = col + 1;
        }
    }

    /// Writes a string: each ASCII character as itself, anything else as
    /// the placeholder glyph.
    pub fn write_str(&mut self, s: &str)
        requires
            old(self).wf(),
        ensures
            final(self).wf(),
            final(self)@ == spec_write_chars(old(self)@, s@),
    {
        let n = s.unicode_len();
        let mut i: usize = 0;
        while i < n
            invariant
                old(self).wf(),
                i <= n,
                n == s@.len(),
                self.wf(),
                self@ == spec_write_chars(old(self)@, s@.take(i as int)),
            decreases n - i,
        {
            let c = s.get_char(i);
            let u = c as u32;
            let b: u8 = if u < 128 {
                u as u8
            } else {
                254
            };
            proof {
                lemma_write_chars_push(old(self)@, s@.take(i as int), c);
                assert(s@.take(i as int).push(c) =~= s@.take(i + 1 as int));
                assert(b == encode_char(c));
            }
            self.write_byte(b);
            i = i + 1;
        }
        proof {
            assert(s@.take(n as int) =~= s@);
        }
    }
}

impl Default for VgaScreen {
    /// A fresh screen, exactly as `new` builds it.
    fn default() -> (s: Self)
        ensures
            s.wf(),
            s@.col == 0,
            s@.attr.packed() == color_number(Color::LightGray),
            s@.rows =~~= Seq::new(BUFFER_HEIGHT as nat, |r: int| blank_row(s@.attr)),
    {
        Self::new()
    }
}

/// Writing one more character is one more `spec_write_byte` step at the
/// end.
pub proof fn lemma_write_chars_push(s: ScreenState, cs: Seq<char>, c: char)
    ensures
        spec_write_chars(s, cs.push(c)) == spec_write_byte(spec_write_chars(s, cs), encode_char(c)),
    decreases cs.len(),
{
    reveal_with_fuel(spec_write_chars, 2);
    if cs.len() == 0 {
        assert(cs.push(c)[0] == c);
        assert(cs.push(c).drop_first() =~= Seq::<char>::empty());
        assert(spec_write_chars(s, cs.push(c)) == spec_write_chars(
            spec_write_byte(s, encode_char(c)),
            Seq::<char>::empty(),
        ));
    } else {
        let stepped = spec_write_byte(s, encode_char(cs[0]));
        lemma_write_chars_push(stepped, cs.drop_first(), c);
        assert(cs.push(c)[0] == cs[0]);
        assert(cs.push(c).drop_first() =~= cs.drop_first().push(c));
        assert(spec_write_chars(s, cs.push(c)) == spec_write_chars(
            stepped,
            cs.drop_first().push(c),
        ));
        assert(spec_write_chars(s, cs) == spec_write_chars(stepped, cs.drop_first()));
    }
}

/// Writing a concatenation is writing the parts one after the other.
pub proof fn lemma_write_chars_append(s: ScreenState, a: Seq<char>, b: Seq<char>)
    ensures
        spec_write_chars(s, a + b) == spec_write_chars(spec_write_chars(s, a), b),
    decreases a.len(),
{
    if a.len() == 0 {
        assert(a + b =~= b);
    } else {
        let stepped = spec_write_byte(s, encode_char(a[0]));
        lemma_write_chars_append(stepped, a.drop_first(), b);
        assert((a + b)[0] == a[0]);
        assert((a + b).drop_first() =~= a.drop_first() + b);
    }
}

/// A character the display stores as something other than a newline: it
/// neither scrolls nor wraps when there is room on the line.
pub open spec fn printable(c: char) -> bool {
    encode_char(c) != 10
}

/// Writing a newline-free text that fits on the remaining line fills the
/// cells at the cursor, advances the cursor by its length, and touches
/// nothing else.
pub proof fn lemma_write_ascii_segment(s: ScreenState, cs: Seq<char>)
    requires
        screen_wf(s),
        s.col + cs.len() <= BUFFER_WIDTH,
        forall|i: int| 0 <= i < cs.len() ==> printable(#[trigger] cs[i]),
    ensures
        ({
            let t = spec_write_chars(s, cs);
            &&& screen_wf(t)
            &&& t.col == s.col + cs.len()
            &&& t.attr == s.attr
            &&& forall|j: int|
                s.col <= j < s.col + cs.len() ==> t.rows[0][j] == ScreenChar {
                    character: encode_char(cs[j - s.col]),
                    color: s.attr,
                }
            &&& forall|j: int|
                (0 <= j < s.col || s.col + cs.len() <= j < BUFFER_WIDTH) ==> t.rows[0][j]
                    == s.rows[0][j]
            &&& forall|r: int| 1 <= r < BUFFER_HEIGHT ==> t.rows[r] == s.rows[r]
        }),
    decreases cs.len(),
{
    if cs.len() > 0 {
        let stepped = spec_write_byte(s, encode_char(cs[0]));
        assert(stepped.rows =~~= s.rows.update(
            0,
            s.rows[0].update(s.col, ScreenChar { character: encode_char(cs[0]), color: s.attr }),
        ));
        lemma_write_ascii_segment(stepped, cs.drop_first());
        let t = spec_write_chars(s, cs);
        assert(t == spec_write_chars(stepped, cs.drop_first()));
        assert forall|j: int|
            s.col <= j < s.col + cs.len() implies t.rows[0][j] == ScreenChar {
            character: encode_char(cs[j - s.col]),
            color: s.attr,
        } by {
            if j == s.col {
                assert(stepped.rows[0][j] == ScreenChar {
                    character: encode_char(cs[0]),
                    color: s.attr,
                });
            } else {
                assert(cs.drop_first()[j - stepped.col] == cs[j - s.col]);
            }
        }
    }
}

/// Display round trip: newline-free text written at the left edge of a
/// blank bottom row reads back exactly, character codes in the current
/// attribute, and every remaining column of that row stays space-filled
/// in the same attribute.
pub proof fn lemma_display_round_trip(s: ScreenState, cs: Seq<char>)
    requires
        screen_wf(s),
        s.col == 0,
        s.rows[0] == blank_row(s.attr),
        cs.len() <= BUFFER_WIDTH,
        forall|i: int| 0 <= i < cs.len() ==> printable(#[trigger] cs[i]),
    ensures
        ({
            let t = spec_write_chars(s, cs);
            &&& forall|j: int|
                0 <= j < cs.len() ==> t.rows[0][j] == ScreenChar {
                    character: encode_char(cs[j]),
                    color: s.attr,
                }
            &&& forall|j: int|
                cs.len() <= j < BUFFER_WIDTH ==> t.rows[0][j] == blank_cell(s.attr)
        }),
{
    lemma_write_ascii_segment(s, cs);
}

/// A full line padded to the grid width with blanks, all in one
/// attribute.
pub open spec fn padded_line(cs: Seq<char>, attr: ColorCode) -> Seq<ScreenChar> {
    Seq::new(
        BUFFER_WIDTH as nat,
        |j: int|
            if j < cs.len() {
                ScreenChar { character: encode_char(cs[j]), color: attr }
            } else {
                blank_cell(attr)
            },
    )
}

/// A display showing a stack of completed lines, newest first: the bottom
/// row is the blank cursor row, the line at stack position `k` shows at
/// logical row `k + 1`, and anything deeper than the grid is discarded.
pub open spec fn stacked_screen(attr: ColorCode, stack: Seq<Seq<char>>) -> ScreenState {
    ScreenState {
        col: 0,
        attr,
        rows: Seq::new(
            BUFFER_HEIGHT as nat,
            |r: int|
                if 1 <= r && r - 1 < stack.len() {
                    padded_line(stack[r - 1], attr)
                } else {
                    blank_row(attr)
                },
        ),
    }
}

/// A line the scroll law speaks of: it fits strictly within one row and
/// holds no newline of its own.
pub open spec fn line_ok(cs: Seq<char>) -> bool {
    &&& cs.len() < BUFFER_WIDTH
    &&& forall|i: int| 0 <= i < cs.len() ==> printable(#[trigger] cs[i])
}

/// Writing one line and terminating it pushes that line onto the visible
/// stack: every earlier line moves one row up and the deepest visible row
/// is discarded.
pub proof fn lemma_line_pushes_stack(attr: ColorCode, stack: Seq<Seq<char>>, l: Seq<char>)
    requires
        line_ok(l),
    ensures
        spec_write_chars(stacked_screen(attr, stack), l.push('\n')) == stacked_screen(
            attr,
            seq![l] + stack,
        ),
{
    let s = stacked_screen(attr, stack);
    lemma_write_chars_append(s, l, seq!['\n']);
    assert(l.push('\n') =~= l + seq!['\n']);
    lemma_write_ascii_segment(s, l);
    let t = spec_write_chars(s, l);
    assert(t.rows[0] =~= padded_line(l, attr));
    reveal_with_fuel(spec_write_chars, 2);
    assert(spec_write_chars(t, seq!['\n']) == spec_write_byte(t, 10));
    let u = spec_write_byte(t, 10);
    assert(u == spec_new_line(t));
    assert(u.rows =~~= stacked_screen(attr, seq![l] + stack).rows);
}

/// A sequence of completed lines, each written and terminated in turn.
pub open spec fn spec_write_lines(s: ScreenState, lines: Seq<Seq<char>>) -> ScreenState
    decreases lines.len(),
{
    if lines.len() == 0 {
        s
    } else {
        spec_write_lines(spec_write_chars(s, lines[0].push('\n')), lines.drop_first())
    }
}

/// Display scroll: however many completed lines are written, only the
/// most recent ones remain visible, stacked newest nearest the bottom
/// above the cursor row; everything older is discarded off the top.
pub proof fn lemma_scroll_keeps_newest(
    attr: ColorCode,
    stack: Seq<Seq<char>>,
    lines: Seq<Seq<char>>,
)
    requires
        forall|i: int| 0 <= i < lines.len() ==> line_ok(#[trigger] lines[i]),
    ensures
        spec_write_lines(stacked_screen(attr, stack), lines) == stacked_screen(
            attr,
            lines.reverse() + stack,
        ),
    decreases lines.len(),
{
    if lines.len() == 0 {
        assert(lines.reverse() + stack =~= stack);
    } else {
        lemma_line_pushes_stack(attr, stack, lines[0]);
        lemma_scroll_keeps_newest(attr, seq![lines[0]] + stack, lines.drop_first());
        assert(lines.reverse() + stack =~= lines.drop_first().reverse() + (seq![lines[0]]
            + stack));
    }
}

} // verus!
