//! Laws of the console model: what a read after a write returns, and which
//! lines stay visible after many lines have scrolled past.
use vstd::prelude::*;
use crate::vga_buffer::{
    blank, blank_row, bottom_start, is_printable, put_byte, put_bytes, row_of, scroll, shown,
    shown_bytes, ScreenCharacter, ScreenState, BUFFER_HEIGHT, BUFFER_WIDTH,
};

verus! {

/// The row that shows `line` from column 0, blanks after it.
pub open spec fn line_row(line: Seq<u8>, color: crate::vga_buffer::ColorCode) -> Seq<
    ScreenCharacter,
> {
    Seq::new(
        BUFFER_WIDTH as nat,
        |i: int|
            if i < line.len() {
                ScreenCharacter { character: line[i], color_code: color }
            } else {
                blank(color)
            },
    )
}

/// The lines, each followed by a line break.
pub open spec fn lines_text(lines: Seq<Seq<u8>>) -> Seq<u8>
    decreases lines.len(),
{
    if lines.len() == 0 {
        Seq::empty()
    } else {
        lines_text(lines.drop_last()) + lines.last().push(0x0a)
    }
}

/// A line of printable text that fits in one row.
pub open spec fn fits_one_row(line: Seq<u8>) -> bool {
    &&& line.len() <= BUFFER_WIDTH
    &&& forall|i: int| 0 <= i < line.len() ==> is_printable(#[trigger] line[i])
}

/// Writing a printable byte and then reading the cell just written gives that
/// byte in the current colour.
pub proof fn lemma_write_then_read(s: ScreenState, b: u8)
    requires
        s.wf(),
        is_printable(b),
    ensures
        put_byte(s, b).wf(),
        put_byte(s, b).column >= 1,
        put_byte(s, b).color == s.color,
        put_byte(s, b).cells[bottom_start() + put_byte(s, b).column - 1] == (ScreenCharacter {
            character: b,
            color_code: s.color,
        }),
{
}

proof fn lemma_put_byte_wf(s: ScreenState, b: u8)
    requires
        s.wf(),
    ensures
        put_byte(s, b).wf(),
        put_byte(s, b).color == s.color,
{
}

proof fn lemma_put_bytes_wf(s: ScreenState, bytes: Seq<u8>)
    requires
        s.wf(),
    ensures
        put_bytes(s, bytes).wf(),
        put_bytes(s, bytes).color == s.color,
    decreases bytes.len(),
{
    if bytes.len() > 0 {
        lemma_put_bytes_wf(s, bytes.drop_last());
        lemma_put_byte_wf(put_bytes(s, bytes.drop_last()), bytes.last());
    }
}

/// Writing `a` then `b` is writing `a + b`.
pub proof fn lemma_put_bytes_concat(s: ScreenState, a: Seq<u8>, b: Seq<u8>)
    ensures
        put_bytes(s, a + b) == put_bytes(put_bytes(s, a), b),
    decreases b.len(),
{
    if b.len() == 0 {
        assert(a + b =~= a);
    } else {
        assert((a + b).drop_last() =~= a + b.drop_last());
        assert((a + b).last() == b.last());
        lemma_put_bytes_concat(s, a, b.drop_last());
    }
}

/// A line that fits in one row, written from column 0 onto a blank bottom row,
/// fills that row and touches no other.
proof fn lemma_write_line(s: ScreenState, line: Seq<u8>)
    requires
        s.wf(),
        s.column == 0,
        row_of(s.cells, BUFFER_HEIGHT - 1) == blank_row(s.color),
        fits_one_row(line),
    ensures
        put_bytes(s, line).wf(),
        put_bytes(s, line).color == s.color,
        put_bytes(s, line).column == line.len(),
        put_bytes(s, line).cells.subrange(0, bottom_start()) == s.cells.subrange(
            0,
            bottom_start(),
        ),
        row_of(put_bytes(s, line).cells, BUFFER_HEIGHT - 1) == line_row(line, s.color),
    decreases line.len(),
{
    if line.len() == 0 {
        assert(line_row(line, s.color) =~= blank_row(s.color));
    } else {
        let prev = line.drop_last();
        assert(fits_one_row(prev)) by {
            assert forall|i: int| 0 <= i < prev.len() implies is_printable(#[trigger] prev[i]) by {
                assert(prev[i] == line[i]);
            }
        }
        lemma_write_line(s, prev);
        let t = put_bytes(s, prev);
        let u = put_byte(t, line.last());
        assert(is_printable(line[line.len() - 1]));
        assert(u.cells.subrange(0, bottom_start()) =~= t.cells.subrange(0, bottom_start()));
        assert forall|i: int| 0 <= i < BUFFER_WIDTH implies #[trigger] row_of(
            u.cells,
            BUFFER_HEIGHT - 1,
        )[i] == line_row(line, s.color)[i] by {
            assert(row_of(t.cells, BUFFER_HEIGHT - 1)[i] == line_row(prev, s.color)[i]);
            assert(row_of(t.cells, BUFFER_HEIGHT - 1)[i] == t.cells[bottom_start() + i]);
        }
        assert(row_of(u.cells, BUFFER_HEIGHT - 1) =~= line_row(line, s.color));
    }
}

/// Whatever the console held, after writing lines of printable text that each
/// fit in one row, every line but the first is shown from column 0: the most
/// recent just above the bottom row, older ones above it in order, and the
/// bottom row is blank with the cursor at its start.
proof fn lemma_lines_visible(s: ScreenState, lines: Seq<Seq<u8>>)
    requires
        s.wf(),
        lines.len() >= 1,
        forall|i: int| 0 <= i < lines.len() ==> fits_one_row(#[trigger] lines[i]),
    ensures
        put_bytes(s, lines_text(lines)).wf(),
        put_bytes(s, lines_text(lines)).color == s.color,
        put_bytes(s, lines_text(lines)).column == 0,
        row_of(put_bytes(s, lines_text(lines)).cells, BUFFER_HEIGHT - 1) == blank_row(s.color),
        forall|r: int|
            0 <= r < BUFFER_HEIGHT - 1 && lines.len() - (BUFFER_HEIGHT - 1) + r >= 1 ==> #[trigger] row_of(
                put_bytes(s, lines_text(lines)).cells,
                r,
            ) == line_row(lines[lines.len() - (BUFFER_HEIGHT - 1) + r], s.color),
    decreases lines.len(),
{
    let n = lines.len();
    let prev = lines.drop_last();
    let last = lines.last();
    assert(fits_one_row(lines[n - 1]));
    if n == 1 {
        assert(lines_text(prev) =~= Seq::<u8>::empty());
        assert(lines_text(lines) =~= last.push(0x0a));
        assert(last.push(0x0a).drop_last() =~= last);
        lemma_put_bytes_wf(s, last);
        let t = put_bytes(s, lines_text(lines));
        assert(row_of(t.cells, BUFFER_HEIGHT - 1) =~= blank_row(s.color));
    } else {
        assert forall|i: int| 0 <= i < prev.len() implies fits_one_row(#[trigger] prev[i]) by {
            assert(prev[i] == lines[i]);
        }
        lemma_lines_visible(s, prev);
        let t = put_bytes(s, lines_text(prev));
        lemma_put_bytes_concat(s, lines_text(prev), last.push(0x0a));
        assert(last.push(0x0a).drop_last() =~= last);
        lemma_write_line(t, last);
        let u = put_bytes(t, last);
        let v = scroll(u);
        assert(put_bytes(s, lines_text(lines)) == v);
        assert(row_of(v.cells, BUFFER_HEIGHT - 1) =~= blank_row(s.color));
        assert forall|r: int|
            0 <= r < BUFFER_HEIGHT - 1 && n - (BUFFER_HEIGHT - 1) + r >= 1 implies #[trigger] row_of(
            v.cells,
            r,
        ) == line_row(lines[n - (BUFFER_HEIGHT - 1) + r], s.color) by {
            assert(row_of(v.cells, r) =~= row_of(u.cells, r + 1));
            if r < BUFFER_HEIGHT - 2 {
                assert(row_of(u.cells, r + 1) =~= row_of(t.cells, r + 1)) by {
                    assert forall|i: int| 0 <= i < BUFFER_WIDTH implies #[trigger] row_of(u.cells, r + 1)[i]
                        == row_of(t.cells, r + 1)[i] by {
                        assert(u.cells.subrange(0, bottom_start())[(r + 1) * BUFFER_WIDTH + i]
                            == t.cells.subrange(0, bottom_start())[(r + 1) * BUFFER_WIDTH + i]);
                    }
                }
                assert(prev[prev.len() - (BUFFER_HEIGHT - 1) + r + 1] == lines[n - (BUFFER_HEIGHT
                    - 1) + r]);
            }
        }
    }
}

/// After writing, one after another, at least a screenful of lines of printable
/// text that each fit in one row, the grid shows the last lines written, each
/// from column 0 of its own row, the most recent at the bottom; the bottom row
/// is the empty line after the last line break. Writing them as a string shows
/// exactly those bytes.
pub proof fn lemma_scrolling_keeps_last_lines(s: ScreenState, lines: Seq<Seq<u8>>)
    requires
        s.wf(),
        lines.len() >= BUFFER_HEIGHT,
        forall|i: int| 0 <= i < lines.len() ==> fits_one_row(#[trigger] lines[i]),
    ensures
        shown_bytes(lines_text(lines)) == lines_text(lines),
        put_bytes(s, lines_text(lines)).wf(),
        put_bytes(s, lines_text(lines)).column == 0,
        row_of(put_bytes(s, lines_text(lines)).cells, BUFFER_HEIGHT - 1) == blank_row(s.color),
        forall|r: int|
            0 <= r < BUFFER_HEIGHT - 1 ==> #[trigger] row_of(
                put_bytes(s, lines_text(lines)).cells,
                r,
            ) == line_row(lines[lines.len() - (BUFFER_HEIGHT - 1) + r], s.color),
{
    lemma_lines_visible(s, lines);
    lemma_lines_text_printable(lines);
}

/// Text made of printable lines and line breaks is shown as it is.
proof fn lemma_lines_text_printable(lines: Seq<Seq<u8>>)
    requires
        forall|i: int| 0 <= i < lines.len() ==> fits_one_row(#[trigger] lines[i]),
    ensures
        shown_bytes(lines_text(lines)) == lines_text(lines),
    decreases lines.len(),
{
    if lines.len() > 0 {
        let prev = lines.drop_last();
        assert forall|i: int| 0 <= i < prev.len() implies fits_one_row(#[trigger] prev[i]) by {
            assert(prev[i] == lines[i]);
        }
        lemma_lines_text_printable(prev);
        let last = lines.last();
        assert(fits_one_row(lines[lines.len() - 1]));
        let text = lines_text(lines);
        assert(text == lines_text(prev) + last.push(0x0a));
        assert forall|i: int| 0 <= i < text.len() implies shown(#[trigger] text[i]) == text[i] by {
            if i >= lines_text(prev).len() {
                let k = i - lines_text(prev).len();
                if k < last.len() {
                    assert(text[i] == last[k]);
                }
            } else {
                assert(shown_bytes(lines_text(prev))[i] == shown(lines_text(prev)[i]));
            }
        }
        assert(shown_bytes(text) =~= text);
    }
}

} // verus!
