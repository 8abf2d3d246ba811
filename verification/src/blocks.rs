//! The half-block renderer: a frame becomes terminal text in which each cell
//! shows two pixels, the upper one as the foreground and the lower one as the
//! background of an upper half block.
//!
//! Columns that are transparent from top to bottom are left out, rows whose
//! cells did not change since the frame before are not written again, and a
//! colour sequence is written once for each run of equal cells.

use core::hash::Hasher;
use std::collections::hash_map::DefaultHasher;
use std::collections::HashMap;
use vstd::prelude::*;
use vstd::std_specs::hash::DefaultHasherAdditionalSpecFns;
use crate::ansi::{
    color_code, cursor_position, format_color_code, half_block, push_bytes, push_cursor_position,
    push_half_block, push_restore_and_show_cursor, push_save_and_hide_cursor, push_sgr_reset,
    restore_and_show_cursor, save_and_hide_cursor, sgr_reset,
};
use crate::blend::{blend_alpha, blended_rgb, lemma_blend_on_black_bounds};
use crate::frame::{FrameView, VideoFrame};

verus! {

/// Where on the terminal a frame is drawn: the offset of its first cell and
/// the size of the terminal, in cells.
#[derive(Clone, Copy, Debug, PartialEq, Eq, Structural)]
pub struct BlockArea {
    /// Column offset of the first cell.
    pub x: u16,
    /// Row offset of the first cell.
    pub y: u16,
    /// Columns of the terminal.
    pub term_width: u16,
    /// Rows of the terminal.
    pub term_height: u16,
}

/// The colours of a cell.
#[derive(Clone, Copy, Debug)]
pub struct Cell {
    /// The upper pixel over black.
    pub fg: [u16; 3],
    /// The lower pixel over black.
    pub bg: [u16; 3],
}

/// The colours of a cell, as sequences of three channels.
pub struct CellView {
    pub fg: Seq<u16>,
    pub bg: Seq<u16>,
}

impl View for Cell {
    type V = CellView;

    open spec fn view(&self) -> CellView {
        CellView { fg: self.fg@, bg: self.bg@ }
    }
}

/// The columns of a frame that the terminal has room for.
pub open spec fn visible_columns(frame: FrameView, area: BlockArea) -> int {
    let room = if area.term_width > area.x {
        area.term_width - area.x
    } else {
        0
    };
    if frame.width < room {
        frame.width as int
    } else {
        room
    }
}

/// The rows of cells of a frame that the terminal has room for.
pub open spec fn visible_rows(frame: FrameView, area: BlockArea) -> int {
    let room = if 2 * area.term_height > area.y {
        2 * area.term_height - area.y
    } else {
        0
    };
    let lines = if frame.height < room {
        frame.height as int
    } else {
        room
    };
    (lines + 1) / 2
}

/// Every pixel of column `col` is fully transparent.
pub open spec fn column_transparent(frame: FrameView, col: int) -> bool {
    forall|y: int| 0 <= y < frame.height ==> #[trigger] frame.channel(col, y, 3) == 0
}

/// The pixel shown in the upper half of a cell.
pub open spec fn top_pixel(frame: FrameView, col: int, row: int) -> Seq<u8> {
    frame.pixel(col, 2 * row)
}

/// The pixel shown in the lower half of a cell; opaque black below the last
/// line of the frame.
pub open spec fn bottom_pixel(frame: FrameView, col: int, row: int) -> Seq<u8> {
    if 2 * row + 1 < frame.height {
        frame.pixel(col, 2 * row + 1)
    } else {
        seq![0u8, 0u8, 0u8, 255u8]
    }
}

/// The colours of the cell in column `col` of row `row`.
pub open spec fn cell_at(frame: FrameView, col: int, row: int) -> CellView {
    CellView {
        fg: blended_rgb(top_pixel(frame, col, row)),
        bg: blended_rgb(bottom_pixel(frame, col, row)),
    }
}

/// The first `columns` cells of a row. A column that is transparent from top
/// to bottom has no cell.
pub open spec fn row_cells(frame: FrameView, row: int, columns: int) -> Seq<Option<CellView>> {
    Seq::new(
        columns as nat,
        |col: int|
            if column_transparent(frame, col) {
                None
            } else {
                Some(cell_at(frame, col, row))
            },
    )
}

/// What a cell adds to the signature of its row: a zero for no cell, a one
/// and the six channels otherwise.
pub open spec fn cell_signature(cell: Option<CellView>) -> Seq<u8> {
    match cell {
        None => seq![0u8],
        Some(c) => seq![
            1u8,
            c.fg[0] as u8,
            c.fg[1] as u8,
            c.fg[2] as u8,
            c.bg[0] as u8,
            c.bg[1] as u8,
            c.bg[2] as u8,
        ],
    }
}

/// The signature of a row: what its cells add, in their order.
pub open spec fn row_signature(cells: Seq<Option<CellView>>) -> Seq<u8>
    decreases cells.len(),
{
    if cells.len() == 0 {
        Seq::empty()
    } else {
        row_signature(cells.drop_last()) + cell_signature(cells.last())
    }
}

/// The hash of a row: that of the standard hasher after the signature was
/// written to it in one piece.
pub open spec fn row_hash(cells: Seq<Option<CellView>>) -> u64 {
    DefaultHasher::spec_finish(seq![row_signature(cells)])
}

/// Cell `col` is the first of a stretch of cells: the row begins with it, or
/// the column before it has none.
pub open spec fn starts_stretch(cells: Seq<Option<CellView>>, col: int) -> bool {
    col == 0 || cells[col - 1] is None
}

/// Cell `col` is the first of a run of equal cells.
pub open spec fn starts_run(cells: Seq<Option<CellView>>, col: int) -> bool {
    starts_stretch(cells, col) || cells[col - 1] != cells[col]
}

/// What is written for cell `col` of the row shown on line `line` of the
/// screen, where the first column of the frame is column `left`: the cursor
/// is placed at the start of a stretch, the colours are set at the start of a
/// run, and each cell is an upper half block.
pub open spec fn cell_output(cells: Seq<Option<CellView>>, col: int, line: nat, left: nat) -> Seq<
    u8,
> {
    match cells[col] {
        None => Seq::empty(),
        Some(c) => (if starts_stretch(cells, col) {
            cursor_position(line, left + col as nat)
        } else {
            Seq::empty()
        }) + (if starts_run(cells, col) {
            color_code(c.fg, c.bg)
        } else {
            Seq::empty()
        }) + half_block(),
    }
}

/// What is written for the first `n` cells of a row.
pub open spec fn cells_output(cells: Seq<Option<CellView>>, n: int, line: nat, left: nat) -> Seq<
    u8,
>
    decreases n,
{
    if n <= 0 {
        Seq::empty()
    } else {
        cells_output(cells, n - 1, line, left) + cell_output(cells, n - 1, line, left)
    }
}

/// The hashes of the rows of a frame, top to bottom. Nothing where the
/// terminal has no room for the frame.
pub open spec fn frame_hashes(frame: FrameView, area: BlockArea) -> Seq<u64> {
    if visible_columns(frame, area) == 0 {
        Seq::empty()
    } else {
        Seq::new(
            visible_rows(frame, area) as nat,
            |row: int| row_hash(row_cells(frame, row, visible_columns(frame, area))),
        )
    }
}

/// A row has to be written again: it is new, or its hash differs from the
/// one of the frame before.
pub open spec fn is_dirty(previous: Seq<u64>, current: Seq<u64>, row: int) -> bool {
    previous.len() != current.len() || previous[row] != current[row]
}

/// The number of rows among the first `n` that have to be written again.
pub open spec fn dirty_rows(previous: Seq<u64>, current: Seq<u64>, n: int) -> nat
    decreases n,
{
    if n <= 0 {
        0
    } else {
        dirty_rows(previous, current, n - 1) + if is_dirty(previous, current, n - 1) {
            1nat
        } else {
            0nat
        }
    }
}

/// What is written for the first `n` rows of a frame, given the hashes of the
/// frame before: the cells of each row that has to be written again.
pub open spec fn rows_output(previous: Seq<u64>, frame: FrameView, area: BlockArea, n: int) -> Seq<
    u8,
>
    decreases n,
{
    if n <= 0 {
        Seq::empty()
    } else {
        rows_output(previous, frame, area, n - 1) + if is_dirty(
            previous,
            frame_hashes(frame, area),
            n - 1,
        ) {
            cells_output(
                row_cells(frame, n - 1, visible_columns(frame, area)),
                visible_columns(frame, area),
                (area.y + n) as nat,
                (area.x + 1) as nat,
            )
        } else {
            Seq::empty()
        }
    }
}

/// Everything that is written for a frame: the cursor is saved and hidden,
/// the rows that changed are written, the cursor is restored and shown, and
/// colours are reset. Nothing where the terminal has no room for the frame.
pub open spec fn frame_output(previous: Seq<u64>, frame: FrameView, area: BlockArea) -> Seq<u8> {
    if frame_hashes(frame, area).len() == 0 {
        Seq::empty()
    } else {
        save_and_hide_cursor() + rows_output(
            previous,
            frame,
            area,
            visible_rows(frame, area),
        ) + restore_and_show_cursor() + sgr_reset()
    }
}

/// A column that is transparent from top to bottom writes nothing, in any
/// row.
pub proof fn lemma_transparent_column_writes_nothing(
    frame: FrameView,
    area: BlockArea,
    col: int,
    row: int,
    line: nat,
    left: nat,
)
    requires
        0 <= col < visible_columns(frame, area),
        column_transparent(frame, col),
    ensures
        row_cells(frame, row, visible_columns(frame, area))[col] is None,
        cell_output(row_cells(frame, row, visible_columns(frame, area)), col, line, left)
            == Seq::<u8>::empty(),
{
}

/// When no row is dirty, no cell is written.
pub proof fn lemma_clean_rows_write_nothing(
    previous: Seq<u64>,
    frame: FrameView,
    area: BlockArea,
    n: int,
)
    requires
        previous == frame_hashes(frame, area),
    ensures
        dirty_rows(previous, frame_hashes(frame, area), n) == 0,
        rows_output(previous, frame, area, n) == Seq::<u8>::empty(),
    decreases n,
{
    if n > 0 {
        lemma_clean_rows_write_nothing(previous, frame, area, n - 1);
    }
}

/// A frame shown twice in a row: the second time its hashes are those of the
/// first, no row is dirty, and nothing but the frame around the rows is
/// written.
pub proof fn lemma_same_frame_rewrites_no_row(frame: FrameView, area: BlockArea)
    ensures
        dirty_rows(
            frame_hashes(frame, area),
            frame_hashes(frame, area),
            frame_hashes(frame, area).len() as int,
        ) == 0,
        frame_hashes(frame, area).len() > 0 ==> frame_output(
            frame_hashes(frame, area),
            frame,
            area,
        ) == save_and_hide_cursor() + restore_and_show_cursor() + sgr_reset(),
{
    lemma_clean_rows_write_nothing(
        frame_hashes(frame, area),
        frame,
        area,
        visible_rows(frame, area),
    );
    lemma_clean_rows_write_nothing(
        frame_hashes(frame, area),
        frame,
        area,
        frame_hashes(frame, area).len() as int,
    );
}

/// The colour sequences that were formatted before, by their colours.
pub struct ColorCache {
    codes: HashMap<u128, Vec<u8>>,
}

/// The number that stands for a pair of colours in the cache.
pub open spec fn color_key(fg: Seq<u16>, bg: Seq<u16>) -> u128 {
    (((((fg[0] as int * 65536 + fg[1]) * 65536 + fg[2]) * 65536 + bg[0]) * 65536 + bg[1]) * 65536
        + bg[2]) as u128
}

/// Two pairs of colours with the same number are the same pair.
pub proof fn lemma_color_key_injective(fg: Seq<u16>, bg: Seq<u16>, fg2: Seq<u16>, bg2: Seq<u16>)
    requires
        fg.len() == 3,
        bg.len() == 3,
        fg2.len() == 3,
        bg2.len() == 3,
        color_key(fg, bg) == color_key(fg2, bg2),
    ensures
        fg == fg2,
        bg == bg2,
{
    assert(fg =~= fg2);
    assert(bg =~= bg2);
}

impl ColorCache {
    /// Each sequence in the cache is the one of the colours it is kept under.
    pub closed spec fn wf(&self) -> bool {
        forall|fg: Seq<u16>, bg: Seq<u16>|
            fg.len() == 3 && bg.len() == 3 && self.codes@.contains_key(
                #[trigger] color_key(fg, bg),
            ) ==> self.codes@[color_key(fg, bg)]@ == color_code(fg, bg)
    }

    /// An empty cache.
    pub fn new() -> (out: ColorCache)
        ensures
            out.wf(),
    {
        ColorCache { codes: HashMap::new() }
    }

    /// The sequence that sets a foreground and a background colour, from the
    /// cache where it was formatted before.
    pub fn get(&mut self, fg: &[u16; 3], bg: &[u16; 3]) -> (out: Vec<u8>)
        requires
            old(self).wf(),
        ensures
            final(self).wf(),
            out@ == color_code(fg@, bg@),
    {
        let key: u128 = (((((fg[0] as u128 * 65536 + fg[1] as u128) * 65536 + fg[2] as u128)
            * 65536 + bg[0] as u128) * 65536 + bg[1] as u128) * 65536 + bg[2] as u128);
        assert(key == color_key(fg@, bg@));
        match self.codes.get(&key) {
            Some(code) => {
                let out = code.clone();
                assert(out@ =~= code@);
                return out;
            },
            None => {},
        }
        let code = format_color_code(fg, bg);
        let out = code.clone();
        assert(out@ =~= code@);
        self.codes.insert(key, code);
        proof {
            assert forall|f: Seq<u16>, b: Seq<u16>|
                f.len() == 3 && b.len() == 3 && self.codes@.contains_key(
                    #[trigger] color_key(f, b),
                ) implies self.codes@[color_key(f, b)]@ == color_code(f, b) by {
                if color_key(f, b) == key {
                    lemma_color_key_injective(f, b, fg@, bg@);
                }
            }
        }
        out
    }
}

/// For each of the first `columns` columns, whether it is transparent from
/// top to bottom.
pub fn column_transparency(frame: &VideoFrame, columns: u32) -> (out: Vec<bool>)
    requires
        frame.well_formed(),
        columns <= frame.width,
    ensures
        out.len() == columns,
        forall|col: int| 0 <= col < columns ==> out[col] == column_transparent(frame@, col),
{
    let mut out: Vec<bool> = Vec::new();
    let mut col: u32 = 0;
    while col < columns
        invariant
            frame.well_formed(),
            col <= columns <= frame.width,
            out.len() == col,
            forall|c: int| 0 <= c < col ==> out[c] == column_transparent(frame@, c),
        decreases columns - col,
    {
        let mut transparent = true;
        let mut y: u32 = 0;
        while y < frame.height && transparent
            invariant
                frame.well_formed(),
                col < frame.width,
                y <= frame.height,
                transparent ==> forall|k: int|
                    0 <= k < y ==> #[trigger] frame@.channel(col as int, k, 3) == 0,
                !transparent ==> !column_transparent(frame@, col as int),
            decreases (if transparent { frame.height - y + 1 } else { 0 }),
        {
            let pixel = frame.pixel_at(col, y);
            if pixel[3] > 0 {
                transparent = false;
            } else {
                y += 1;
            }
        }
        out.push(transparent);
        col += 1;
    }
    out
}

/// The colours of the cell in column `col` of row `row`.
pub fn cell_colors(frame: &VideoFrame, col: u32, row: u32) -> (out: Cell)
    requires
        frame.well_formed(),
        col < frame.width,
        2 * row < frame.height,
    ensures
        out@ == cell_at(frame@, col as int, row as int),
        forall|i: int| 0 <= i < 3 ==> out.fg[i] <= 255 && out.bg[i] <= 255,
{
    let top = frame.pixel_at(col, 2 * row);
    let bot: [u8; 4] = if 2 * (row as u64) + 1 < frame.height as u64 {
        frame.pixel_at(col, 2 * row + 1)
    } else {
        [0, 0, 0, 255]
    };
    assert(bot@ =~= bottom_pixel(frame@, col as int, row as int));
    let (fg, bg) = blend_alpha(&top, &bot);
    proof {
        lemma_blend_on_black_bounds(top[0], top[3]);
        lemma_blend_on_black_bounds(top[1], top[3]);
        lemma_blend_on_black_bounds(top[2], top[3]);
        lemma_blend_on_black_bounds(bot[0], bot[3]);
        lemma_blend_on_black_bounds(bot[1], bot[3]);
        lemma_blend_on_black_bounds(bot[2], bot[3]);
    }
    Cell { fg, bg }
}

/// The views of a row of cells.
pub open spec fn cell_views(cells: Seq<Option<Cell>>) -> Seq<Option<CellView>> {
    Seq::new(
        cells.len(),
        |i: int|
            match cells[i] {
                Some(c) => Some(c@),
                None => None,
            },
    )
}

/// The cells of one row: a cell for each column that is not transparent from
/// top to bottom.
pub fn compose_row(frame: &VideoFrame, transparent: &Vec<bool>, row: u32) -> (out: Vec<
    Option<Cell>,
>)
    requires
        frame.well_formed(),
        transparent.len() <= frame.width,
        2 * row < frame.height,
        forall|col: int|
            0 <= col < transparent.len() ==> transparent[col] == column_transparent(frame@, col),
    ensures
        cell_views(out@) == row_cells(frame@, row as int, transparent.len() as int),
        out.len() == transparent.len(),
        forall|i: int|
            0 <= i < out.len() ==> (#[trigger] out[i] matches Some(c) ==> forall|k: int|
                0 <= k < 3 ==> c.fg[k] <= 255 && c.bg[k] <= 255),
{
    let mut out: Vec<Option<Cell>> = Vec::new();
    let mut col: usize = 0;
    while col < transparent.len()
        invariant
            frame.well_formed(),
            transparent.len() <= frame.width,
            2 * row < frame.height,
            col <= transparent.len(),
            out.len() == col,
            forall|c: int|
                0 <= c < transparent.len() ==> transparent[c] == column_transparent(frame@, c),
            forall|c: int|
                0 <= c < col ==> (match #[trigger] out[c] {
                    Some(cell) => Some(cell@),
                    None => None,
                }) == (if column_transparent(frame@, c) {
                    None
                } else {
                    Some(cell_at(frame@, c, row as int))
                }),
            forall|i: int|
                0 <= i < out.len() ==> (#[trigger] out[i] matches Some(c) ==> forall|k: int|
                    0 <= k < 3 ==> c.fg[k] <= 255 && c.bg[k] <= 255),
        decreases transparent.len() - col,
    {
        if transparent[col] {
            out.push(None);
        } else {
            out.push(Some(cell_colors(frame, col as u32, row)));
        }
        col += 1;
    }
    assert(cell_views(out@) =~= row_cells(frame@, row as int, transparent.len() as int));
    out
}

/// The signature of a row of cells.
pub fn sign_row(cells: &Vec<Option<Cell>>) -> (out: Vec<u8>)
    requires
        forall|i: int|
            0 <= i < cells.len() ==> (#[trigger] cells[i] matches Some(c) ==> forall|k: int|
                0 <= k < 3 ==> c.fg[k] <= 255 && c.bg[k] <= 255),
    ensures
        out@ == row_signature(cell_views(cells@)),
{
    let mut out: Vec<u8> = Vec::new();
    let mut col: usize = 0;
    assert(cell_views(cells@).subrange(0, 0) =~= Seq::empty());
    while col < cells.len()
        invariant
            col <= cells.len(),
            out@ == row_signature(cell_views(cells@).subrange(0, col as int)),
            forall|i: int|
                0 <= i < cells.len() ==> (#[trigger] cells[i] matches Some(c) ==> forall|k: int|
                    0 <= k < 3 ==> c.fg[k] <= 255 && c.bg[k] <= 255),
        decreases cells.len() - col,
    {
        let ghost before = out@;
        match &cells[col] {
            None => {
                out.push(0);
            },
            Some(c) => {
                out.push(1);
                out.push(c.fg[0] as u8);
                out.push(c.fg[1] as u8);
                out.push(c.fg[2] as u8);
                out.push(c.bg[0] as u8);
                out.push(c.bg[1] as u8);
                out.push(c.bg[2] as u8);
            },
        }
        proof {
            let views = cell_views(cells@);
            let prefix = views.subrange(0, col as int + 1);
            assert(prefix.drop_last() =~= views.subrange(0, col as int));
            assert(prefix.last() == views[col as int]);
            assert(out@ =~= before + cell_signature(views[col as int]));
        }
        col += 1;
    }
    assert(cell_views(cells@).subrange(0, cells.len() as int) =~= cell_views(cells@));
    out
}

/// The hash of a row of cells.
pub fn hash_row(cells: &Vec<Option<Cell>>) -> (out: u64)
    requires
        forall|i: int|
            0 <= i < cells.len() ==> (#[trigger] cells[i] matches Some(c) ==> forall|k: int|
                0 <= k < 3 ==> c.fg[k] <= 255 && c.bg[k] <= 255),
    ensures
        out == row_hash(cell_views(cells@)),
{
    let signature = sign_row(cells);
    let mut hasher = DefaultHasher::new();
    hasher.write(signature.as_slice());
    assert(hasher@ =~= seq![row_signature(cell_views(cells@))]);
    hasher.finish()
}

fn same_colors(a: &Cell, b: &Cell) -> (out: bool)
    ensures
        out == (a@ == b@),
{
    let same = a.fg[0] == b.fg[0] && a.fg[1] == b.fg[1] && a.fg[2] == b.fg[2] && a.bg[0] == b.bg[0]
        && a.bg[1] == b.bg[1] && a.bg[2] == b.bg[2];
    proof {
        if same {
            assert(a.fg@ =~= b.fg@);
            assert(a.bg@ =~= b.bg@);
        } else {
            if a@ == b@ {
                assert(a.fg@[0] == b.fg@[0]);
            }
        }
    }
    same
}

/// Appends what is written for one row of cells shown on line `line`, where
/// the first column of the frame is column `left` of the screen.
pub fn push_row(
    out: &mut Vec<u8>,
    cache: &mut ColorCache,
    cells: &Vec<Option<Cell>>,
    line: u32,
    left: u32,
)
    requires
        old(cache).wf(),
        left + cells.len() <= u32::MAX,
    ensures
        final(cache).wf(),
        final(out)@ == old(out)@ + cells_output(
            cell_views(cells@),
            cells.len() as int,
            line as nat,
            left as nat,
        ),
{
    let mut col: usize = 0;
    let ghost views = cell_views(cells@);
    assert(out@ =~= old(out)@ + cells_output(views, 0, line as nat, left as nat));
    while col < cells.len()
        invariant
            cache.wf(),
            left + cells.len() <= u32::MAX,
            col <= cells.len(),
            views == cell_views(cells@),
            out@ == old(out)@ + cells_output(views, col as int, line as nat, left as nat),
        decreases cells.len() - col,
    {
        let ghost before = out@;
        match &cells[col] {
            None => {},
            Some(cell) => {
                let stretch = col == 0 || cells[col - 1].is_none();
                if stretch {
                    push_cursor_position(out, line, left + col as u32);
                }
                let run = stretch || match &cells[col - 1] {
                    Some(previous) => !same_colors(previous, cell),
                    None => true,
                };
                assert(stretch == starts_stretch(views, col as int));
                assert(run == starts_run(views, col as int));
                if run {
                    let code = cache.get(&cell.fg, &cell.bg);
                    push_bytes(out, code.as_slice());
                }
                push_half_block(out);
            },
        }
        proof {
            assert(out@ =~= before + cell_output(views, col as int, line as nat, left as nat));
            assert(out@ =~= old(out)@ + cells_output(
                views,
                col as int + 1,
                line as nat,
                left as nat,
            ));
        }
        col += 1;
    }
}

/// What a frame was turned into.
pub struct BlockOutput {
    /// The bytes to write to the terminal.
    pub bytes: Vec<u8>,
    /// The number of rows that were written again.
    pub rows_emitted: usize,
}

/// The half-block renderer. It keeps the hashes of the rows of the frame
/// before, and the colour sequences that it formatted.
pub struct BlockRenderer {
    row_hashes: Vec<u64>,
    cache: ColorCache,
}

impl BlockRenderer {
    /// The hashes of the rows of the frame before, top to bottom.
    pub closed spec fn previous_hashes(&self) -> Seq<u64> {
        self.row_hashes@
    }

    /// The cached colour sequences are the right ones.
    pub closed spec fn wf(&self) -> bool {
        self.cache.wf()
    }

    /// A renderer that has not shown a frame yet.
    pub fn new() -> (out: BlockRenderer)
        ensures
            out.wf(),
            out.previous_hashes() == Seq::<u64>::empty(),
    {
        BlockRenderer { row_hashes: Vec::new(), cache: ColorCache::new() }
    }

    /// Forgets the frame before, so that the next frame is written in full.
    pub fn invalidate(&mut self)
        requires
            old(self).wf(),
        ensures
            final(self).wf(),
            final(self).previous_hashes() == Seq::<u64>::empty(),
    {
        self.row_hashes = Vec::new();
    }

    /// The hashes of the rows of the frame before.
    pub fn row_hashes(&self) -> (out: &Vec<u64>)
        ensures
            out@ == self.previous_hashes(),
    {
        &self.row_hashes
    }

    /// The sequence that sets a foreground and a background colour.
    pub fn get_color_code(&mut self, fg: [u16; 3], bg: [u16; 3]) -> (out: Vec<u8>)
        requires
            old(self).wf(),
        ensures
            final(self).wf(),
            final(self).previous_hashes() == old(self).previous_hashes(),
            out@ == color_code(fg@, bg@),
    {
        self.cache.get(&fg, &bg)
    }

    /// Turns a frame into terminal text. Only the rows whose hash differs
    /// from the frame before are written; the hashes of this frame are kept
    /// for the next one.
    pub fn render(&mut self, frame: &VideoFrame, area: BlockArea) -> (out: BlockOutput)
        requires
            old(self).wf(),
            frame.well_formed(),
        ensures
            final(self).wf(),
            final(self).previous_hashes() == frame_hashes(frame@, area),
            out.bytes@ == frame_output(old(self).previous_hashes(), frame@, area),
            out.rows_emitted == dirty_rows(
                old(self).previous_hashes(),
                frame_hashes(frame@, area),
                frame_hashes(frame@, area).len() as int,
            ),
    {
        let columns = visible_width(frame, area);
        let rows = visible_height(frame, area);
        let mut bytes: Vec<u8> = Vec::new();
        if columns == 0 || rows == 0 {
            self.row_hashes = Vec::new();
            proof {
                assert(frame_hashes(frame@, area) =~= Seq::<u64>::empty());
                lemma_no_rows(old(self).previous_hashes(), frame_hashes(frame@, area));
            }
            return BlockOutput { bytes, rows_emitted: 0 };
        }
        let transparent = column_transparency(frame, columns);
        push_save_and_hide_cursor(&mut bytes);
        let mut hashes: Vec<u64> = Vec::new();
        let mut rows_of_cells: Vec<Vec<Option<Cell>>> = Vec::new();
        let mut row: u32 = 0;
        while row < rows
            invariant
                frame.well_formed(),
                row <= rows,
                rows == visible_rows(frame@, area),
                columns == visible_columns(frame@, area),
                columns > 0,
                transparent.len() == columns,
                columns <= frame.width,
                forall|col: int|
                    0 <= col < columns ==> transparent[col] == column_transparent(frame@, col),
                hashes.len() == row,
                rows_of_cells.len() == row,
                forall|r: int|
                    0 <= r < row ==> #[trigger] hashes[r] == row_hash(
                        row_cells(frame@, r, columns as int),
                    ),
                forall|r: int|
                    0 <= r < row ==> cell_views((#[trigger] rows_of_cells[r])@) == row_cells(
                        frame@,
                        r,
                        columns as int,
                    ),
                forall|r: int|
                    0 <= r < row ==> (#[trigger] rows_of_cells[r]).len() == columns,
            decreases rows - row,
        {
            let cells = compose_row(frame, &transparent, row);
            hashes.push(hash_row(&cells));
            rows_of_cells.push(cells);
            row += 1;
        }
        assert(hashes@ =~= frame_hashes(frame@, area));
        let unchanged_size = self.row_hashes.len() == hashes.len();
        let mut emitted: usize = 0;
        let mut row: u32 = 0;
        assert(bytes@ =~= save_and_hide_cursor() + rows_output(
            self.row_hashes@,
            frame@,
            area,
            0,
        ));
        while row < rows
            invariant
                self.cache.wf(),
                self.row_hashes == old(self).row_hashes,
                row <= rows,
                rows == visible_rows(frame@, area),
                columns == visible_columns(frame@, area),
                rows <= 65536,
                hashes@ == frame_hashes(frame@, area),
                hashes.len() == rows,
                rows_of_cells.len() == rows,
                unchanged_size == (self.row_hashes.len() == hashes.len()),
                forall|r: int|
                    0 <= r < rows ==> cell_views((#[trigger] rows_of_cells[r])@) == row_cells(
                        frame@,
                        r,
                        columns as int,
                    ),
                forall|r: int|
                    0 <= r < rows ==> (#[trigger] rows_of_cells[r]).len() == columns,
                emitted == dirty_rows(self.row_hashes@, hashes@, row as int),
                emitted <= row,
                bytes@ == save_and_hide_cursor() + rows_output(
                    self.row_hashes@,
                    frame@,
                    area,
                    row as int,
                ),
            decreases rows - row,
        {
            let dirty = !unchanged_size || self.row_hashes[row as usize] != hashes[row as usize];
            assert(dirty == is_dirty(self.row_hashes@, hashes@, row as int));
            let ghost before = bytes@;
            if dirty {
                push_row(
                    &mut bytes,
                    &mut self.cache,
                    &rows_of_cells[row as usize],
                    area.y as u32 + row + 1,
                    area.x as u32 + 1,
                );
                emitted += 1;
            }
            proof {
                assert(bytes@ =~= save_and_hide_cursor() + rows_output(
                    self.row_hashes@,
                    frame@,
                    area,
                    row as int + 1,
                ));
            }
            row += 1;
        }
        push_restore_and_show_cursor(&mut bytes);
        push_sgr_reset(&mut bytes);
        assert(bytes@ =~= frame_output(old(self).previous_hashes(), frame@, area));
        self.row_hashes = hashes;
        BlockOutput { bytes, rows_emitted: emitted }
    }
}

proof fn lemma_no_rows(previous: Seq<u64>, current: Seq<u64>)
    ensures
        dirty_rows(previous, current, 0) == 0,
{
}

/// The number of columns of a frame that the terminal has room for.
pub fn visible_width(frame: &VideoFrame, area: BlockArea) -> (out: u32)
    ensures
        out == visible_columns(frame@, area),
        out <= frame.width,
        out <= 65535,
{
    let room: u32 = if area.term_width > area.x {
        (area.term_width - area.x) as u32
    } else {
        0
    };
    if frame.width < room {
        frame.width
    } else {
        room
    }
}

/// The number of rows of cells of a frame that the terminal has room for.
pub fn visible_height(frame: &VideoFrame, area: BlockArea) -> (out: u32)
    ensures
        out == visible_rows(frame@, area),
        out > 0 ==> 2 * (out - 1) < frame.height,
        out <= 65536,
{
    let room: u32 = if 2 * (area.term_height as u32) > area.y as u32 {
        2 * (area.term_height as u32) - area.y as u32
    } else {
        0
    };
    let lines: u32 = if frame.height < room {
        frame.height
    } else {
        room
    };
    (lines + 1) / 2
}

} // verus!
