//! Where stars may stand on a drawn area, and what each of them looks like.

use crate::text::same_text;
use vstd::prelude::*;

verus! {

/// A rectangle of terminal cells.
#[derive(Clone, Copy, Debug, PartialEq, Eq, Structural)]
pub struct Area {
    pub x: u16,
    pub y: u16,
    pub width: u16,
    pub height: u16,
}

impl Area {
    /// The rectangle, cut off where it would pass the last coordinate.
    pub fn new(x: u16, y: u16, width: u16, height: u16) -> (r: Area)
        ensures
            r == area_at(x, y, width, height),
    {
        Area { x, y, width: x.saturating_add(width) - x, height: y.saturating_add(height) - y }
    }

    /// The first column behind the rectangle.
    pub open spec fn right_end(self) -> u16 {
        self.x.saturating_add(self.width)
    }

    /// The first row below the rectangle.
    pub open spec fn bottom_end(self) -> u16 {
        self.y.saturating_add(self.height)
    }

    /// Whether a cell lies in the rectangle.
    pub open spec fn holds(self, x: u16, y: u16) -> bool {
        self.x <= x < self.right_end() && self.y <= y < self.bottom_end()
    }

    pub fn right(&self) -> (r: u16)
        ensures
            r == self.right_end(),
    {
        self.x.saturating_add(self.width)
    }

    pub fn bottom(&self) -> (r: u16)
        ensures
            r == self.bottom_end(),
    {
        self.y.saturating_add(self.height)
    }

    pub fn contains(&self, x: u16, y: u16) -> (r: bool)
        ensures
            r == self.holds(x, y),
    {
        self.x <= x && x < self.right() && self.y <= y && y < self.bottom()
    }

    pub fn is_empty(&self) -> (r: bool)
        ensures
            r == (self.width == 0 || self.height == 0),
    {
        self.width == 0 || self.height == 0
    }
}

/// The rectangle, cut off where it would pass the last coordinate.
pub open spec fn area_at(x: u16, y: u16, width: u16, height: u16) -> Area {
    Area {
        x,
        y,
        width: (x.saturating_add(width) - x) as u16,
        height: (y.saturating_add(height) - y) as u16,
    }
}

/// The number of columns that a text takes on a terminal, as `unicode_width` tells it.
pub uninterp spec fn display_width(text: Seq<char>) -> usize;

/// `UnicodeWidthStr::width`: the number of columns that a text takes on a terminal.
#[verifier::external_body]
pub(crate) fn width_of(text: &str) -> (r: usize)
    ensures
        r == display_width(text@),
{
    unicode_width::UnicodeWidthStr::width(text)
}

/// What is known of a drawn cell.
#[derive(Debug, PartialEq, Eq)]
pub struct CellInfo {
    pub symbol: String,
    /// The cell is styled, by a selection for one.
    pub styled: bool,
    /// The cell takes part in updates in a way of its own.
    pub pinned: bool,
    /// The background, where it is a true color.
    pub background: Option<(u8, u8, u8)>,
}

/// A star: its cell, its dot, and the period and phase of its twinkling.
#[derive(Clone, Copy, Debug, PartialEq, Eq)]
pub struct Star {
    pub x: u16,
    pub y: u16,
    /// Which of the eight dots it is.
    pub dot: u64,
    /// The period, in tenths of a second.
    pub period_tenths: u64,
    /// The phase at the start, in parts of 997.
    pub phase: u64,
    pub background: (u8, u8, u8),
}

/// The stable hash of a cell's place within the area.
pub open spec fn star_hash(column: u16, row: u16) -> u64 {
    let h0 = (row * 65537 + column) as u64;
    let h1 = (h0 ^ (h0 >> 16)).wrapping_mul(0x45d9f3b);
    let h2 = (h1 ^ (h1 >> 16)).wrapping_mul(0x45d9f3b);
    h2 ^ (h2 >> 16)
}

/// The stable hash of a cell's place within the area.
pub fn hash_cell(column: u16, row: u16) -> (r: u64)
    ensures
        r == star_hash(column, row),
{
    let h0: u64 = row as u64 * 65537 + column as u64;
    let h1: u64 = (h0 ^ (h0 >> 16)).wrapping_mul(0x45d9f3b);
    let h2: u64 = (h1 ^ (h1 >> 16)).wrapping_mul(0x45d9f3b);
    h2 ^ (h2 >> 16)
}

/// The star that a place within the area is made for, if it is made for one.
#[verifier::opaque]
pub open spec fn star_for(area: Area, column: u16, row: u16, background: (u8, u8, u8)) -> Option<
    Star,
> {
    let hash = star_hash(column, row);
    if hash % 5 != 0 {
        None
    } else {
        Some(
            Star {
                x: (area.x + column) as u16,
                y: (area.y + row) as u16,
                dot: (hash / 161) % 8,
                period_tenths: (40 + hash % 31) as u64,
                phase: hash % 997,
                background,
            },
        )
    }
}

/// The star that a place within the area is made for, if it is made for one.
pub fn make_star(area: Area, column: u16, row: u16, background: (u8, u8, u8)) -> (r: Option<Star>)
    requires
        area.x + column <= u16::MAX,
        area.y + row <= u16::MAX,
    ensures
        r == star_for(area, column, row, background),
{
    reveal(star_for);
    let hash: u64 = hash_cell(column, row);
    if hash % 5 != 0 {
        return None;
    }
    Some(
        Star {
            x: area.x + column,
            y: area.y + row,
            dot: (hash / 161) % 8,
            period_tenths: 40 + hash % 31,
            phase: hash % 997,
            background,
        },
    )
}

/// The number of columns of an area.
pub open spec fn columns(area: Area) -> nat {
    (area.right_end() - area.x) as nat
}

/// The number of rows of an area.
pub open spec fn rows(area: Area) -> nat {
    (area.bottom_end() - area.y) as nat
}

/// The first free column behind a cell, where `free` is the first free one before it. A symbol may
/// be wider than its cell.
pub open spec fn next_free(x: u16, free: u16, cell: CellInfo) -> u16 {
    if x < free || cell.symbol@ == " "@ {
        free
    } else {
        x.saturating_add(display_width(cell.symbol@) as u16)
    }
}

/// The first column that what stands before column `n` of a row leaves free.
pub open spec fn free_from(area: Area, row_cells: Seq<CellInfo>, n: nat) -> u16
    decreases n,
{
    if n == 0 {
        area.x
    } else {
        next_free(
            (area.x + (n - 1)) as u16,
            free_from(area, row_cells, (n - 1) as nat),
            row_cells[n - 1],
        )
    }
}

/// The cells of a row.
pub open spec fn row_of(area: Area, cells: Seq<CellInfo>, row: nat) -> Seq<CellInfo> {
    cells.subrange((row * columns(area)) as int, ((row + 1) * columns(area)) as int)
}

/// Whether a cell may be drawn over: no symbol reaches into it, it is empty, and it is neither the
/// cursor, nor protected, nor styled, nor pinned.
pub open spec fn open_cell(
    cursor: Option<(u16, u16)>,
    protected: Option<Area>,
    cell: CellInfo,
    free: u16,
    x: u16,
    y: u16,
) -> bool {
    &&& x >= free
    &&& cell.symbol@ == " "@
    &&& cursor != Some((x, y))
    &&& !(protected matches Some(kept) && kept.holds(x, y))
    &&& !cell.styled
    &&& !cell.pinned
}

/// The star at a cell, if there is one, where `free` is the first free column of its row.
pub open spec fn cell_star(
    area: Area,
    cursor: Option<(u16, u16)>,
    protected: Option<Area>,
    cell: CellInfo,
    free: u16,
    column: u16,
    row: u16,
) -> Option<Star> {
    if open_cell(
        cursor,
        protected,
        cell,
        free,
        (area.x + column) as u16,
        (area.y + row) as u16,
    ) {
        match cell.background {
            Some(background) => star_for(area, column, row, background),
            None => None,
        }
    } else {
        None
    }
}

/// The star at a column of a row, if there is one.
pub open spec fn star_at(
    area: Area,
    cursor: Option<(u16, u16)>,
    protected: Option<Area>,
    row_cells: Seq<CellInfo>,
    column: nat,
    row: nat,
) -> Option<Star> {
    cell_star(
        area,
        cursor,
        protected,
        row_cells[column as int],
        free_from(area, row_cells, column),
        column as u16,
        row as u16,
    )
}

/// The stars in the first `n` columns of a row, from left to right.
pub open spec fn stars_in_row(
    area: Area,
    cursor: Option<(u16, u16)>,
    protected: Option<Area>,
    row_cells: Seq<CellInfo>,
    row: nat,
    n: nat,
) -> Seq<Star>
    decreases n,
{
    if n == 0 {
        Seq::empty()
    } else {
        let before = stars_in_row(area, cursor, protected, row_cells, row, (n - 1) as nat);
        match star_at(area, cursor, protected, row_cells, (n - 1) as nat, row) {
            Some(star) => before.push(star),
            None => before,
        }
    }
}

/// The stars in the first `n` rows, from top to bottom.
pub open spec fn stars_in_rows(
    area: Area,
    cursor: Option<(u16, u16)>,
    protected: Option<Area>,
    cells: Seq<CellInfo>,
    n: nat,
) -> Seq<Star>
    decreases n,
{
    if n == 0 {
        Seq::empty()
    } else {
        let row = (n - 1) as nat;
        stars_in_rows(area, cursor, protected, cells, row) + stars_in_row(
            area,
            cursor,
            protected,
            row_of(area, cells, row),
            row,
            columns(area),
        )
    }
}

proof fn lemma_row_range(width: nat, height: nat, row: nat)
    requires
        row < height,
    ensures
        row * width + width == (row + 1) * width,
        0 <= row * width,
        (row + 1) * width <= height * width,
{
    assert(row * width + width == (row + 1) * width) by (nonlinear_arith);
    assert((row + 1) * width <= height * width) by (nonlinear_arith)
        requires
            row + 1 <= height,
    ;
}

/// The star at a cell, if there is one, and the first free column behind the cell.
fn visit_cell(
    area: Area,
    cursor: Option<(u16, u16)>,
    protected_area: Option<Area>,
    cell: &CellInfo,
    free: u16,
    column: u16,
    row: u16,
) -> (r: (Option<Star>, u16))
    requires
        area.x + column <= u16::MAX,
        area.y + row <= u16::MAX,
    ensures
        r.0 == cell_star(area, cursor, protected_area, *cell, free, column, row),
        r.1 == next_free((area.x + column) as u16, free, *cell),
{
    let x: u16 = area.x + column;
    let y: u16 = area.y + row;
    if x < free {
        return (None, free);
    }
    if !same_text(cell.symbol.as_str(), " ") {
        let width: usize = width_of(cell.symbol.as_str());
        return (None, x.saturating_add(width as u16));
    }
    let at_cursor = match cursor {
        Some((cx, cy)) => cx == x && cy == y,
        None => false,
    };
    let protected_here = match protected_area {
        Some(kept) => kept.contains(x, y),
        None => false,
    };
    if at_cursor || protected_here || cell.styled || cell.pinned {
        return (None, free);
    }
    match cell.background {
        Some(background) => (make_star(area, column, row, background), free),
        None => (None, free),
    }
}

/// Adds the stars of a row, whose cells begin at `start`.
fn add_row(
    area: Area,
    cursor: Option<(u16, u16)>,
    protected_area: Option<Area>,
    cells: &Vec<CellInfo>,
    start: usize,
    row: u16,
    stars: &mut Vec<Star>,
)
    requires
        row < rows(area),
        start == row * columns(area),
        start + columns(area) <= cells@.len(),
    ensures
        final(stars)@ == old(stars)@ + stars_in_row(
            area,
            cursor,
            protected_area,
            row_of(area, cells@, row as nat),
            row as nat,
            columns(area),
        ),
{
    let width: u16 = area.right() - area.x;
    let ghost row_cells = row_of(area, cells@, row as nat);
    proof {
        lemma_row_range(columns(area), rows(area), row as nat);
    }
    assert(row_cells == cells@.subrange(start as int, start + width));
    let ghost done = stars@;
    let mut occupied_until: u16 = area.x;
    let mut column: u16 = 0;
    assert(stars@ =~= done + stars_in_row(
        area,
        cursor,
        protected_area,
        row_cells,
        row as nat,
        0,
    ));
    while column < width
        invariant
            column <= width,
            row < rows(area),
            width == columns(area),
            area.x + width <= u16::MAX,
            start + width <= cells@.len(),
            row_cells == cells@.subrange(start as int, start + width),
            occupied_until == free_from(area, row_cells, column as nat),
            stars@ == done + stars_in_row(
                area,
                cursor,
                protected_area,
                row_cells,
                row as nat,
                column as nat,
            ),
        decreases width - column,
    {
        assert(start + column < cells.len());
        let at: usize = start + column as usize;
        let (found, free) = visit_cell(
            area,
            cursor,
            protected_area,
            &cells[at],
            occupied_until,
            column,
            row,
        );
        assert(row_cells[column as int] == cells@[at as int]);
        assert(found == star_at(
            area,
            cursor,
            protected_area,
            row_cells,
            column as nat,
            row as nat,
        ));
        if let Some(star) = found {
            stars.push(star);
        }
        occupied_until = free;
        column = column + 1;
    }
}

/// The stars of a drawn area. `cells` holds its cells row by row.
pub fn render_stars(
    area: Area,
    cursor: Option<(u16, u16)>,
    protected_area: Option<Area>,
    cells: &Vec<CellInfo>,
) -> (stars: Vec<Star>)
    requires
        cells@.len() == rows(area) * columns(area),
    ensures
        stars@ == stars_in_rows(area, cursor, protected_area, cells@, rows(area)),
{
    let mut stars: Vec<Star> = Vec::new();
    let width: u16 = area.right() - area.x;
    let height: u16 = area.bottom() - area.y;
    let mut row: u16 = 0;
    let mut start: usize = 0;
    while row < height
        invariant
            row <= height,
            width == columns(area),
            height == rows(area),
            cells@.len() == rows(area) * columns(area),
            start == row * columns(area),
            stars@ == stars_in_rows(area, cursor, protected_area, cells@, row as nat),
        decreases height - row,
    {
        proof {
            lemma_row_range(columns(area), rows(area), row as nat);
        }
        add_row(area, cursor, protected_area, cells, start, row, &mut stars);
        row = row + 1;
        assert(start + width <= cells.len());
        start = start + width as usize;
    }
    stars
}

/// The star of an empty cell lies in the area, on a cell that may be drawn over.
proof fn lemma_row_stars_are_open(
    area: Area,
    cursor: Option<(u16, u16)>,
    protected: Option<Area>,
    row_cells: Seq<CellInfo>,
    row: nat,
    n: nat,
    star: Star,
)
    requires
        n <= columns(area),
        row < rows(area),
        stars_in_row(area, cursor, protected, row_cells, row, n).contains(star),
    ensures
        area.x <= star.x < area.x + n,
        star.y == area.y + row,
        open_cell(
            cursor,
            protected,
            row_cells[star.x - area.x],
            free_from(area, row_cells, (star.x - area.x) as nat),
            star.x,
            star.y,
        ),
        row_cells[star.x - area.x].background == Some(star.background),
        star.dot < 8,
        40 <= star.period_tenths <= 70,
        star.phase < 997,
    decreases n,
{
    reveal(star_for);
    let stars = stars_in_row(area, cursor, protected, row_cells, row, n);
    if n > 0 {
        let before = stars_in_row(area, cursor, protected, row_cells, row, (n - 1) as nat);
        if before.contains(star) {
            lemma_row_stars_are_open(
                area,
                cursor,
                protected,
                row_cells,
                row,
                (n - 1) as nat,
                star,
            );
        } else {
            let i = stars.index_of(star);
            if i < before.len() {
                assert(before[i] == star);
            }
            assert(star_at(area, cursor, protected, row_cells, (n - 1) as nat, row) == Some(star));
        }
    }
}

/// A star never covers anything: it stands in the area on an empty cell that is neither the
/// cursor nor protected, neither styled nor pinned, and it keeps the background of that cell.
pub proof fn law_stars_cover_nothing(
    area: Area,
    cursor: Option<(u16, u16)>,
    protected: Option<Area>,
    cells: Seq<CellInfo>,
    n: nat,
    star: Star,
)
    requires
        n <= rows(area),
        cells.len() == rows(area) * columns(area),
        stars_in_rows(area, cursor, protected, cells, n).contains(star),
    ensures
        area.holds(star.x, star.y),
        star.y < area.y + n,
        open_cell(
            cursor,
            protected,
            row_of(area, cells, (star.y - area.y) as nat)[star.x - area.x],
            free_from(
                area,
                row_of(area, cells, (star.y - area.y) as nat),
                (star.x - area.x) as nat,
            ),
            star.x,
            star.y,
        ),
        row_of(area, cells, (star.y - area.y) as nat)[star.x - area.x].background == Some(
            star.background,
        ),
        cursor != Some((star.x, star.y)),
        !(protected matches Some(kept) && kept.holds(star.x, star.y)),
        star.dot < 8,
        40 <= star.period_tenths <= 70,
        star.phase < 997,
    decreases n,
{
    if n > 0 {
        let row = (n - 1) as nat;
        let before = stars_in_rows(area, cursor, protected, cells, row);
        let here = stars_in_row(
            area,
            cursor,
            protected,
            row_of(area, cells, row),
            row,
            columns(area),
        );
        let all = before + here;
        let i = all.index_of(star);
        if i < before.len() {
            assert(before[i] == star);
            law_stars_cover_nothing(area, cursor, protected, cells, row, star);
        } else {
            assert(here[i - before.len()] == star);
            lemma_row_stars_are_open(
                area,
                cursor,
                protected,
                row_of(area, cells, row),
                row,
                columns(area),
                star,
            );
        }
    }
}

/// What a star looks like depends on its place within the area alone: moving the area moves the
/// star, and nothing else about it changes.
pub proof fn law_star_depends_on_place_alone(
    area: Area,
    other: Area,
    column: u16,
    row: u16,
    background: (u8, u8, u8),
)
    ensures
        star_for(area, column, row, background) is Some <==> star_for(
            other,
            column,
            row,
            background,
        ) is Some,
        star_for(area, column, row, background) matches Some(star) ==> star_for(
            other,
            column,
            row,
            background,
        ) == Some(
            Star { x: (other.x + column) as u16, y: (other.y + row) as u16, ..star },
        ),
{
    reveal(star_for);
}

/// Undoes the mixing of a number with its own upper half and quarters.
pub open spec fn unshifted(h: u64) -> u64 {
    h ^ (h >> 16) ^ (h >> 32) ^ (h >> 48)
}

/// Undoes the multiplication by `0x45d9f3b`: the two factors multiply to one.
pub open spec fn unmultiplied(h: u64) -> u64 {
    h.wrapping_mul(0xf9e122f8119de1f3)
}

proof fn lemma_unshifted(x: u64)
    ensures
        unshifted(x ^ (x >> 16)) == x,
{
    let h = x ^ (x >> 16);
    assert(h ^ (h >> 16) ^ (h >> 32) ^ (h >> 48) == x) by (bit_vector)
        requires
            h == x ^ (x >> 16),
    ;
}

proof fn lemma_unmultiplied(x: u64)
    ensures
        unmultiplied(x.wrapping_mul(0x45d9f3b)) == x,
{
    let m = 0x1_0000_0000_0000_0000int;
    let c = 0x45d9f3bint;
    let d = 0xf9e122f8119de1f3int;
    vstd::arithmetic::div_mod::lemma_mul_mod_noop_left(x * c, d, m);
    assert((x * c) * d == m * (71493314 * x) + x + (x * (c * d - 1 - m * 71493314)))
        by (nonlinear_arith);
    assert(c * d == 1 + m * 71493314);
    vstd::arithmetic::div_mod::lemma_mod_multiples_vanish(71493314 * x, x as int, m);
    assert(x as int % m == x as int);
}

/// The hash of a place can be undone step by step, down to the number of the place, in which a row
/// counts for 65537 columns. So different places have different hashes.
pub proof fn law_hash_can_be_undone(column: u16, row: u16)
    ensures
        unshifted(
            unmultiplied(unshifted(unmultiplied(unshifted(star_hash(column, row))))),
        ) == row * 65537 + column,
{
    let h0 = (row * 65537 + column) as u64;
    let m1 = h0 ^ (h0 >> 16);
    let h1 = m1.wrapping_mul(0x45d9f3b);
    let m2 = h1 ^ (h1 >> 16);
    let h2 = m2.wrapping_mul(0x45d9f3b);
    lemma_unshifted(h2);
    lemma_unmultiplied(m2);
    lemma_unshifted(h1);
    lemma_unmultiplied(m1);
    lemma_unshifted(h0);
}

/// One place in five is made for a star: the one whose hash is a multiple of five. The star stands
/// there, on the background of its cell; its dot is one of eight, its period lies between 4 and 7
/// seconds in steps of a tenth, and its phase is told in parts of 997, all by the hash.
pub proof fn law_stars_are_made_by_their_hash(
    area: Area,
    column: u16,
    row: u16,
    background: (u8, u8, u8),
)
    requires
        area.x + column <= u16::MAX,
        area.y + row <= u16::MAX,
    ensures
        ({
            let hash = star_hash(column, row);
            &&& star_for(area, column, row, background) is Some <==> hash % 5 == 0
            &&& star_for(area, column, row, background) matches Some(star) ==> {
                &&& star.x == area.x + column
                &&& star.y == area.y + row
                &&& star.background == background
                &&& star.dot < 8
                &&& (hash / 161 - star.dot) % 8 == 0
                &&& 40 <= star.period_tenths <= 70
                &&& (hash - (star.period_tenths - 40)) % 31 == 0
                &&& star.phase < 997
                &&& (hash - star.phase) % 997 == 0
            }
        }),
{
    reveal(star_for);
}

/// A rectangle holds the cells from its corner on, as many as it is wide and high, as far as there are
/// coordinates for them; cutting it off there takes none of them away.
pub proof fn law_area_holds_its_cells(
    x: u16,
    y: u16,
    width: u16,
    height: u16,
    column: u16,
    row: u16,
)
    ensures
        (Area { x, y, width, height }).holds(column, row) <==> x <= column && column < x + width
            && column < u16::MAX && y <= row && row < y + height && row < u16::MAX,
        area_at(x, y, width, height).holds(column, row) <==> (Area { x, y, width, height }).holds(
            column,
            row,
        ),
        x + width <= u16::MAX && y + height <= u16::MAX ==> area_at(x, y, width, height) == (Area {
            x,
            y,
            width,
            height,
        }),
        columns(Area { x, y, width, height }) == if x + width <= u16::MAX {
            width as int
        } else {
            u16::MAX - x
        },
        rows(Area { x, y, width, height }) == if y + height <= u16::MAX {
            height as int
        } else {
            u16::MAX - y
        },
{
}

/// A cell may be drawn over exactly if no symbol reaches into it, it holds a space, and it is neither
/// the cursor, nor protected, nor styled, nor pinned.
pub proof fn law_only_free_cells_are_open(
    cursor: Option<(u16, u16)>,
    protected: Option<Area>,
    cell: CellInfo,
    free: u16,
    x: u16,
    y: u16,
)
    ensures
        x < free ==> !open_cell(cursor, protected, cell, free, x, y),
        cell.symbol@ != " "@ ==> !open_cell(cursor, protected, cell, free, x, y),
        cursor == Some((x, y)) ==> !open_cell(cursor, protected, cell, free, x, y),
        protected matches Some(kept) ==> (kept.holds(x, y) ==> !open_cell(
            cursor,
            protected,
            cell,
            free,
            x,
            y,
        )),
        cell.styled || cell.pinned ==> !open_cell(cursor, protected, cell, free, x, y),
        x >= free && cell.symbol@ == " "@ && cursor != Some((x, y)) && !(protected matches Some(
            kept,
        ) && kept.holds(x, y)) && !cell.styled && !cell.pinned ==> open_cell(
            cursor,
            protected,
            cell,
            free,
            x,
            y,
        ),
{
}

/// A symbol keeps the cells that it reaches into from being drawn over: where one that is no space
/// starts at a free column, no column before its end is free to its right, and the one at its end is
/// free again if nothing else has come; spaces take nothing.
pub proof fn law_wide_symbols_cover_their_cells(
    area: Area,
    row_cells: Seq<CellInfo>,
    column: nat,
    other: nat,
)
    requires
        column < other <= columns(area),
        other <= row_cells.len(),
        area.x + column >= free_from(area, row_cells, column),
        row_cells[column as int].symbol@ != " "@,
        area.x + column + (display_width(row_cells[column as int].symbol@) as u16) <= u16::MAX,
        area.x + other <= area.x + column + (display_width(row_cells[column as int].symbol@) as u16),
    ensures
        free_from(area, row_cells, other) == area.x + column + (display_width(
            row_cells[column as int].symbol@,
        ) as u16),
    decreases other,
{
    if other > column + 1 {
        law_wide_symbols_cover_their_cells(area, row_cells, column, (other - 1) as nat);
    }
}

/// Spaces leave the first free column of a row where it is.
pub proof fn law_spaces_take_no_room(area: Area, row_cells: Seq<CellInfo>, n: nat)
    requires
        n <= columns(area),
        n <= row_cells.len(),
        forall|i: int| 0 <= i < n ==> (#[trigger] row_cells[i]).symbol@ == " "@,
    ensures
        free_from(area, row_cells, n) == area.x,
    decreases n,
{
    if n > 0 {
        law_spaces_take_no_room(area, row_cells, (n - 1) as nat);
    }
}

proof fn lemma_row_uses_every_place(
    area: Area,
    cursor: Option<(u16, u16)>,
    protected: Option<Area>,
    row_cells: Seq<CellInfo>,
    row: nat,
    n: nat,
    column: nat,
)
    requires
        column < n <= columns(area),
    ensures
        star_at(area, cursor, protected, row_cells, column, row) matches Some(star)
            ==> stars_in_row(area, cursor, protected, row_cells, row, n).contains(star),
    decreases n,
{
    let before = stars_in_row(area, cursor, protected, row_cells, row, (n - 1) as nat);
    let all = stars_in_row(area, cursor, protected, row_cells, row, n);
    if let Some(star) = star_at(area, cursor, protected, row_cells, column, row) {
        if column < n - 1 {
            lemma_row_uses_every_place(
                area,
                cursor,
                protected,
                row_cells,
                row,
                (n - 1) as nat,
                column,
            );
            let i = before.index_of(star);
            assert(all[i] == star);
        } else {
            assert(all.last() == star);
        }
    }
}

/// No star is left out: every cell of the area that may be drawn over and has a true color behind it
/// shows the star that its place is made for.
pub proof fn law_every_open_place_shows_its_star(
    area: Area,
    cursor: Option<(u16, u16)>,
    protected: Option<Area>,
    cells: Seq<CellInfo>,
    n: nat,
    column: u16,
    row: u16,
)
    requires
        n <= rows(area),
        row < n,
        column < columns(area),
        cells.len() == rows(area) * columns(area),
    ensures
        ({
            let row_cells = row_of(area, cells, row as nat);
            let cell = row_cells[column as int];
            open_cell(
                cursor,
                protected,
                cell,
                free_from(area, row_cells, column as nat),
                (area.x + column) as u16,
                (area.y + row) as u16,
            ) ==> (cell.background matches Some(background) ==> (star_for(
                area,
                column,
                row,
                background,
            ) matches Some(star) ==> stars_in_rows(area, cursor, protected, cells, n).contains(
                star,
            )))
        }),
    decreases n,
{
    let last = (n - 1) as nat;
    let before = stars_in_rows(area, cursor, protected, cells, last);
    let here = stars_in_row(
        area,
        cursor,
        protected,
        row_of(area, cells, last),
        last,
        columns(area),
    );
    let all = stars_in_rows(area, cursor, protected, cells, n);
    let row_cells = row_of(area, cells, row as nat);
    if let Some(star) = star_at(area, cursor, protected, row_cells, column as nat, row as nat) {
        if row < last {
            law_every_open_place_shows_its_star(
                area,
                cursor,
                protected,
                cells,
                last,
                column,
                row,
            );
            let i = before.index_of(star);
            assert(all[i] == star);
        } else {
            lemma_row_uses_every_place(
                area,
                cursor,
                protected,
                row_cells,
                row as nat,
                columns(area),
                column as nat,
            );
            let i = here.index_of(star);
            assert(all[before.len() + i] == star);
        }
    }
}

/// Whether a star comes before another in reading order.
pub open spec fn comes_before(a: Star, b: Star) -> bool {
    a.y < b.y || a.y == b.y && a.x < b.x
}

proof fn lemma_row_is_in_reading_order(
    area: Area,
    cursor: Option<(u16, u16)>,
    protected: Option<Area>,
    row_cells: Seq<CellInfo>,
    row: nat,
    n: nat,
    i: int,
    j: int,
)
    requires
        n <= columns(area),
        row < rows(area),
        0 <= i < j < stars_in_row(area, cursor, protected, row_cells, row, n).len(),
    ensures
        comes_before(
            stars_in_row(area, cursor, protected, row_cells, row, n)[i],
            stars_in_row(area, cursor, protected, row_cells, row, n)[j],
        ),
    decreases n,
{
    let all = stars_in_row(area, cursor, protected, row_cells, row, n);
    let before = stars_in_row(area, cursor, protected, row_cells, row, (n - 1) as nat);
    if j < before.len() {
        lemma_row_is_in_reading_order(
            area,
            cursor,
            protected,
            row_cells,
            row,
            (n - 1) as nat,
            i,
            j,
        );
    } else {
        reveal(star_for);
        assert(before.contains(before[i]));
        lemma_row_stars_are_open(
            area,
            cursor,
            protected,
            row_cells,
            row,
            (n - 1) as nat,
            before[i],
        );
        assert(all[i] == before[i]);
        assert(all[j].x == area.x + (n - 1));
    }
}

/// The stars of an area come in reading order, row by row from the left, and each of them once.
pub proof fn law_stars_come_in_reading_order(
    area: Area,
    cursor: Option<(u16, u16)>,
    protected: Option<Area>,
    cells: Seq<CellInfo>,
    n: nat,
    i: int,
    j: int,
)
    requires
        n <= rows(area),
        cells.len() == rows(area) * columns(area),
        0 <= i < j < stars_in_rows(area, cursor, protected, cells, n).len(),
    ensures
        comes_before(
            stars_in_rows(area, cursor, protected, cells, n)[i],
            stars_in_rows(area, cursor, protected, cells, n)[j],
        ),
    decreases n,
{
    let last = (n - 1) as nat;
    let row_cells = row_of(area, cells, last);
    let before = stars_in_rows(area, cursor, protected, cells, last);
    let here = stars_in_row(area, cursor, protected, row_cells, last, columns(area));
    if j < before.len() {
        law_stars_come_in_reading_order(area, cursor, protected, cells, last, i, j);
    } else {
        let there = j - before.len();
        assert(here.contains(here[there]));
        lemma_row_stars_are_open(
            area,
            cursor,
            protected,
            row_cells,
            last,
            columns(area),
            here[there],
        );
        if i < before.len() {
            assert(before.contains(before[i]));
            law_stars_cover_nothing(area, cursor, protected, cells, last, before[i]);
        } else {
            lemma_row_is_in_reading_order(
                area,
                cursor,
                protected,
                row_cells,
                last,
                columns(area),
                i - before.len(),
                there,
            );
        }
    }
}

} // verus!
