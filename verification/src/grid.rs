//! The grid buffer: the cells of the board, written a whole row at a time.

use vstd::prelude::*;
use crate::convert::{is_code, is_valid_code, BLANK};

verus! {

/// The number of rows of the board.
pub const ROWS: usize = 6;

/// The number of columns of the board.
pub const COLS: usize = 22;

/// Whether `row` can be a row of the board: `COLS` cells, each a code of the board.
pub open spec fn is_row(row: Seq<i32>) -> bool {
    &&& row.len() == COLS
    &&& forall|c: int| 0 <= c < row.len() ==> is_code(#[trigger] row[c] as int)
}

/// Whether `cells` can be the cells of the board: `ROWS` rows.
pub open spec fn is_board(cells: Seq<Seq<i32>>) -> bool {
    &&& cells.len() == ROWS
    &&& forall|r: int| 0 <= r < cells.len() ==> is_row(#[trigger] cells[r])
}

/// A row of blanks.
pub open spec fn blank_row() -> Seq<i32> {
    Seq::new(COLS as nat, |c: int| BLANK)
}

/// A board of blanks.
pub open spec fn blank_board() -> Seq<Seq<i32>> {
    Seq::new(ROWS as nat, |r: int| blank_row())
}

/// A run of rows that belongs to one feed.
#[derive(Clone, Copy, Debug, PartialEq, Eq, Structural)]
pub enum Region {
    /// The first row: the clock, and at its end the temperature.
    Clock,
    /// The third to fifth row: the music feed.
    NowPlaying,
}

impl Region {
    /// The first row of the region.
    pub open spec fn first_row(self) -> int {
        match self {
            Region::Clock => 0,
            Region::NowPlaying => 2,
        }
    }

    /// The last row of the region.
    pub open spec fn last_row(self) -> int {
        match self {
            Region::Clock => 0,
            Region::NowPlaying => 4,
        }
    }

    /// Whether row `r` belongs to the region.
    pub open spec fn holds(self, r: int) -> bool {
        self.first_row() <= r <= self.last_row()
    }

    /// Whether row `r` belongs to the region.
    pub fn contains(&self, r: usize) -> (inside: bool)
        ensures
            inside == self.holds(r as int),
    {
        match self {
            Region::Clock => r == 0,
            Region::NowPlaying => 2 <= r && r <= 4,
        }
    }
}

/// Every region lies on the board, and no row belongs to two regions.
pub proof fn lemma_regions_are_apart(a: Region, b: Region, r: int)
    ensures
        0 <= a.first_row() <= a.last_row() < ROWS,
        a != b ==> !(a.holds(r) && b.holds(r)),
{
}

/// `cells` with the rows of `region` blank.
pub open spec fn cleared(cells: Seq<Seq<i32>>, region: Region) -> Seq<Seq<i32>> {
    Seq::new(
        cells.len(),
        |r: int|
            if region.holds(r) {
                blank_row()
            } else {
                cells[r]
            },
    )
}

/// Why a row was not written.
#[derive(Clone, Copy, Debug, PartialEq, Eq, Structural)]
pub enum GridError {
    /// The board has no row of that index.
    NoSuchRow,
    /// The row does not have `COLS` cells.
    WrongWidth,
    /// A cell of the row holds a value that is no code of the board.
    UnknownCode,
}

/// The cells of the board. It always has `ROWS` rows of `COLS` codes.
#[derive(Debug, PartialEq, Eq)]
pub struct Grid {
    rows: Vec<Vec<i32>>,
}

impl View for Grid {
    type V = Seq<Seq<i32>>;

    closed spec fn view(&self) -> Seq<Seq<i32>> {
        Seq::new(self.rows@.len(), |r: int| self.rows@[r]@)
    }
}

/// A row of `COLS` blanks.
pub fn new_blank_row() -> (row: Vec<i32>)
    ensures
        row@ == blank_row(),
        is_row(row@),
{
    let mut row: Vec<i32> = Vec::new();
    let mut c: usize = 0;
    while c < COLS
        invariant
            c <= COLS,
            row@.len() == c,
            forall|k: int| 0 <= k < c ==> row@[k] == BLANK,
        decreases COLS - c,
    {
        row.push(BLANK);
        c += 1;
    }
    row
}

/// Whether `row` can be a row of the board, and why not.
pub fn check_row(row: &Vec<i32>) -> (checked: Result<(), GridError>)
    ensures
        checked is Ok <==> is_row(row@),
        checked == Err::<(), GridError>(GridError::WrongWidth) <==> row@.len() != COLS,
        checked == Err::<(), GridError>(GridError::UnknownCode) <==> row@.len() == COLS
            && !is_row(row@),
{
    if row.len() != COLS {
        return Err(GridError::WrongWidth);
    }
    let mut c: usize = 0;
    while c < COLS
        invariant
            c <= COLS,
            row@.len() == COLS,
            forall|k: int| 0 <= k < c ==> is_code(#[trigger] row@[k] as int),
        decreases COLS - c,
    {
        if !is_valid_code(row[c]) {
            return Err(GridError::UnknownCode);
        }
        c += 1;
    }
    Ok(())
}

impl Grid {
    /// What holds of every grid: it has `ROWS` rows that fit the board.
    #[verifier::type_invariant]
    pub closed spec fn inv(self) -> bool {
        &&& self.rows@.len() == ROWS
        &&& forall|r: int| 0 <= r < self.rows@.len() ==> is_row(#[trigger] self.rows@[r]@)
    }

    /// The cells of a grid form a board.
    pub proof fn lemma_is_board(self)
        requires
            self.inv(),
        ensures
            is_board(self@),
    {
    }

    /// A board of blanks.
    pub fn new() -> (grid: Grid)
        ensures
            grid@ == blank_board(),
            is_board(grid@),
    {
        let mut rows: Vec<Vec<i32>> = Vec::new();
        let mut r: usize = 0;
        while r < ROWS
            invariant
                r <= ROWS,
                rows@.len() == r,
                forall|k: int| 0 <= k < r ==> (#[trigger] rows@[k])@ == blank_row(),
            decreases ROWS - r,
        {
            rows.push(new_blank_row());
            r += 1;
        }
        let grid = Grid { rows };
        grid
    }

    /// The row of index `r`, if the board has one.
    pub fn row(&self, r: usize) -> (row: Option<&Vec<i32>>)
        ensures
            r < ROWS ==> row is Some && row.unwrap()@ == self@[r as int] && is_row(
                row.unwrap()@,
            ),
            r >= ROWS ==> row is None,
            is_board(self@),
    {
        proof {
            use_type_invariant(self);
        }
        if r < ROWS {
            Some(&self.rows[r])
        } else {
            None
        }
    }

    /// The row of index `r` of a board that is known to have one.
    pub(crate) fn row_at(&self, r: usize) -> (row: &Vec<i32>)
        requires
            r < ROWS,
        ensures
            row@ == self@[r as int],
            is_row(row@),
            is_board(self@),
    {
        proof {
            use_type_invariant(self);
        }
        &self.rows[r]
    }

    /// Replaces the whole row of index `r`, where `row` is known to fit. The
    /// rows are put together anew, so that the board never holds a row that
    /// is half written.
    pub(crate) fn put_row(&mut self, r: usize, row: Vec<i32>)
        requires
            r < ROWS,
            is_row(row@),
        ensures
            final(self)@ == old(self)@.update(r as int, row@),
            is_board(old(self)@),
            is_board(final(self)@),
    {
        proof {
            use_type_invariant(&*self);
        }
        let mut rows: Vec<Vec<i32>> = Vec::new();
        let mut k: usize = 0;
        while k < ROWS
            invariant
                k <= ROWS,
                r < ROWS,
                is_row(row@),
                self.rows@.len() == ROWS,
                forall|i: int| 0 <= i < ROWS ==> is_row(#[trigger] self.rows@[i]@),
                rows@.len() == k,
                forall|i: int|
                    0 <= i < k ==> (#[trigger] rows@[i])@ == if i == r {
                        row@
                    } else {
                        self.rows@[i]@
                    },
            decreases ROWS - k,
        {
            if k == r {
                rows.push(row.clone());
            } else {
                rows.push(self.rows[k].clone());
            }
            k += 1;
        }
        self.rows = rows;
    }

    /// Replaces the whole row of index `r` by `row`. A row that does not fit
    /// the board is refused, and the board stays as it was.
    pub fn set_row(&mut self, r: usize, row: Vec<i32>) -> (written: Result<(), GridError>)
        ensures
            written is Ok <==> r < ROWS && is_row(row@),
            written is Ok ==> final(self)@ == old(self)@.update(r as int, row@),
            written is Err ==> final(self)@ == old(self)@,
            written == Err::<(), GridError>(GridError::NoSuchRow) <==> r >= ROWS,
            written == Err::<(), GridError>(GridError::WrongWidth) <==> r < ROWS && row@.len()
                != COLS,
            written == Err::<(), GridError>(GridError::UnknownCode) <==> r < ROWS && row@.len()
                == COLS && !is_row(row@),
            is_board(old(self)@),
            is_board(final(self)@),
    {
        proof {
            use_type_invariant(&*self);
        }
        if r >= ROWS {
            return Err(GridError::NoSuchRow);
        }
        match check_row(&row) {
            Ok(()) => {
                self.put_row(r, row);
                Ok(())
            },
            Err(e) => Err(e),
        }
    }

    /// Blanks the rows of `region`, as far as the board has them, and leaves
    /// every other row as it was.
    pub fn clear(&mut self, region: Region)
        ensures
            final(self)@ == cleared(old(self)@, region),
    {
        proof {
            use_type_invariant(&*self);
        }
        let mut rows: Vec<Vec<i32>> = Vec::new();
        let mut k: usize = 0;
        while k < ROWS
            invariant
                k <= ROWS,
                self.rows@.len() == ROWS,
                forall|i: int| 0 <= i < ROWS ==> is_row(#[trigger] self.rows@[i]@),
                rows@.len() == k,
                forall|i: int|
                    0 <= i < k ==> (#[trigger] rows@[i])@ == if region.holds(i) {
                        blank_row()
                    } else {
                        self.rows@[i]@
                    },
            decreases ROWS - k,
        {
            if region.contains(k) {
                rows.push(new_blank_row());
            } else {
                rows.push(self.rows[k].clone());
            }
            k += 1;
        }
        self.rows = rows;
    }

    /// A copy of the cells, row by row, as the display takes them.
    pub fn to_rows(&self) -> (rows: Vec<Vec<i32>>)
        ensures
            rows.deep_view() == self@,
            is_board(self@),
    {
        proof {
            use_type_invariant(self);
        }
        let mut rows: Vec<Vec<i32>> = Vec::new();
        let mut r: usize = 0;
        while r < ROWS
            invariant
                r <= ROWS,
                self.rows@.len() == ROWS,
                rows@.len() == r,
                forall|k: int| 0 <= k < r ==> (#[trigger] rows@[k])@ == self.rows@[k]@,
            decreases ROWS - r,
        {
            rows.push(self.rows[r].clone());
            r += 1;
        }
        assert(rows.deep_view() =~~= self@);
        rows
    }
}

} // verus!
