use vstd::prelude::*;

verus! {

/// The most cells that a board has along one side. A cell is twenty pixels
/// wide and high, and pixel coordinates must reach one cell beyond the last.
pub const MAX_SIDE: usize = 107_374_180;

/// The cell column or row that a pixel coordinate lies in. Coordinates left
/// of the board or above it lie in column or row zero until a whole cell
/// separates them from it.
pub open spec fn cell_of(pixel: int) -> int {
    if pixel >= 0 {
        pixel / 20
    } else {
        -((-pixel) / 20)
    }
}

/// The index of the cell at the pixel `(x, y)` on a board of `width` by
/// `height` cells, which are kept column by column: none right of the board
/// or below it, and none where the count comes out negative.
pub open spec fn cell_index(width: int, height: int, x: int, y: int) -> Option<int> {
    if cell_of(x) < width && cell_of(y) < height && cell_of(y) + cell_of(x) * height >= 0 {
        Some(cell_of(y) + cell_of(x) * height)
    } else {
        None
    }
}

/// A board as the contracts see it.
pub struct BoardView {
    pub cells: Seq<bool>,
    pub width: int,
    pub height: int,
}

impl BoardView {
    pub open spec fn wf(self) -> bool {
        &&& 0 <= self.width <= MAX_SIDE
        &&& 0 <= self.height <= MAX_SIDE
        &&& self.cells.len() == self.width * self.height
    }

    /// The cell at the pixel `(x, y)`, where there is one.
    pub open spec fn at(self, x: int, y: int) -> Option<bool> {
        match cell_index(self.width, self.height, x, y) {
            Some(idx) => Some(self.cells[idx]),
            None => None,
        }
    }

    /// Whether a live cell is found at the pixel `(x, y)`.
    pub open spec fn alive(self, x: int, y: int) -> bool {
        self.at(x, y) == Some(true)
    }

    /// The column and row of the cell with the given index, in that order of
    /// a point's coordinates in which the row comes first.
    pub open spec fn coords(self, idx: int) -> Option<(int, int)> {
        if 0 <= idx < self.cells.len() {
            Some((idx % self.height, idx / self.height))
        } else {
            None
        }
    }

    /// The eight cells around the cell `coords`, each alive or not; a
    /// neighbour that the board does not hold is not alive.
    pub open spec fn neighborhood(self, coords: (int, int)) -> Seq<bool> {
        let y = coords.0;
        let x = coords.1;
        seq![
            self.alive((x - 1) * 20, (y - 1) * 20),
            self.alive((x - 1) * 20, y * 20),
            self.alive((x - 1) * 20, (y + 1) * 20),
            self.alive(x * 20, (y - 1) * 20),
            self.alive(x * 20, (y + 1) * 20),
            self.alive((x + 1) * 20, (y - 1) * 20),
            self.alive((x + 1) * 20, y * 20),
            self.alive((x + 1) * 20, (y + 1) * 20),
        ]
    }

    /// Whether the cell with the given index lives on: with three live
    /// neighbours any cell does, with two a cell that lives already, and with
    /// fewer or more none.
    pub open spec fn next_state(self, idx: int) -> bool {
        let coords = match self.coords(idx) {
            Some(coords) => coords,
            None => (0int, 0int),
        };
        let live = live_count(self.neighborhood(coords));
        live == 3 || (live == 2 && self.alive(coords.1 * 20, coords.0 * 20))
    }
}

/// How many of the cells are alive.
pub open spec fn live_count(cells: Seq<bool>) -> int
    decreases cells.len(),
{
    if cells.len() == 0 {
        0
    } else {
        live_count(cells.drop_last()) + if cells.last() {
            1int
        } else {
            0int
        }
    }
}

pub struct Board {
    cells: Vec<bool>,
    width: usize,
    height: usize,
}

impl View for Board {
    type V = BoardView;

    closed spec fn view(&self) -> BoardView {
        BoardView { cells: self.cells@, width: self.width as int, height: self.height as int }
    }
}

impl Board {
    pub open spec fn wf(&self) -> bool {
        self@.wf()
    }

    /// A board of `width` by `height` cells, none of them alive.
    pub fn new(width: usize, height: usize) -> (board: Board)
        requires
            width <= MAX_SIDE,
            height <= MAX_SIDE,
            width * height <= usize::MAX,
        ensures
            board.wf(),
            board@.width == width,
            board@.height == height,
            forall|i: int| 0 <= i < board@.cells.len() ==> !board@.cells[i],
    {
        assert(height * width == width * height) by (nonlinear_arith);
        Board { cells: vec![false; height * width], width, height }
    }

    pub fn clone(&self) -> (copy: Board)
        ensures
            copy@ == self@,
    {
        Board { cells: self.cells.clone(), width: self.width, height: self.height }
    }

    pub fn coords_to_cell_idx(&self, x: i32, y: i32) -> (idx: Option<usize>)
        requires
            self.wf(),
        ensures
            match idx {
                Some(i) => cell_index(self@.width, self@.height, x as int, y as int) == Some(
                    i as int,
                ) && i < self@.cells.len(),
                None => cell_index(self@.width, self@.height, x as int, y as int) is None,
            },
    {
        let cells: usize = self.cells.len();
        let column: i64 = (x / 20) as i64;
        let row: i64 = (y / 20) as i64;
        let width: i64 = self.width as i64;
        let height: i64 = self.height as i64;
        if column < width && row < height {
            assert(-107_374_182 * 107_374_180 <= column * height <= 107_374_182 * 107_374_180)
                by (nonlinear_arith)
                requires
                    -107_374_182 <= column <= 107_374_182,
                    0 <= height <= 107_374_180,
            ;
            let idx: i64 = row + column * height;
            if idx >= 0 {
                proof {
                    if column >= 0 {
                        assert(column * height + height <= width * height) by (nonlinear_arith)
                            requires
                                column + 1 <= width,
                                0 <= height,
                        ;
                    } else {
                        assert(column * height <= -height) by (nonlinear_arith)
                            requires
                                column <= -1,
                                0 <= height,
                        ;
                    }
                }
                Some(idx as usize)
            } else {
                None
            }
        } else {
            None
        }
    }

    pub fn get(&self, x: i32, y: i32) -> (cell: Option<bool>)
        requires
            self.wf(),
        ensures
            cell == self@.at(x as int, y as int),
    {
        match self.coords_to_cell_idx(x, y) {
            Some(idx) => Some(self.cells[idx]),
            None => None,
        }
    }

    pub fn set(&mut self, x: i32, y: i32, new_val: bool)
        requires
            old(self).wf(),
            cell_index(old(self)@.width, old(self)@.height, x as int, y as int) is Some,
        ensures
            final(self).wf(),
            final(self)@.width == old(self)@.width,
            final(self)@.height == old(self)@.height,
            final(self)@.cells == old(self)@.cells.update(
                cell_index(old(self)@.width, old(self)@.height, x as int, y as int)->0,
                new_val,
            ),
    {
        match self.coords_to_cell_idx(x, y) {
            Some(idx) => {
                self.cells[idx] = new_val;
            },
            None => {},
        }
    }

    /// Turns the cell at the pixel `(x, y)` from dead to alive or back.
    pub fn invert(&mut self, x: i32, y: i32)
        requires
            old(self).wf(),
            cell_index(old(self)@.width, old(self)@.height, x as int, y as int) is Some,
        ensures
            final(self).wf(),
            final(self)@.width == old(self)@.width,
            final(self)@.height == old(self)@.height,
            final(self)@.cells == old(self)@.cells.update(
                cell_index(old(self)@.width, old(self)@.height, x as int, y as int)->0,
                !old(self)@.cells[cell_index(
                    old(self)@.width,
                    old(self)@.height,
                    x as int,
                    y as int,
                )->0],
            ),
    {
        match self.get(x, y) {
            Some(cell) => self.set(x, y, !cell),
            None => {},
        }
    }

    pub fn cell_idx_to_coords(&self, idx: usize) -> (coords: Option<(i32, i32)>)
        requires
            self.wf(),
        ensures
            match coords {
                Some(c) => self@.coords(idx as int) == Some((c.0 as int, c.1 as int)) && 0 <= c.0
                    < self@.height && 0 <= c.1 < self@.width,
                None => self@.coords(idx as int) is None,
            },
    {
        if idx < self.cells.len() {
            let height: usize = self.height;
            let width: usize = self.width;
            assert(height > 0 && idx / height < width) by (nonlinear_arith)
                requires
                    0 <= idx < width * height,
                    0 <= height,
                    0 <= width,
            ;
            let x: i32 = (idx % height) as i32;
            let y: i32 = (idx / height) as i32;
            Some((x, y))
        } else {
            None
        }
    }

    pub fn width(&self) -> (width: usize)
        ensures
            width == self@.width,
    {
        self.width
    }

    pub fn height(&self) -> (height: usize)
        ensures
            height == self@.height,
    {
        self.height
    }

    pub fn cells(&self) -> (cells: &Vec<bool>)
        ensures
            cells@ == self@.cells,
    {
        &self.cells
    }
}

fn is_alive(board: &Board, x: i32, y: i32) -> (alive: bool)
    requires
        board.wf(),
    ensures
        alive == board@.alive(x as int, y as int),
{
    match board.get(x, y) {
        Some(cell) => cell,
        None => false,
    }
}

/// The rules of the game of life.
pub struct Simulator {}

impl Simulator {
    pub fn new() -> Simulator {
        Simulator {  }
    }

    /// The board one generation on.
    pub fn step(&mut self, board: &Board) -> (next: Board)
        requires
            board.wf(),
        ensures
            next.wf(),
            next@.width == board@.width,
            next@.height == board@.height,
            forall|i: int|
                0 <= i < board@.cells.len() ==> next@.cells[i] == #[trigger] board@.next_state(i),
    {
        let mut new_board = board.clone();
        let mut i: usize = 0;
        while i < board.cells.len()
            invariant
                board.wf(),
                i <= board.cells.len(),
                new_board.cells@.len() == board.cells@.len(),
                new_board.width == board.width,
                new_board.height == board.height,
                forall|j: int| 0 <= j < i ==> new_board.cells@[j] == #[trigger] board@.next_state(j),
            decreases board.cells.len() - i,
        {
            let alive = self.new_state(board, i);
            new_board.cells[i] = alive;
            i = i + 1;
        }
        new_board
    }

    pub fn generate_neighborhood(&self, board: &Board, coords: (i32, i32)) -> (around: Vec<bool>)
        requires
            board.wf(),
            0 <= coords.0 <= MAX_SIDE,
            0 <= coords.1 <= MAX_SIDE,
        ensures
            around@ == board@.neighborhood((coords.0 as int, coords.1 as int)),
    {
        let y: i32 = coords.0;
        let x: i32 = coords.1;
        let around = vec![
            is_alive(board, (x - 1) * 20, (y - 1) * 20),
            is_alive(board, (x - 1) * 20, y * 20),
            is_alive(board, (x - 1) * 20, (y + 1) * 20),
            is_alive(board, x * 20, (y - 1) * 20),
            is_alive(board, x * 20, (y + 1) * 20),
            is_alive(board, (x + 1) * 20, (y - 1) * 20),
            is_alive(board, (x + 1) * 20, y * 20),
            is_alive(board, (x + 1) * 20, (y + 1) * 20),
        ];
        assert(around@ =~= board@.neighborhood((coords.0 as int, coords.1 as int)));
        around
    }

    pub fn new_state(&self, board: &Board, cell_idx: usize) -> (alive: bool)
        requires
            board.wf(),
        ensures
            alive == board@.next_state(cell_idx as int),
    {
        let coords: (i32, i32) = match board.cell_idx_to_coords(cell_idx) {
            Some(coords) => coords,
            None => (0, 0),
        };
        let around = self.generate_neighborhood(board, coords);
        let live_neighbors = count_live(&around);
        if live_neighbors < 2 || live_neighbors > 3 {
            false
        } else if (live_neighbors == 2 && is_alive(board, coords.1 * 20, coords.0 * 20))
            || live_neighbors == 3 {
            true
        } else {
            false
        }
    }
}

/// How many of the cells are alive.
pub fn count_live(cells: &Vec<bool>) -> (live: usize)
    ensures
        live == live_count(cells@),
{
    let mut live: usize = 0;
    let mut i: usize = 0;
    while i < cells.len()
        invariant
            i <= cells.len(),
            live == live_count(cells@.take(i as int)),
            live <= i,
        decreases cells.len() - i,
    {
        assert(cells@.take(i + 1).drop_last() =~= cells@.take(i as int));
        if cells[i] {
            live = live + 1;
        }
        i = i + 1;
    }
    assert(cells@.take(i as int) =~= cells@);
    live
}

} // verus!
