//! The two-layer chart editor: what each message does to the two grids,
//! the brush and the page mode, and what the shell has to do afterwards.

use crate::color::Color;
use crate::grids::flipped::FlippedGrid;
use crate::grids::gridtrait::{GridId, GridTrait, GridView};
use crate::grids::simplegrid::SimpleGrid;
use vstd::prelude::*;

verus! {

/// The number of rows of a new chart.
pub const GRID_HEIGHT: usize = 15;

/// The number of columns of a new chart.
pub const GRID_WIDTH: usize = 15;

/// What is saved of a session: the two layers.
pub struct Stored {
    pub front: SimpleGrid,
    pub back: SimpleGrid,
}

impl Default for Stored {
    /// Two blank layers of the default size.
    fn default() -> (stored: Self)
        ensures
            stored.front.wf(),
            stored.back.wf(),
            stored.front@ == GridView::filled(
                GridId::Front,
                GRID_HEIGHT as nat,
                GRID_WIDTH as nat,
                Color::White,
            ),
            stored.back@ == GridView::filled(
                GridId::Back,
                GRID_HEIGHT as nat,
                GRID_WIDTH as nat,
                Color::White,
            ),
    {
        Stored {
            front: SimpleGrid::new(GridId::Front, GRID_HEIGHT, GRID_WIDTH),
            back: SimpleGrid::new(GridId::Back, GRID_HEIGHT, GRID_WIDTH),
        }
    }
}

/// What the user did.
pub enum Msg {
    /// The pointer went down on the cell `(row, col)` of a layer.
    Down(GridId, usize, usize),
    /// The pointer went up.
    Up,
    /// The pointer entered the cell `(row, col)` of a layer.
    Enter(GridId, usize, usize),
    /// The pointer left a cell.
    Exit,
    /// The user switched between the input page and the printable page.
    TogglePrintable,
    /// The user asked for a layer to be wiped.
    Clear(GridId),
}

/// What the shell has to do after a message.
#[derive(Clone, Copy, PartialEq, Eq, Structural, Debug)]
pub struct Outcome {
    /// The layers are to be saved.
    pub save: bool,
    /// The page is to be rendered again.
    pub should_render: bool,
}

/// A session as a mathematical value.
pub ghost struct TwoPatternView {
    pub front: GridView<Color>,
    pub back: GridView<Color>,
    /// The mark that a drag paints, while the pointer is down.
    pub value: Option<Color>,
    pub printable_page: bool,
}

impl TwoPatternView {
    /// The layer that `id` names.
    pub open spec fn grid(self, id: GridId) -> GridView<Color> {
        match id {
            GridId::Front => self.front,
            GridId::Back => self.back,
        }
    }

    /// The session with the layer that `id` names replaced by `grid`.
    pub open spec fn with_grid(self, id: GridId, grid: GridView<Color>) -> TwoPatternView {
        match id {
            GridId::Front => TwoPatternView { front: grid, ..self },
            GridId::Back => TwoPatternView { back: grid, ..self },
        }
    }

    /// Whether `msg` can be applied: a message that paints a cell names a
    /// cell of its layer.
    pub open spec fn accepts(self, msg: Msg) -> bool {
        match msg {
            Msg::Down(id, row, col) => self.grid(id).in_bounds(row as int, col as int),
            Msg::Enter(id, row, col) => self.value is Some ==> self.grid(id).in_bounds(
                row as int,
                col as int,
            ),
            _ => true,
        }
    }

    /// The session after the pointer went down on `(row, col)`: the cell is
    /// toggled, and its new mark becomes the brush.
    pub open spec fn down(self, id: GridId, row: int, col: int) -> TwoPatternView {
        let value = self.grid(id).at(row, col).toggled();
        TwoPatternView { value: Some(value), ..self.with_grid(id, self.grid(id).write(row, col, value)) }
    }

    /// The session after the pointer entered `(row, col)`: the cell takes
    /// the brush, if there is one.
    pub open spec fn enter(self, id: GridId, row: int, col: int) -> TwoPatternView {
        match self.value {
            Some(value) => self.with_grid(id, self.grid(id).write(row, col, value)),
            None => self,
        }
    }

    /// The session after the layer that `id` names was wiped.
    pub open spec fn clear(self, id: GridId) -> TwoPatternView {
        let grid = self.grid(id);
        self.with_grid(id, GridView::filled(grid.id, grid.rows, grid.cols, Color::White))
    }

    /// The session after `msg`.
    pub open spec fn step(self, msg: Msg) -> TwoPatternView {
        match msg {
            Msg::Down(id, row, col) => self.down(id, row as int, col as int),
            Msg::Enter(id, row, col) => self.enter(id, row as int, col as int),
            Msg::Exit => self,
            Msg::Up => TwoPatternView { value: None, ..self },
            Msg::Clear(id) => self.clear(id),
            Msg::TogglePrintable => TwoPatternView {
                printable_page: !self.printable_page,
                ..self
            },
        }
    }

    /// What the shell has to do after `msg`: save when a stroke ends or a
    /// layer is wiped; render when something visible changed.
    pub open spec fn outcome(self, msg: Msg) -> Outcome {
        match msg {
            Msg::Down(_, _, _) => Outcome { save: false, should_render: true },
            Msg::Enter(_, _, _) => Outcome { save: false, should_render: self.value is Some },
            Msg::Exit => Outcome { save: false, should_render: false },
            Msg::Up => Outcome { save: true, should_render: false },
            Msg::Clear(_) => Outcome { save: true, should_render: true },
            Msg::TogglePrintable => Outcome { save: false, should_render: true },
        }
    }
}

/// An editing session over two layers.
pub struct TwoPattern {
    stored: Stored,
    value: Option<Color>,
    printable_page: bool,
}

impl View for TwoPattern {
    type V = TwoPatternView;

    closed spec fn view(&self) -> TwoPatternView {
        TwoPatternView {
            front: self.stored.front@,
            back: self.stored.back@,
            value: self.value,
            printable_page: self.printable_page,
        }
    }
}

impl TwoPattern {
    /// Both layers are well formed.
    pub closed spec fn wf(&self) -> bool {
        self.stored.front.wf() && self.stored.back.wf()
    }

    /// A session over the given layers, on the input page, with the pointer
    /// up.
    pub fn new(stored: Stored) -> (session: TwoPattern)
        requires
            stored.front.wf(),
            stored.back.wf(),
        ensures
            session.wf(),
            session@ == (TwoPatternView {
                front: stored.front@,
                back: stored.back@,
                value: None,
                printable_page: false,
            }),
    {
        TwoPattern { stored, value: None, printable_page: false }
    }

    /// The two layers, as they are to be saved.
    pub fn stored(&self) -> (stored: &Stored)
        requires
            self.wf(),
        ensures
            stored.front.wf(),
            stored.back.wf(),
            stored.front@ == self@.front,
            stored.back@ == self@.back,
    {
        &self.stored
    }

    /// The mark that a drag paints, while the pointer is down.
    pub fn value(&self) -> (value: Option<Color>)
        ensures
            value == self@.value,
    {
        self.value
    }

    /// Whether the printable page is shown.
    pub fn printable_page(&self) -> (printable: bool)
        ensures
            printable == self@.printable_page,
    {
        self.printable_page
    }

    /// The layer that `id` names.
    pub fn grid_by_id(&self, id: GridId) -> (grid: &SimpleGrid)
        requires
            self.wf(),
        ensures
            grid.wf(),
            grid@ == self@.grid(id),
    {
        match id {
            GridId::Front => &self.stored.front,
            GridId::Back => &self.stored.back,
        }
    }

    /// The layer that `id` names, to write to.
    pub fn grid_by_id_mut(&mut self, id: GridId) -> (grid: &mut SimpleGrid)
        requires
            old(self).wf(),
        ensures
            grid.wf(),
            grid@ == old(self)@.grid(id),
            final(grid).wf() ==> final(self).wf(),
            final(self)@ == old(self)@.with_grid(id, final(grid)@),
    {
        match id {
            GridId::Front => &mut self.stored.front,
            GridId::Back => &mut self.stored.back,
        }
    }

    /// What the reference card shows: nothing on the input page; on the
    /// printable page the first layer as it is, and the second layer as
    /// seen from behind.
    pub fn reference_card(&self) -> (card: Option<(&SimpleGrid, FlippedGrid<'_, SimpleGrid>)>)
        requires
            self.wf(),
        ensures
            card is Some <==> self@.printable_page,
            card matches Some((front, back)) ==> {
                &&& front.wf()
                &&& front@ == self@.front
                &&& back.wf()
                &&& back@ == self@.back.mirrored()
            },
    {
        if !self.printable_page {
            None
        } else {
            let flipped = FlippedGrid::new(&self.stored.back);
            Some((&self.stored.front, flipped))
        }
    }

    /// The pointer went down on a cell: toggles it, and takes its new mark
    /// as the brush.
    pub fn msg_down(&mut self, id: GridId, row: usize, col: usize) -> (should_render: bool)
        requires
            old(self).wf(),
            old(self)@.grid(id).in_bounds(row as int, col as int),
        ensures
            final(self).wf(),
            final(self)@ == old(self)@.down(id, row as int, col as int),
            should_render,
    {
        let grid = self.grid_by_id_mut(id);
        let value = grid.cell(row, col).toggle();
        let _ = grid.set_cell(row, col, value);
        self.value = Some(value);

        true
    }

    /// The pointer entered a cell: paints it with the brush, if the
    /// pointer is down.
    pub fn msg_enter(&mut self, id: GridId, row: usize, col: usize) -> (should_render: bool)
        requires
            old(self).wf(),
            old(self)@.value is Some ==> old(self)@.grid(id).in_bounds(row as int, col as int),
        ensures
            final(self).wf(),
            final(self)@ == old(self)@.enter(id, row as int, col as int),
            should_render == old(self)@.value is Some,
    {
        if let Some(value) = self.value {
            let grid = self.grid_by_id_mut(id);
            let _ = grid.set_cell(row, col, value);
            true
        } else {
            false
        }
    }

    /// The pointer left a cell: nothing to do.
    pub fn msg_exit(&self) -> (should_render: bool)
        ensures
            !should_render,
    {
        false
    }

    /// The pointer went up: the stroke is over.
    pub fn msg_up(&mut self) -> (should_render: bool)
        ensures
            final(self).wf() == old(self).wf(),
            final(self)@ == (TwoPatternView { value: None, ..old(self)@ }),
            !should_render,
    {
        self.value = None;
        false
    }

    /// Wipes the layer that `grid_id` names.
    pub fn msg_clear(&mut self, grid_id: GridId) -> (should_render: bool)
        requires
            old(self).wf(),
        ensures
            final(self).wf(),
            final(self)@ == old(self)@.clear(grid_id),
            should_render,
    {
        let grid = self.grid_by_id_mut(grid_id);
        let _ = grid.clear();
        true
    }

    /// Switches between the input page and the printable page.
    pub fn msg_toggle_printable(&mut self) -> (should_render: bool)
        ensures
            final(self).wf() == old(self).wf(),
            final(self)@ == (TwoPatternView {
                printable_page: !old(self)@.printable_page,
                ..old(self)@
            }),
            should_render,
    {
        self.printable_page = !self.printable_page;
        true
    }

    /// Applies `msg`, and says what the shell has to do afterwards.
    pub fn update(&mut self, msg: Msg) -> (outcome: Outcome)
        requires
            old(self).wf(),
            old(self)@.accepts(msg),
        ensures
            final(self).wf(),
            final(self)@ == old(self)@.step(msg),
            outcome == old(self)@.outcome(msg),
    {
        let (save, should_render) = match msg {
            Msg::Down(id, row, col) => (false, self.msg_down(id, row, col)),
            Msg::Enter(id, row, col) => (false, self.msg_enter(id, row, col)),
            Msg::Exit => (false, self.msg_exit()),
            Msg::Up => (true, self.msg_up()),
            Msg::Clear(grid_id) => (true, self.msg_clear(grid_id)),
            Msg::TogglePrintable => (false, self.msg_toggle_printable()),
        };
        Outcome { save, should_render }
    }

    /// Whether `msg` can be applied: what a caller asks before `update`.
    pub fn accepts(&self, msg: &Msg) -> (ok: bool)
        requires
            self.wf(),
        ensures
            ok == self@.accepts(*msg),
    {
        match msg {
            Msg::Down(id, row, col) => {
                let grid = self.grid_by_id(*id);
                *row < grid.num_rows() && *col < grid.num_cols()
            },
            Msg::Enter(id, row, col) => {
                let grid = self.grid_by_id(*id);
                self.value.is_none() || (*row < grid.num_rows() && *col < grid.num_cols())
            },
            _ => true,
        }
    }
}

} // verus!
