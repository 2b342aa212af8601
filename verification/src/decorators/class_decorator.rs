//! Class decoration: the class tokens of a cell, and the stylesheet rules
//! that the tokens depend on.

pub mod borderedcell;

use crate::color::Color;
use crate::decorators::cssmunger::{CssMunger, DecoratorKind, MungerView};
use crate::grids::gridtrait::{GridTrait, GridView};
use vstd::prelude::*;

pub use borderedcell::{BorderedCellDecorator, ThickBorders};

verus! {

/// Decides the class tokens of each cell.
///
/// A decorator belongs to a kind. Its registration inserts the rules of the
/// kind into the stylesheet the first time any decorator of that kind
/// registers, and never again.
pub trait ClassDecorator {
    /// The kind that the registration guard is keyed by.
    spec fn kind(&self) -> DecoratorKind;

    /// The rules that the kind's classes depend on, in insertion order.
    spec fn rules(&self) -> Seq<Seq<char>>;

    /// The class tokens of the cell at `(row, col)` that holds `contents`.
    spec fn classes(&self, grid: GridView<Color>, row: int, col: int, contents: Color) -> Seq<
        Seq<char>,
    >;

    /// Inserts the rules of the kind, unless the kind has registered before.
    fn register(&self, munger: &mut CssMunger)
        ensures
            final(munger)@ == old(munger)@.register_once(self.kind(), self.rules()),
    ;

    /// The class tokens to attach to the cell at `(row, col)`.
    fn cell_class<G: GridTrait + ?Sized>(
        &self,
        grid: &G,
        row: usize,
        col: usize,
        contents: Color,
    ) -> (classes: Vec<&'static str>)
        requires
            grid.wf(),
            grid@.in_bounds(row as int, col as int),
        ensures
            classes.deep_view() == self.classes(grid@, row as int, col as int, contents),
    ;
}

/// Zero or more class decorators, in attachment order: `()` is none, and
/// `(first, rest)` is `first` followed by those of `rest`.
pub trait ClassDecorators {
    /// The sink after each decorator has registered, the first one first.
    spec fn registration(&self, munger: MungerView) -> MungerView;

    /// The class tokens of every decorator for one cell, concatenated in
    /// attachment order.
    spec fn merged_classes(
        &self,
        grid: GridView<Color>,
        row: int,
        col: int,
        contents: Color,
    ) -> Seq<Seq<char>>;

    /// Registration takes nothing back: the kinds that had registered stay
    /// registered, and the rules that were in stay where they are.
    proof fn lemma_registration_grows(&self, munger: MungerView)
        ensures
            munger.registered.subset_of(self.registration(munger).registered),
            munger.rules.is_prefix_of(self.registration(munger).rules),
    ;

    /// Registering the same decorators again, any number of times, for any
    /// number of tables, inserts nothing more.
    proof fn lemma_registration_idempotent(&self, munger: MungerView)
        ensures
            self.registration(self.registration(munger)) == self.registration(munger),
    ;

    /// Registers each decorator, the first one first.
    fn register_all(&self, munger: &mut CssMunger)
        ensures
            final(munger)@ == self.registration(old(munger)@),
    ;

    /// The merged class tokens to attach to the cell at `(row, col)`.
    fn merged_cell_class<G: GridTrait + ?Sized>(
        &self,
        grid: &G,
        row: usize,
        col: usize,
        contents: Color,
    ) -> (classes: Vec<&'static str>)
        requires
            grid.wf(),
            grid@.in_bounds(row as int, col as int),
        ensures
            classes.deep_view() == self.merged_classes(grid@, row as int, col as int, contents),
    ;
}

impl ClassDecorators for () {
    open spec fn registration(&self, munger: MungerView) -> MungerView {
        munger
    }

    open spec fn merged_classes(
        &self,
        grid: GridView<Color>,
        row: int,
        col: int,
        contents: Color,
    ) -> Seq<Seq<char>> {
        Seq::empty()
    }

    proof fn lemma_registration_grows(&self, munger: MungerView) {
    }

    proof fn lemma_registration_idempotent(&self, munger: MungerView) {
    }

    fn register_all(&self, munger: &mut CssMunger) {
    }

    fn merged_cell_class<G: GridTrait + ?Sized>(
        &self,
        grid: &G,
        row: usize,
        col: usize,
        contents: Color,
    ) -> (classes: Vec<&'static str>) {
        let classes: Vec<&'static str> = Vec::new();
        assert(classes.deep_view() =~= Seq::<Seq<char>>::empty());
        classes
    }
}

impl<D: ClassDecorator, R: ClassDecorators> ClassDecorators for (D, R) {
    open spec fn registration(&self, munger: MungerView) -> MungerView {
        self.1.registration(munger.register_once(self.0.kind(), self.0.rules()))
    }

    open spec fn merged_classes(
        &self,
        grid: GridView<Color>,
        row: int,
        col: int,
        contents: Color,
    ) -> Seq<Seq<char>> {
        self.0.classes(grid, row, col, contents) + self.1.merged_classes(grid, row, col, contents)
    }

    proof fn lemma_registration_grows(&self, munger: MungerView) {
        let first = munger.register_once(self.0.kind(), self.0.rules());
        self.1.lemma_registration_grows(first);
    }

    proof fn lemma_registration_idempotent(&self, munger: MungerView) {
        let first = munger.register_once(self.0.kind(), self.0.rules());
        let all = self.1.registration(first);
        self.1.lemma_registration_grows(first);
        assert(all.registered.contains(self.0.kind()));
        assert(all.register_once(self.0.kind(), self.0.rules()) == all);
        self.1.lemma_registration_idempotent(first);
    }

    fn register_all(&self, munger: &mut CssMunger) {
        self.0.register(munger);
        self.1.register_all(munger);
    }

    fn merged_cell_class<G: GridTrait + ?Sized>(
        &self,
        grid: &G,
        row: usize,
        col: usize,
        contents: Color,
    ) -> (classes: Vec<&'static str>) {
        let mut classes = self.0.cell_class(grid, row, col, contents);
        let mut rest = self.1.merged_cell_class(grid, row, col, contents);
        let ghost head = classes.deep_view();
        let ghost tail = rest.deep_view();
        classes.append(&mut rest);
        assert(classes.deep_view() =~= head + tail);
        classes
    }
}

} // verus!
