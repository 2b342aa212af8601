//! Decorators: what a cell, a row or a column of a grid looks like in a
//! table, and the stylesheet rules that the looks depend on.

pub mod class_decorator;
pub mod cssmunger;
pub mod label_decorator;
pub mod style_decorator;

pub use cssmunger::{CssMunger, DecoratorKind, MungerView};
pub use class_decorator::{BorderedCellDecorator, ClassDecorator, ClassDecorators, ThickBorders};
pub use style_decorator::{ColorDecorator, PlainStyle, StyleDecorator};
pub use label_decorator::{EmptyLabels, LabelDecorator, RoundLabels};
