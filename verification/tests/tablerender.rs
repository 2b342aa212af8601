use gridchart::color::Color;
use gridchart::decorators::{
    BorderedCellDecorator, ColorDecorator, CssMunger, EmptyLabels, PlainStyle, RoundLabels,
    ThickBorders,
};
use gridchart::grids::{FlippedGrid, GridId, GridTrait, SimpleGrid};
use gridchart::tablerender::{
    render_full_row, render_row, render_table, GridRenderer, TableRenderer,
};

fn red_on_black() -> ColorDecorator {
    ColorDecorator { color: Color::Black, declarations: vec!["color: red"] }
}

fn chart() -> SimpleGrid {
    let mut grid = SimpleGrid::new(GridId::Front, 2, 3);
    assert_eq!(grid.set_cell(0, 1, Color::Black), Ok(()));
    assert_eq!(grid.set_cell(1, 2, Color::Black), Ok(()));
    grid
}

#[test]
fn table_has_one_row_for_each_grid_row() {
    let grid = chart();
    let mut munger = CssMunger::new();
    let renderer =
        GridRenderer::new(&grid, (), None::<PlainStyle>, EmptyLabels, vec![], &mut munger);
    assert_eq!(renderer.num_data_rows(), 2);
    assert_eq!(renderer.num_data_cols(), 3);
    let table = render_table(renderer, None);
    assert_eq!(table.classes, vec!["user-select-none"]);
    assert_eq!(table.rows.len(), 2);
    assert!(table.footer.is_none());
    let expected = [
        [Color::White, Color::Black, Color::White],
        [Color::White, Color::White, Color::Black],
    ];
    for (rn, row) in table.rows.iter().enumerate() {
        assert_eq!(row.left, None);
        assert_eq!(row.right, None);
        assert_eq!(row.cells.len(), 3);
        for (cn, cell) in row.cells.iter().enumerate() {
            assert_eq!((cell.row, cell.col), (rn, cn));
            assert_eq!(cell.value, expected[rn][cn]);
            assert!(cell.classes.is_empty());
            assert_eq!(cell.style, None);
        }
    }
    assert!(munger.rules().is_empty());
}

#[test]
fn table_carries_the_callers_class() {
    let grid = chart();
    let mut munger = CssMunger::new();
    let renderer =
        GridRenderer::new(&grid, (), None::<PlainStyle>, EmptyLabels, vec![], &mut munger);
    let table = render_table(renderer, Some("chart"));
    assert_eq!(table.classes, vec!["user-select-none", "chart"]);
}

#[test]
fn table_merges_classes_labels_and_styles() {
    let mut grid = SimpleGrid::new(GridId::Front, 6, 5);
    assert_eq!(grid.set_cell(1, 0, Color::Black), Ok(()));
    let mut munger = CssMunger::new();
    let renderer = GridRenderer::new(
        &grid,
        (BorderedCellDecorator, (ThickBorders, ())),
        Some(red_on_black()),
        RoundLabels,
        vec!["cell", "small"],
        &mut munger,
    );
    assert_eq!(munger.rules().len(), 5);
    let table = render_table(renderer, Some("pattern"));
    assert_eq!(table.classes, vec!["user-select-none", "pattern"]);
    assert_eq!(table.rows.len(), 6);

    let top = &table.rows[0];
    assert_eq!(top.left, Some((String::new(), vec![])));
    assert_eq!(top.right, Some(("6".to_string(), vec![])));
    assert_eq!(top.cells[0].classes, vec!["bdrcell", "tckleft", "cell", "small"]);
    assert_eq!(top.cells[1].classes, vec!["bdrcell", "cell", "small"]);
    assert_eq!(top.cells[0].style, None);

    let second = &table.rows[1];
    assert_eq!(second.right, Some(("5".to_string(), vec![])));
    assert_eq!(second.cells[0].value, Color::Black);
    assert_eq!(second.cells[0].classes, vec!["bdrcell", "tcktop", "tckleft", "cell", "small"]);
    assert_eq!(second.cells[0].style, Some(vec!["color: red".to_string()]));
    assert_eq!(second.cells[4].classes, vec!["bdrcell", "tcktop", "cell", "small"]);
    assert_eq!(second.cells[4].style, None);

    assert_eq!(table.rows[5].right, Some(("1".to_string(), vec![])));

    let footer = table.footer.expect("round labels have a footer");
    let texts: Vec<String> =
        footer.iter().map(|label| label.clone().expect("every column is labelled").0).collect();
    assert_eq!(texts, vec!["5", "4", "3", "2", "1"]);
    for label in footer {
        let (_, span, classes) = label.expect("every column is labelled");
        assert_eq!(span, 1);
        assert!(classes.is_empty());
    }
}

#[test]
fn rows_are_composed_one_by_one() {
    let grid = chart();
    let mut munger = CssMunger::new();
    let renderer = GridRenderer::new(
        &grid,
        (BorderedCellDecorator, ()),
        None::<PlainStyle>,
        RoundLabels,
        vec![],
        &mut munger,
    );
    let row = render_row(&renderer, 1);
    assert_eq!(row.left, Some((String::new(), vec![])));
    assert_eq!(row.right, Some(("1".to_string(), vec![])));
    let values: Vec<Color> = row.cells.iter().map(|cell| cell.value).collect();
    assert_eq!(values, vec![Color::White, Color::White, Color::Black]);
    let full = render_full_row(&renderer, 0);
    assert_eq!(full.right, Some(("2".to_string(), vec![])));
    assert_eq!(full.cells[1].value, Color::Black);
    let cell = renderer.render_data_cell(0, 1);
    assert_eq!((cell.row, cell.col, cell.value), (0, 1, Color::Black));
    assert_eq!(cell.classes, vec!["bdrcell"]);
    assert_eq!(renderer.render_footer_cell(0), Some(("3".to_string(), 1, vec![])));
    assert_eq!(renderer.render_left_cell(0), Some((String::new(), vec![])));
    assert_eq!(renderer.render_right_cell(0), Some(("2".to_string(), vec![])));
    assert_eq!(renderer.render_data_row(0).len(), 3);
    assert_eq!(renderer.render_footer_row().map(|footer| footer.len()), Some(3));
}

#[test]
fn table_of_a_mirrored_grid() {
    let grid = chart();
    let flipped = FlippedGrid::new(&grid);
    let mut munger = CssMunger::new();
    let renderer =
        GridRenderer::new(&flipped, (), None::<PlainStyle>, RoundLabels, vec![], &mut munger);
    let table = render_table(renderer, None);
    let values: Vec<Vec<Color>> =
        table.rows.iter().map(|row| row.cells.iter().map(|cell| cell.value).collect()).collect();
    assert_eq!(
        values,
        vec![
            vec![Color::White, Color::Black, Color::White],
            vec![Color::Black, Color::White, Color::White],
        ]
    );
}

#[test]
fn table_shows_the_grid_as_it_is_when_composed() {
    let mut grid = SimpleGrid::new(GridId::Front, 1, 1);
    let mut munger = CssMunger::new();
    {
        let renderer =
            GridRenderer::new(&grid, (), None::<PlainStyle>, EmptyLabels, vec![], &mut munger);
        assert_eq!(render_table(renderer, None).rows[0].cells[0].value, Color::White);
    }
    assert_eq!(grid.set_cell(0, 0, Color::Black), Ok(()));
    let renderer =
        GridRenderer::new(&grid, (), None::<PlainStyle>, EmptyLabels, vec![], &mut munger);
    assert_eq!(render_table(renderer, None).rows[0].cells[0].value, Color::Black);
}

#[test]
fn empty_grid_gives_an_empty_table() {
    let grid = SimpleGrid::new(GridId::Front, 0, 4);
    let mut munger = CssMunger::new();
    let renderer =
        GridRenderer::new(&grid, (), None::<PlainStyle>, RoundLabels, vec![], &mut munger);
    let table = render_table(renderer, None);
    assert!(table.rows.is_empty());
    assert_eq!(table.footer.map(|footer| footer.len()), Some(4));
}

#[test]
fn three_compositions_register_a_kind_once() {
    let grid = chart();
    let other = SimpleGrid::new(GridId::Back, 4, 4);
    let mut munger = CssMunger::new();
    for _ in 0..3 {
        let first = ThickBorders::default();
        let second = ThickBorders::default();
        let renderer = GridRenderer::new(
            &grid,
            (first, ()),
            None::<PlainStyle>,
            EmptyLabels,
            vec![],
            &mut munger,
        );
        assert_eq!(render_table(renderer, None).rows.len(), 2);
        let renderer = GridRenderer::new(
            &other,
            (second, ()),
            None::<PlainStyle>,
            EmptyLabels,
            vec![],
            &mut munger,
        );
        assert_eq!(render_table(renderer, None).rows.len(), 4);
    }
    assert_eq!(
        munger.rules(),
        &vec![
            "td.tckleft { border-left: 3px solid black}",
            "td.tcktop { border-top: 3px solid black}",
            "td.tckright { border-right: 3px solid black}",
            "td.tckbottom { border-bottom: 3px solid black}",
        ]
    );
}
