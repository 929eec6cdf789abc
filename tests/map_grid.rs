use map_grid::{
    limitations_for_row, special_map, GenerateError, GridMap, GridPrinter, MapJson, MapPoint,
    MapPointValue, RangeType,
};

fn numeric_map(x_range: (usize, usize), y_range: (usize, usize), limitations: Vec<(usize, usize)>) -> GridMap {
    GridMap {
        name: "numbers".to_owned(),
        x_type: RangeType::Numeric,
        y_type: RangeType::Numeric,
        x_range,
        y_range,
        limitations,
    }
}

fn point(x: MapPointValue, y: MapPointValue) -> MapPoint {
    MapPoint { point: (x, y) }
}

#[test]
fn defaults_are_equal() {
    let map_json = GridMap::from(MapJson::default());
    let map = GridMap::default();
    assert_eq!(map, map_json);
}

#[test]
fn default_map_generates_in_range() {
    let map = GridMap::default();
    assert_eq!(map.x_range, ('A' as usize, 'H' as usize));
    assert_eq!(map.y_range, ('I' as usize, 'P' as usize));
    assert_eq!(map.x_size(), 7);
    assert_eq!(map.y_size(), 7);
    for _ in 0..500 {
        let (x, y) = map.generate_coords().unwrap();
        assert!(x < 7);
        assert!(y < 7);
    }
}

#[test]
fn generated_coordinate_is_never_excluded() {
    let map = numeric_map((0, 3), (0, 2), vec![(0, 0), (1, 0), (2, 0), (0, 1), (1, 1)]);
    for _ in 0..500 {
        let c = map.generate_coords().unwrap();
        assert_eq!(c, (2, 1));
    }
}

#[test]
fn covered_sampling_space_is_exhausted() {
    let mut limitations = Vec::new();
    for y in 0..3 {
        for x in 0..4 {
            limitations.push((x, y));
        }
    }
    let map = numeric_map((0, 3), (0, 3), limitations);
    for _ in 0..20 {
        assert_eq!(map.generate_coords(), Err(GenerateError::Exhausted));
    }
    assert_eq!(GridPrinter::print(&map), Err(GenerateError::Exhausted));
}

#[test]
fn empty_axis_cannot_generate() {
    let map = numeric_map((0, 3), (2, 2), vec![]);
    assert_eq!(map.generate_coords(), Err(GenerateError::EmptyAxis));
    assert_eq!(GridPrinter::print(&map), Err(GenerateError::EmptyAxis));
    let map = numeric_map((4, 4), (0, 3), vec![]);
    assert_eq!(map.generate_coords(), Err(GenerateError::EmptyAxis));
}

#[test]
fn first_allowed_takes_first_free_draw() {
    let map = numeric_map((0, 3), (0, 3), vec![(0, 0), (1, 2)]);
    let draws = vec![(0, 0), (1, 2), (3, 0), (2, 2), (1, 1)];
    assert_eq!(map.first_allowed(&draws), Ok((2, 2)));
    assert_eq!(map.first_allowed(&vec![(1, 1)]), Ok((1, 1)));
    assert_eq!(map.first_allowed(&vec![(0, 0), (1, 2)]), Err(GenerateError::Exhausted));
    assert_eq!(map.first_allowed(&vec![]), Err(GenerateError::Exhausted));
    let empty = numeric_map((0, 0), (0, 3), vec![]);
    assert_eq!(empty.first_allowed(&draws), Err(GenerateError::EmptyAxis));
}

#[test]
fn first_allowed_stops_at_cap() {
    let map = numeric_map((0, 3), (0, 3), vec![(0, 0)]);
    let mut draws = vec![(0, 0); map_grid::MAX_LOOP_COUNT];
    draws.push((1, 1));
    assert_eq!(map.first_allowed(&draws), Err(GenerateError::Exhausted));
    draws[map_grid::MAX_LOOP_COUNT - 1] = (2, 2);
    assert_eq!(map.first_allowed(&draws), Ok((2, 2)));
}

#[test]
fn index_names() {
    assert_eq!(GridPrinter::index_name(65, RangeType::Alpha), 'A');
    assert_eq!(GridPrinter::index_name('P' as usize, RangeType::Alpha), 'P');
    assert_eq!(GridPrinter::index_name(0, RangeType::Numeric), '0');
    assert_eq!(GridPrinter::index_name(9, RangeType::Numeric), '9');
}

#[test]
fn numeric_label_ten_is_placeholder() {
    assert_eq!(GridPrinter::index_name(10, RangeType::Numeric), '/');
    assert_eq!(GridPrinter::index_name(123, RangeType::Numeric), '/');
    let map = numeric_map((8, 10), (0, 0), vec![]);
    let text = GridPrinter::render(&map, (0, 0));
    assert!(text.starts_with("  8 9 / \n"));
}

#[test]
fn render_small_numeric_map() {
    let map = numeric_map((0, 1), (0, 1), vec![(1, 0)]);
    let text = GridPrinter::render(&map, (0, 1));
    let expected = "  0 1 \n ┼─┼─┼\n0│ │o│\n1│X│ │\n ┴─┴─┴\n";
    assert_eq!(text, expected);
}

#[test]
fn excluded_mark_wins_over_coordinate() {
    let map = numeric_map((0, 1), (0, 0), vec![(1, 0)]);
    let text = GridPrinter::render(&map, (1, 0));
    assert_eq!(text, "  0 1 \n ┼─┼─┼\n0│ │o│\n ┴─┴─┴\n");
}

#[test]
fn single_cell_map_renders() {
    let map = numeric_map((3, 3), (5, 5), vec![]);
    let text = GridPrinter::render(&map, (0, 0));
    assert_eq!(text, "  3 \n ┼─┼\n5│X│\n ┴─┴\n");
}

#[test]
fn rendering_line_and_rule_counts() {
    let map = GridMap::default();
    let text = GridPrinter::render(&map, (3, 4));
    assert_eq!(text.matches('\n').count(), map.y_size() + 4);
    assert!(text.ends_with('\n'));
    let lines: Vec<&str> = text.lines().collect();
    assert_eq!(lines.len(), 11);
    assert_eq!(lines[0], "  A B C D E F G H ");
    for row in &lines[2..lines.len() - 1] {
        assert_eq!(row.matches('│').count(), map.x_size() + 2);
    }
    assert_eq!(lines[6], "M│ │ │ │X│ │ │ │ │");
}

#[test]
fn rendering_is_repeatable() {
    let map = numeric_map((0, 4), (1, 3), vec![(2, 1), (0, 0)]);
    let first = GridPrinter::render(&map, (1, 1));
    let second = GridPrinter::render(&map, (1, 1));
    assert_eq!(first, second);
}

#[test]
fn print_default_map() {
    let map = GridMap::default();
    let text = GridPrinter::print(&map).unwrap();
    assert_eq!(text.lines().count(), 11);
    assert_eq!(text.matches('X').count(), 1);
}

#[test]
fn separator_and_end_rows() {
    assert_eq!(GridPrinter::print_value_separater_row(0), " ├\n");
    assert_eq!(GridPrinter::print_value_separater_row(1), " ├─┤\n");
    assert_eq!(GridPrinter::print_value_separater_row(3), " ├─┼─┼─┤\n");
    assert_eq!(GridPrinter::print_end_row(0), " ┴─┴\n");
    assert_eq!(GridPrinter::print_end_row(2), " ┴─┴─┴─┴\n");
}

#[test]
fn top_and_value_rows() {
    assert_eq!(GridPrinter::print_top_row((65, 67), RangeType::Alpha), "  A B C \n ┼─┼─┼─┼\n");
    assert_eq!(GridPrinter::print_value_row('K', Some(2), vec![0], 3), "K│o│ │X│ │\n");
    assert_eq!(GridPrinter::print_value_row('K', None, vec![], 1), "K│ │ │\n");
}

#[test]
fn row_limitations() {
    let cells = [(1, 0), (2, 3), (4, 0), (0, 1)];
    assert_eq!(limitations_for_row(&cells, 0), vec![1, 4]);
    assert_eq!(limitations_for_row(&cells, 3), vec![2]);
    assert!(limitations_for_row(&cells, 7).is_empty());
}

#[test]
fn catalog_entry_converts_to_offsets() {
    let json = MapJson {
        name: "harbour".to_owned(),
        start: point(MapPointValue::Numeric(2), MapPointValue::Alpha('C')),
        end: point(MapPointValue::Numeric(5), MapPointValue::Alpha('F')),
        limitations: vec![
            point(MapPointValue::Numeric(3), MapPointValue::Alpha('D')),
            point(MapPointValue::Numeric(1), MapPointValue::Alpha('E')),
            point(MapPointValue::Numeric(5), MapPointValue::Alpha('C')),
        ],
    };
    assert_eq!(json.x_range_type(), RangeType::Numeric);
    assert_eq!(json.y_range_type(), RangeType::Alpha);
    assert_eq!(json.x_range(), (2, 5));
    assert_eq!(json.y_range(), (67, 70));
    assert_eq!(json.limitations(), vec![(3, 68), (1, 69), (5, 67)]);
    assert_eq!(json.limitations[0].to_tuple(), (3, 68));
    let map = GridMap::from(json);
    assert_eq!(map.name, "harbour");
    assert_eq!(map.x_type, RangeType::Numeric);
    assert_eq!(map.y_type, RangeType::Alpha);
    assert_eq!(map.x_range, (2, 5));
    assert_eq!(map.y_range, (67, 70));
    assert_eq!(map.limitations, vec![(1, 1), (3, 0)]);
    assert!(map.is_valid());
    assert!(map.excludes(1, 1));
    assert!(!map.excludes(1, 2));
}

#[test]
fn inverted_range_is_invalid() {
    let json = MapJson {
        name: "backwards".to_owned(),
        start: point(MapPointValue::Alpha('H'), MapPointValue::Alpha('A')),
        end: point(MapPointValue::Alpha('A'), MapPointValue::Alpha('H')),
        limitations: vec![],
    };
    assert!(!GridMap::from(json).is_valid());
}

fn catalog() -> Vec<MapJson> {
    let mut first = MapJson::default();
    first.name = "island".to_owned();
    first.limitations.push(point(MapPointValue::Alpha('B'), MapPointValue::Alpha('J')));
    let mut second = MapJson::default();
    second.name = "island".to_owned();
    vec![MapJson::default(), first, second]
}

#[test]
fn catalog_lookup_finds_first_entry() {
    let map = special_map(catalog(), "island".to_owned()).unwrap();
    assert_eq!(map.name, "island");
    assert_eq!(map.limitations, vec![(1, 1)]);
    assert_eq!(special_map(catalog(), "generic".to_owned()), Some(GridMap::default()));
}

#[test]
fn unknown_name_falls_back_to_default() {
    let found = special_map(catalog(), "atlantis".to_owned());
    assert_eq!(found, None);
    let map = found.unwrap_or_default();
    assert_eq!(
        GridPrinter::render(&map, (2, 5)),
        GridPrinter::render(&GridMap::default(), (2, 5))
    );
    assert_eq!(special_map(vec![], "generic".to_owned()), None);
}

#[test]
fn exclusions_outside_sampling_space_never_block() {
    let map = numeric_map((0, 2), (0, 2), vec![(2, 0), (0, 2), (2, 2), (9, 9)]);
    for _ in 0..200 {
        let (x, y) = map.generate_coords().unwrap();
        assert!(x < 2 && y < 2);
    }
    assert!(GridPrinter::print(&map).is_ok());
    let draws = vec![(1, 1)];
    assert_eq!(map.first_allowed(&draws), numeric_map((0, 2), (0, 2), vec![]).first_allowed(&draws));
}
