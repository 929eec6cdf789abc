use vstd::prelude::*;

use crate::common::{GridMap, Range, RangeType};
use crate::sampling::GenerateError;

verus! {

// The characters of the drawing: box-drawing rules, blanks and line breaks.

pub const SPACE: char = ' ';

pub const NEWLINE: char = '\n';

pub const HORIZONTAL: char = '─';

pub const VERTICAL: char = '│';

pub const T_90: char = '┤';

pub const T_180: char = '┴';

pub const T_270: char = '├';

pub const CROSS: char = '┼';

/// Marks an excluded cell.
pub const LIMITED: char = 'o';

/// Marks the generated coordinate.
pub const COORDINATE: char = 'X';

/// Shown for a numeric label that is not a single digit.
pub const PLACEHOLDER: char = '/';

/// The character shown for a label value of an axis of the given kind.
///
/// An alphabetic value is a character code, cut to its low byte; a numeric
/// value is a single decimal digit, and any other number shows as the
/// placeholder.
pub open spec fn label_char(index: usize, kind: RangeType) -> char {
    match kind {
        RangeType::Alpha => (index as u8) as char,
        RangeType::Numeric => if index < 10 {
            ((index as u8) + 48u8) as char
        } else {
            PLACEHOLDER
        },
    }
}

/// `n` copies of the pair `a`, `b`.
pub open spec fn pair_run(a: char, b: char, n: nat) -> Seq<char>
    decreases n,
{
    if n == 0 {
        seq![]
    } else {
        pair_run(a, b, (n - 1) as nat) + seq![a, b]
    }
}

/// The labels of the values `lo` to `lo + n - 1`, each followed by a space.
pub open spec fn header_labels(lo: int, n: nat, kind: RangeType) -> Seq<char>
    decreases n,
{
    if n == 0 {
        seq![]
    } else {
        header_labels(lo, (n - 1) as nat, kind) + seq![label_char((lo + n - 1) as usize, kind), SPACE]
    }
}

/// The header line with the labels of `range`, and the rule under it.
pub open spec fn top_row(range: Range, kind: RangeType) -> Seq<char> {
    let n = (range.1 - range.0 + 1) as nat;
    seq![SPACE, SPACE] + header_labels(range.0 as int, n, kind) + seq![NEWLINE, SPACE, CROSS]
        + pair_run(HORIZONTAL, CROSS, n) + seq![NEWLINE]
}

/// What the cell in column `i` of a row shows: the exclusion mark first, then
/// the coordinate mark, else a blank.
pub open spec fn cell_char(x_coord: Option<usize>, excluded: Seq<usize>, i: int) -> char {
    if excluded.contains(i as usize) {
        LIMITED
    } else if x_coord == Some(i as usize) {
        COORDINATE
    } else {
        SPACE
    }
}

/// The first `n` cells of a row, each followed by a vertical rule.
pub open spec fn row_cells(x_coord: Option<usize>, excluded: Seq<usize>, n: nat) -> Seq<char>
    decreases n,
{
    if n == 0 {
        seq![]
    } else {
        row_cells(x_coord, excluded, (n - 1) as nat) + seq![
            cell_char(x_coord, excluded, n - 1),
            VERTICAL,
        ]
    }
}

/// A content line: its label, a rule, and `x_size + 1` cells.
pub open spec fn value_row(
    lead: char,
    x_coord: Option<usize>,
    excluded: Seq<usize>,
    x_size: int,
) -> Seq<char> {
    seq![lead, VERTICAL] + row_cells(x_coord, excluded, (x_size + 1) as nat) + seq![NEWLINE]
}

/// A rule between two content lines, over `x_size` columns.
pub open spec fn separator_row(x_size: int) -> Seq<char> {
    seq![SPACE, T_270] + (if x_size <= 0 {
        seq![]
    } else {
        pair_run(HORIZONTAL, CROSS, (x_size - 1) as nat) + seq![HORIZONTAL, T_90]
    }) + seq![NEWLINE]
}

/// The closing rule under `x_size + 1` columns.
pub open spec fn end_row(x_size: int) -> Seq<char> {
    seq![SPACE] + pair_run(T_180, HORIZONTAL, (x_size + 1) as nat) + seq![T_180, NEWLINE]
}

/// The columns of the cells of `cells` that lie in row `row`, in order.
pub open spec fn columns_in_row(cells: Seq<Range>, row: int) -> Seq<usize>
    decreases cells.len(),
{
    if cells.len() == 0 {
        seq![]
    } else {
        let rest = columns_in_row(cells.drop_last(), row);
        if cells.last().1 == row {
            rest.push(cells.last().0)
        } else {
            rest
        }
    }
}

/// Content line `y` of `map`, with `coord` marked where it falls in that line.
pub open spec fn content_row(map: GridMap, coord: Range, y: int) -> Seq<char> {
    value_row(
        label_char((map.y_range.0 + y) as usize, map.y_type),
        if coord.1 == y {
            Some(coord.0)
        } else {
            None
        },
        columns_in_row(map.limitations@, y),
        map.spec_x_size(),
    )
}

/// Content lines `0` to `n - 1` of `map`.
pub open spec fn content_rows(map: GridMap, coord: Range, n: nat) -> Seq<char>
    decreases n,
{
    if n == 0 {
        seq![]
    } else {
        content_rows(map, coord, (n - 1) as nat) + content_row(map, coord, n - 1)
    }
}

/// The text of `map` with `coord` marked: the header and its rule, one line
/// for each `y` in `0..=y_size`, and the closing rule.
pub open spec fn rendering(map: GridMap, coord: Range) -> Seq<char> {
    top_row(map.x_range, map.x_type) + content_rows(map, coord, (map.spec_y_size() + 1) as nat)
        + end_row(map.spec_x_size())
}

/// Draws maps as text with box-drawing characters.
pub struct GridPrinter;

impl GridPrinter {
    /// Generates a coordinate on `map` and renders the grid with it marked;
    /// fails where generation fails. The coordinate never falls in the last
    /// column or the last row, which generation does not reach.
    pub fn print(map: &GridMap) -> (r: Result<String, GenerateError>)
        requires
            map.wf(),
        ensures
            match r {
                Ok(s) => exists|c: Range| map.allows(c) && s@ == #[trigger] rendering(*map, c),
                Err(e) => e == GenerateError::EmptyAxis <==> map.has_empty_axis(),
            },
            map.has_empty_axis() ==> r is Err,
            !map.has_empty_axis() && map.sampling_space_free() ==> r is Ok,
    {
        match map.generate_coords() {
            Ok(coords) => Ok(Self::render(map, coords)),
            Err(e) => Err(e),
        }
    }

    /// The character shown for label value `index` on an axis of kind `range_type`.
    pub fn index_name(index: usize, range_type: RangeType) -> (r: char)
        ensures
            r == label_char(index, range_type),
    {
        match range_type {
            RangeType::Alpha => index as u8 as char,
            RangeType::Numeric => {
                if index < 10 {
                    (index as u8 + 48u8) as char
                } else {
                    PLACEHOLDER
                }
            },
        }
    }

    /// The text of `map` with the cell at offsets `coords` marked.
    pub fn render(map: &GridMap, coords: Range) -> (r: String)
        requires
            map.wf(),
        ensures
            r@ == rendering(*map, coords),
    {
        let mut out = Self::print_top_row(map.x_range, map.x_type);
        let ghost top = out@;
        let x_size = map.x_size();
        let y_size = map.y_size();
        let mut y: usize = 0;
        loop
            invariant_except_break
                map.wf(),
                x_size == map.spec_x_size(),
                y_size == map.spec_y_size(),
                y <= y_size,
                out@ == top + content_rows(*map, coords, y as nat),
            ensures
                out@ == top + content_rows(*map, coords, (y_size + 1) as nat),
            decreases y_size - y,
        {
            let excluded = limitations_for_row(map.limitations.as_slice(), y);
            let x_coord = if coords.1 == y {
                Some(coords.0)
            } else {
                None
            };
            let lead = Self::index_name(y + map.y_range.0, map.y_type);
            let row = Self::print_value_row(lead, x_coord, excluded, x_size);
            out.append(row.as_str());
            assert(row@ == content_row(*map, coords, y as int));
            assert(out@ =~= top + content_rows(*map, coords, (y + 1) as nat));
            if y == y_size {
                break;
            }
            y = y + 1;
        }
        let end = Self::print_end_row(x_size);
        out.append(end.as_str());
        out
    }

    /// The header line and the rule under it, for the labels of `range`.
    pub fn print_top_row(range: Range, range_type: RangeType) -> (r: String)
        requires
            range.0 <= range.1,
        ensures
            r@ == top_row(range, range_type),
    {
        let mut row = String::new();
        row.push(SPACE);
        row.push(SPACE);
        let mut v: usize = range.0;
        loop
            invariant_except_break
                range.0 <= v <= range.1,
                row@ == seq![SPACE, SPACE] + header_labels(range.0 as int, (v - range.0) as nat, range_type),
            ensures
                row@ == seq![SPACE, SPACE] + header_labels(range.0 as int, (range.1 - range.0 + 1) as nat, range_type),
            decreases range.1 - v,
        {
            row.push(Self::index_name(v, range_type));
            row.push(SPACE);
            assert(header_labels(range.0 as int, (v - range.0 + 1) as nat, range_type)
                == header_labels(range.0 as int, (v - range.0) as nat, range_type)
                    + seq![label_char(v, range_type), SPACE]);
            assert(row@ =~= seq![SPACE, SPACE] + header_labels(range.0 as int, (v - range.0 + 1) as nat, range_type));
            if v == range.1 {
                break;
            }
            v = v + 1;
        }
        row.push(NEWLINE);
        row.push(SPACE);
        row.push(CROSS);
        let ghost head = row@;
        let mut v: usize = range.0;
        loop
            invariant_except_break
                range.0 <= v <= range.1,
                row@ == head + pair_run(HORIZONTAL, CROSS, (v - range.0) as nat),
            ensures
                row@ == head + pair_run(HORIZONTAL, CROSS, (range.1 - range.0 + 1) as nat),
            decreases range.1 - v,
        {
            row.push(HORIZONTAL);
            row.push(CROSS);
            assert(pair_run(HORIZONTAL, CROSS, (v - range.0 + 1) as nat)
                == pair_run(HORIZONTAL, CROSS, (v - range.0) as nat) + seq![HORIZONTAL, CROSS]);
            assert(row@ =~= head + pair_run(HORIZONTAL, CROSS, (v - range.0 + 1) as nat));
            if v == range.1 {
                break;
            }
            v = v + 1;
        }
        row.push(NEWLINE);
        assert(row@ =~= top_row(range, range_type));
        row
    }
    /// A content line: `leading_char`, a rule, then cells `0..=x_size`, each
    /// followed by a rule.
    pub fn print_value_row(
        leading_char: char,
        x_coord: Option<usize>,
        limitations_for_row: Vec<usize>,
        x_size: usize,
    ) -> (r: String)
        ensures
            r@ == value_row(leading_char, x_coord, limitations_for_row@, x_size as int),
    {
        let mut row = String::new();
        row.push(leading_char);
        row.push(VERTICAL);
        let ghost head = row@;
        let ghost excluded = limitations_for_row@;
        let mut i: usize = 0;
        loop
            invariant_except_break
                i <= x_size,
                limitations_for_row@ == excluded,
                row@ == head + row_cells(x_coord, excluded, i as nat),
            ensures
                row@ == head + row_cells(x_coord, excluded, (x_size + 1) as nat),
            decreases x_size - i,
        {
            let c = if contains_usize(&limitations_for_row, i) {
                LIMITED
            } else {
                match x_coord {
                    Some(coord) => if coord == i {
                        COORDINATE
                    } else {
                        SPACE
                    },
                    None => SPACE,
                }
            };
            row.push(c);
            row.push(VERTICAL);
            assert(c == cell_char(x_coord, excluded, i as int));
            assert(row_cells(x_coord, excluded, (i + 1) as nat)
                == row_cells(x_coord, excluded, i as nat) + seq![cell_char(x_coord, excluded, i as int), VERTICAL]);
            assert(row@ =~= head + row_cells(x_coord, excluded, (i + 1) as nat));
            if i == x_size {
                break;
            }
            i = i + 1;
        }
        row.push(NEWLINE);
        assert(row@ =~= value_row(leading_char, x_coord, excluded, x_size as int));
        row
    }

    /// A rule between two content lines, over `x_size` columns.
    pub fn print_value_separater_row(x_size: usize) -> (r: String)
        ensures
            r@ == separator_row(x_size as int),
    {
        let mut row = String::new();
        row.push(SPACE);
        row.push(T_270);
        let ghost head = row@;
        assert(head =~= seq![SPACE, T_270]);
        let mut i: usize = 0;
        while i < x_size
            invariant
                i <= x_size,
                i < x_size || i == 0,
                head == seq![SPACE, T_270],
                row@ == head + pair_run(HORIZONTAL, CROSS, i as nat),
            decreases x_size - i,
        {
            row.push(HORIZONTAL);
            if i + 1 == x_size {
                row.push(T_90);
                assert(row@ =~= head + pair_run(HORIZONTAL, CROSS, i as nat) + seq![HORIZONTAL, T_90]);
                row.push(NEWLINE);
                assert(separator_row(x_size as int) == seq![SPACE, T_270] + (pair_run(
                    HORIZONTAL,
                    CROSS,
                    i as nat,
                ) + seq![HORIZONTAL, T_90]) + seq![NEWLINE]);
                assert(row@ =~= separator_row(x_size as int));
                return row;
            }
            row.push(CROSS);
            assert(pair_run(HORIZONTAL, CROSS, (i + 1) as nat)
                == pair_run(HORIZONTAL, CROSS, i as nat) + seq![HORIZONTAL, CROSS]);
            assert(row@ =~= head + pair_run(HORIZONTAL, CROSS, (i + 1) as nat));
            i = i + 1;
        }
        assert(x_size == 0);
        assert(pair_run(HORIZONTAL, CROSS, 0) =~= Seq::<char>::empty());
        row.push(NEWLINE);
        assert(row@ =~= separator_row(x_size as int));
        row
    }

    /// The closing rule under `x_size + 1` columns.
    pub fn print_end_row(x_size: usize) -> (r: String)
        ensures
            r@ == end_row(x_size as int),
    {
        let mut row = String::new();
        row.push(SPACE);
        let ghost head = row@;
        let mut i: usize = 0;
        loop
            invariant_except_break
                i <= x_size,
                row@ == head + pair_run(T_180, HORIZONTAL, i as nat),
            ensures
                row@ == head + pair_run(T_180, HORIZONTAL, (x_size + 1) as nat),
            decreases x_size - i,
        {
            row.push(T_180);
            row.push(HORIZONTAL);
            assert(pair_run(T_180, HORIZONTAL, (i + 1) as nat)
                == pair_run(T_180, HORIZONTAL, i as nat) + seq![T_180, HORIZONTAL]);
            assert(row@ =~= head + pair_run(T_180, HORIZONTAL, (i + 1) as nat));
            if i == x_size {
                break;
            }
            i = i + 1;
        }
        row.push(T_180);
        row.push(NEWLINE);
        assert(row@ =~= end_row(x_size as int));
        row
    }
}

/// The columns of the excluded cells that lie in row `selected_row`.
pub fn limitations_for_row(limitations: &[Range], selected_row: usize) -> (r: Vec<usize>)
    ensures
        r@ == columns_in_row(limitations@, selected_row as int),
{
    let mut columns: Vec<usize> = Vec::new();
    let mut i: usize = 0;
    while i < limitations.len()
        invariant
            i <= limitations@.len(),
            columns@ == columns_in_row(limitations@.subrange(0, i as int), selected_row as int),
        decreases limitations@.len() - i,
    {
        let cell = limitations[i];
        assert(limitations@.subrange(0, i + 1).drop_last() =~= limitations@.subrange(0, i as int));
        if cell.1 == selected_row {
            columns.push(cell.0);
        }
        i = i + 1;
    }
    assert(limitations@.subrange(0, limitations@.len() as int) =~= limitations@);
    columns
}

/// Whether `v` holds `x`.
fn contains_usize(v: &Vec<usize>, x: usize) -> (r: bool)
    ensures
        r == v@.contains(x),
{
    let mut i: usize = 0;
    while i < v.len()
        invariant
            i <= v@.len(),
            forall|j: int| 0 <= j < i ==> v@[j] != x,
        decreases v@.len() - i,
    {
        if v[i] == x {
            return true;
        }
        i = i + 1;
    }
    false
}

} // verus!
