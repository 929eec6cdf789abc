use vstd::prelude::*;

use crate::common::{GridMap, Range, RangeType};
use crate::grid::{
    LIMITED,
    cell_char, columns_in_row, content_row, content_rows, end_row, header_labels, label_char,
    pair_run, rendering, row_cells, top_row, value_row, CROSS, HORIZONTAL, NEWLINE, SPACE, T_180,
    VERTICAL,
};
use crate::text::{count_char, lemma_count_concat, lemma_count_single};

verus! {

proof fn lemma_count_two(a: char, b: char, c: char)
    ensures
        count_char(seq![a, b], c) == count_char(seq![a], c) + count_char(seq![b], c),
{
    assert(seq![a, b] =~= seq![a] + seq![b]);
    lemma_count_concat(seq![a], seq![b], c);
}

proof fn lemma_count_three(a: char, b: char, d: char, c: char)
    ensures
        count_char(seq![a, b, d], c) == count_char(seq![a], c) + count_char(seq![b], c)
            + count_char(seq![d], c),
{
    assert(seq![a, b, d] =~= seq![a, b] + seq![d]);
    lemma_count_concat(seq![a, b], seq![d], c);
    lemma_count_two(a, b, c);
}

proof fn lemma_pair_run_count(a: char, b: char, n: nat, c: char)
    requires
        a != c,
        b != c,
    ensures
        count_char(pair_run(a, b, n), c) == 0,
    decreases n,
{
    if n == 0 {
        assert(pair_run(a, b, n) =~= Seq::<char>::empty());
    } else {
        lemma_pair_run_count(a, b, (n - 1) as nat, c);
        lemma_count_concat(pair_run(a, b, (n - 1) as nat), seq![a, b], c);
        lemma_count_two(a, b, c);
        lemma_count_single(a, c);
        lemma_count_single(b, c);
    }
}

proof fn lemma_header_count(lo: int, n: nat, kind: RangeType, c: char)
    requires
        c != SPACE,
        0 <= lo,
        lo + n <= usize::MAX + 1,
        forall|v: usize| lo <= v < lo + n ==> #[trigger] label_char(v, kind) != c,
    ensures
        count_char(header_labels(lo, n, kind), c) == 0,
    decreases n,
{
    if n == 0 {
        assert(header_labels(lo, n, kind) =~= Seq::<char>::empty());
    } else {
        let l = label_char((lo + n - 1) as usize, kind);
        let v = (lo + n - 1) as usize;
        assert(lo <= v < lo + n);
        assert(l != c);
        lemma_header_count(lo, (n - 1) as nat, kind, c);
        lemma_count_concat(header_labels(lo, (n - 1) as nat, kind), seq![l, SPACE], c);
        lemma_count_two(l, SPACE, c);
        lemma_count_single(l, c);
        lemma_count_single(SPACE, c);
    }
}

/// The cells of a row hold one vertical rule each and no line break.
proof fn lemma_row_cells_count(x_coord: Option<usize>, excluded: Seq<usize>, n: nat)
    ensures
        count_char(row_cells(x_coord, excluded, n), VERTICAL) == n,
        count_char(row_cells(x_coord, excluded, n), NEWLINE) == 0,
    decreases n,
{
    if n == 0 {
        assert(row_cells(x_coord, excluded, n) =~= Seq::<char>::empty());
    } else {
        let m = cell_char(x_coord, excluded, n - 1);
        lemma_row_cells_count(x_coord, excluded, (n - 1) as nat);
        lemma_count_concat(row_cells(x_coord, excluded, (n - 1) as nat), seq![m, VERTICAL], VERTICAL);
        lemma_count_concat(row_cells(x_coord, excluded, (n - 1) as nat), seq![m, VERTICAL], NEWLINE);
        lemma_count_two(m, VERTICAL, VERTICAL);
        lemma_count_two(m, VERTICAL, NEWLINE);
        lemma_count_single(m, VERTICAL);
        lemma_count_single(VERTICAL, VERTICAL);
        lemma_count_single(m, NEWLINE);
        lemma_count_single(VERTICAL, NEWLINE);
    }
}

/// No label is a vertical rule.
proof fn lemma_label_not_vertical(v: usize, kind: RangeType)
    ensures
        label_char(v, kind) != VERTICAL,
{
    let b = v as u8;
    assert((b as char) as u32 == b as u32);
}

proof fn lemma_value_row_counts(lead: char, x_coord: Option<usize>, excluded: Seq<usize>, x_size: int)
    requires
        x_size >= 0,
    ensures
        count_char(value_row(lead, x_coord, excluded, x_size), VERTICAL) == x_size + 1 + 1
            + count_char(seq![lead], VERTICAL),
        count_char(value_row(lead, x_coord, excluded, x_size), NEWLINE) == 1 + count_char(
            seq![lead],
            NEWLINE,
        ),
{
    let cells = row_cells(x_coord, excluded, (x_size + 1) as nat);
    lemma_row_cells_count(x_coord, excluded, (x_size + 1) as nat);
    let c = VERTICAL;
    lemma_count_concat(seq![lead, VERTICAL], cells, c);
    lemma_count_concat(seq![lead, VERTICAL] + cells, seq![NEWLINE], c);
    lemma_count_two(lead, VERTICAL, c);
    lemma_count_single(VERTICAL, c);
    lemma_count_single(NEWLINE, c);
    let c = NEWLINE;
    lemma_count_concat(seq![lead, VERTICAL], cells, c);
    lemma_count_concat(seq![lead, VERTICAL] + cells, seq![NEWLINE], c);
    lemma_count_two(lead, VERTICAL, c);
    lemma_count_single(VERTICAL, c);
    lemma_count_single(NEWLINE, c);
}

/// Every content line of a rendered map holds exactly `x_size + 2` vertical
/// rules: one after the label and one after each of the `x_size + 1` cells.
pub proof fn lemma_content_row_rules(map: GridMap, coord: Range, y: int)
    requires
        map.wf(),
        0 <= y <= map.spec_y_size(),
    ensures
        count_char(content_row(map, coord, y), VERTICAL) == map.spec_x_size() + 2,
{
    let lead = label_char((map.y_range.0 + y) as usize, map.y_type);
    lemma_label_not_vertical((map.y_range.0 + y) as usize, map.y_type);
    lemma_count_single(lead, VERTICAL);
    lemma_value_row_counts(
        lead,
        if coord.1 == y {
            Some(coord.0)
        } else {
            None
        },
        columns_in_row(map.limitations@, y),
        map.spec_x_size(),
    );
}

/// No label on either axis of `map` is a line break.
pub open spec fn labels_avoid_newline(map: GridMap) -> bool {
    &&& forall|v: usize|
        map.x_range.0 <= v <= map.x_range.1 ==> #[trigger] label_char(v, map.x_type) != NEWLINE
    &&& forall|v: usize|
        map.y_range.0 <= v <= map.y_range.1 ==> #[trigger] label_char(v, map.y_type) != NEWLINE
}

proof fn lemma_top_row_lines(range: Range, kind: RangeType)
    requires
        range.0 <= range.1,
        forall|v: usize| range.0 <= v <= range.1 ==> #[trigger] label_char(v, kind) != NEWLINE,
    ensures
        count_char(top_row(range, kind), NEWLINE) == 2,
{
    let n = (range.1 - range.0 + 1) as nat;
    let c = NEWLINE;
    let a = seq![SPACE, SPACE];
    let h = header_labels(range.0 as int, n, kind);
    let m = seq![NEWLINE, SPACE, CROSS];
    let p = pair_run(HORIZONTAL, CROSS, n);
    let z = seq![NEWLINE];
    lemma_header_count(range.0 as int, n, kind, c);
    lemma_pair_run_count(HORIZONTAL, CROSS, n, c);
    lemma_count_two(SPACE, SPACE, c);
    lemma_count_three(NEWLINE, SPACE, CROSS, c);
    lemma_count_single(SPACE, c);
    lemma_count_single(NEWLINE, c);
    lemma_count_single(CROSS, c);
    lemma_count_concat(a, h, c);
    lemma_count_concat(a + h, m, c);
    lemma_count_concat(a + h + m, p, c);
    lemma_count_concat(a + h + m + p, z, c);
}

proof fn lemma_end_row_lines(x_size: int)
    requires
        x_size >= 0,
    ensures
        count_char(end_row(x_size), NEWLINE) == 1,
        end_row(x_size).last() == NEWLINE,
{
    let c = NEWLINE;
    let p = pair_run(T_180, HORIZONTAL, (x_size + 1) as nat);
    lemma_pair_run_count(T_180, HORIZONTAL, (x_size + 1) as nat, c);
    lemma_count_two(T_180, NEWLINE, c);
    lemma_count_single(SPACE, c);
    lemma_count_single(T_180, c);
    lemma_count_single(NEWLINE, c);
    lemma_count_concat(seq![SPACE], p, c);
    lemma_count_concat(seq![SPACE] + p, seq![T_180, NEWLINE], c);
}

proof fn lemma_content_rows_lines(map: GridMap, coord: Range, n: nat)
    requires
        map.wf(),
        labels_avoid_newline(map),
        n <= map.spec_y_size() + 1,
    ensures
        count_char(content_rows(map, coord, n), NEWLINE) == n,
    decreases n,
{
    if n == 0 {
        assert(content_rows(map, coord, n) =~= Seq::<char>::empty());
    } else {
        let y = n - 1;
        let v = (map.y_range.0 + y) as usize;
        assert(map.y_range.0 <= v <= map.y_range.1);
        let lead = label_char(v, map.y_type);
        assert(lead != NEWLINE);
        lemma_count_single(lead, NEWLINE);
        lemma_value_row_counts(
            lead,
            if coord.1 == y {
                Some(coord.0)
            } else {
                None
            },
            columns_in_row(map.limitations@, y),
            map.spec_x_size(),
        );
        lemma_content_rows_lines(map, coord, (n - 1) as nat);
        lemma_count_concat(content_rows(map, coord, (n - 1) as nat), content_row(map, coord, y), NEWLINE);
    }
}

/// A rendered map has `y_size + 4` lines, each ending in a line break: the
/// header, its rule, `y_size + 1` content lines and the closing rule. This
/// holds where no label is itself a line break.
pub proof fn lemma_rendering_lines(map: GridMap, coord: Range)
    requires
        map.wf(),
        labels_avoid_newline(map),
    ensures
        count_char(rendering(map, coord), NEWLINE) == map.spec_y_size() + 4,
        rendering(map, coord).last() == NEWLINE,
{
    let t = top_row(map.x_range, map.x_type);
    let b = content_rows(map, coord, (map.spec_y_size() + 1) as nat);
    let e = end_row(map.spec_x_size());
    lemma_top_row_lines(map.x_range, map.x_type);
    lemma_content_rows_lines(map, coord, (map.spec_y_size() + 1) as nat);
    lemma_end_row_lines(map.spec_x_size());
    lemma_count_concat(t, b, NEWLINE);
    lemma_count_concat(t + b, e, NEWLINE);
}

/// Rendering depends on the map and the coordinate alone: two renderings of
/// the same map with the same coordinate are the same text.
pub proof fn lemma_render_repeatable(map: GridMap, coord: Range, first: String, second: String)
    requires
        first@ == rendering(map, coord),
        second@ == rendering(map, coord),
    ensures
        first@ == second@,
{
}

proof fn lemma_columns_in_row_contains(cells: Seq<Range>, row: int, x: usize)
    ensures
        columns_in_row(cells, row).contains(x) <==> exists|i: int|
            0 <= i < cells.len() && cells[i].0 == x && cells[i].1 == row,
    decreases cells.len(),
{
    if cells.len() > 0 {
        let rest = cells.drop_last();
        lemma_columns_in_row_contains(rest, row, x);
        let last = cells.last();
        if last.1 == row {
            assert(columns_in_row(cells, row) == columns_in_row(rest, row).push(last.0));
            if columns_in_row(cells, row).contains(x) {
                let k = choose|k: int|
                    0 <= k < columns_in_row(cells, row).len() && columns_in_row(cells, row)[k]
                        == x;
                if k == columns_in_row(rest, row).len() {
                    assert(cells[cells.len() - 1].0 == x);
                } else {
                    assert(columns_in_row(rest, row).contains(x));
                    let i = choose|i: int| 0 <= i < rest.len() && rest[i].0 == x && rest[i].1 == row;
                    assert(cells[i] == rest[i]);
                }
            }
            if exists|i: int| 0 <= i < cells.len() && cells[i].0 == x && cells[i].1 == row {
                let i = choose|i: int| 0 <= i < cells.len() && cells[i].0 == x && cells[i].1 == row;
                if i == cells.len() - 1 {
                    assert(columns_in_row(cells, row)[columns_in_row(rest, row).len() as int] == x);
                } else {
                    assert(rest[i] == cells[i]);
                    let k = choose|k: int|
                        0 <= k < columns_in_row(rest, row).len() && columns_in_row(rest, row)[k]
                            == x;
                    assert(columns_in_row(cells, row)[k] == x);
                }
            }
        } else {
            if exists|i: int| 0 <= i < cells.len() && cells[i].0 == x && cells[i].1 == row {
                let i = choose|i: int| 0 <= i < cells.len() && cells[i].0 == x && cells[i].1 == row;
                assert(i != cells.len() - 1);
                assert(rest[i] == cells[i]);
            }
            if exists|i: int| 0 <= i < rest.len() && rest[i].0 == x && rest[i].1 == row {
                let i = choose|i: int| 0 <= i < rest.len() && rest[i].0 == x && rest[i].1 == row;
                assert(cells[i] == rest[i]);
            }
        }
    }
}

/// In content line `y`, the cell in column `x` shows the exclusion mark
/// exactly where the map excludes the cell `(x, y)`.
pub proof fn lemma_excluded_cells_marked(map: GridMap, coord: Range, x: usize, y: usize)
    ensures
        cell_char(
            if coord.1 == y {
                Some(coord.0)
            } else {
                None
            },
            columns_in_row(map.limitations@, y as int),
            x as int,
        ) == LIMITED <==> map.excludes_cell(x as int, y as int),
{
    lemma_columns_in_row_contains(map.limitations@, y as int, x);
}

} // verus!
