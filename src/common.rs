use vstd::prelude::*;

verus! {

/// An inclusive pair of values, or a pair of offsets `(x, y)`.
pub type Range = (usize, usize);

/// How the values of an axis are shown: as letters or as decimal digits.
#[derive(Clone, Copy, PartialEq, Eq, Debug, Structural)]
pub enum RangeType {
    Alpha,
    Numeric,
}

/// A rectangular grid with two labelled axes and a list of excluded cells.
///
/// `x_range` and `y_range` are inclusive bounds in label space (character
/// codes or numbers). `limitations` holds the excluded cells as `(x, y)`
/// offsets from the axis minimums; an entry outside the grid never matches
/// a cell.
#[derive(PartialEq, Debug)]
pub struct GridMap {
    pub name: String,
    pub x_type: RangeType,
    pub y_type: RangeType,
    pub x_range: Range,
    pub y_range: Range,
    pub limitations: Vec<Range>,
}

impl GridMap {
    /// Both ranges run from low to high.
    pub open spec fn wf(&self) -> bool {
        &&& self.x_range.0 <= self.x_range.1
        &&& self.y_range.0 <= self.y_range.1
    }

    /// The width: the number of label values across, less one.
    pub open spec fn spec_x_size(&self) -> int {
        self.x_range.1 - self.x_range.0
    }

    /// The height: the number of label values down, less one.
    pub open spec fn spec_y_size(&self) -> int {
        self.y_range.1 - self.y_range.0
    }

    /// The cell at offsets `(x, y)` is excluded.
    pub open spec fn excludes_cell(&self, x: int, y: int) -> bool {
        exists|i: int|
            0 <= i < self.limitations@.len() && self.limitations@[i].0 == x
                && self.limitations@[i].1 == y
    }

    /// Whether both ranges run from low to high.
    pub fn is_valid(&self) -> (r: bool)
        ensures
            r == self.wf(),
    {
        self.x_range.0 <= self.x_range.1 && self.y_range.0 <= self.y_range.1
    }

    /// `x_range.1 - x_range.0`.
    pub fn x_size(&self) -> (r: usize)
        requires
            self.x_range.0 <= self.x_range.1,
        ensures
            r == self.spec_x_size(),
    {
        self.x_range.1 - self.x_range.0
    }

    /// `y_range.1 - y_range.0`.
    pub fn y_size(&self) -> (r: usize)
        requires
            self.y_range.0 <= self.y_range.1,
        ensures
            r == self.spec_y_size(),
    {
        self.y_range.1 - self.y_range.0
    }

    /// Whether the cell at offsets `(x, y)` is excluded.
    pub fn excludes(&self, x: usize, y: usize) -> (r: bool)
        ensures
            r == self.excludes_cell(x as int, y as int),
    {
        let mut i: usize = 0;
        while i < self.limitations.len()
            invariant
                i <= self.limitations@.len(),
                forall|j: int|
                    0 <= j < i ==> !(self.limitations@[j].0 == x && self.limitations@[j].1 == y),
            decreases self.limitations@.len() - i,
        {
            if self.limitations[i].0 == x && self.limitations[i].1 == y {
                return true;
            }
            i = i + 1;
        }
        false
    }
}

/// The default map: letters `A` to `H` across, `I` to `P` down, nothing excluded.
impl Default for GridMap {
    fn default() -> (r: Self)
        ensures
            r.name@ == "generic"@,
            r.x_type == RangeType::Alpha,
            r.y_type == RangeType::Alpha,
            r.x_range == ('A' as usize, 'H' as usize),
            r.y_range == ('I' as usize, 'P' as usize),
            r.limitations@.len() == 0,
    {
        GridMap {
            name: "generic".to_owned(),
            x_type: RangeType::Alpha,
            y_type: RangeType::Alpha,
            x_range: ('A' as usize, 'H' as usize),
            y_range: ('I' as usize, 'P' as usize),
            limitations: Vec::new(),
        }
    }
}

/// Command-line options: the name of a map in the catalog, if one is wanted.
pub struct Args {
    pub name: Option<String>,
}

} // verus!
