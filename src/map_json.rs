use vstd::prelude::*;

use crate::common::{GridMap, Range, RangeType};

verus! {

/// One coordinate of a catalog point: a letter or a number.
#[derive(Clone, Copy, PartialEq, Eq, Debug, Structural)]
pub enum MapPointValue {
    Alpha(char),
    Numeric(usize),
}

/// A catalog point, `(x, y)` in label space.
#[derive(PartialEq, Debug)]
pub struct MapPoint {
    pub point: (MapPointValue, MapPointValue),
}

/// A named map as the catalog describes it: two corner points and the
/// excluded points, all in label space.
#[derive(PartialEq, Debug)]
pub struct MapJson {
    pub name: String,
    pub start: MapPoint,
    pub end: MapPoint,
    pub limitations: Vec<MapPoint>,
}

/// The raw value of a coordinate: a letter's character code cut to its low
/// byte, or the number itself.
pub open spec fn point_value(v: MapPointValue) -> usize {
    match v {
        MapPointValue::Alpha(c) => (c as u8) as usize,
        MapPointValue::Numeric(n) => n,
    }
}

/// The label kind that a coordinate's tag gives its axis.
pub open spec fn value_kind(v: MapPointValue) -> RangeType {
    match v {
        MapPointValue::Alpha(_) => RangeType::Alpha,
        MapPointValue::Numeric(_) => RangeType::Numeric,
    }
}

/// The raw values of a point, `(x, y)`.
pub open spec fn point_tuple(p: MapPoint) -> Range {
    (point_value(p.point.0), point_value(p.point.1))
}

/// The points of `points` as offsets from `origin`, in order; a point below
/// `origin` on either axis lies outside every grid and is left out.
pub open spec fn offsets_from(points: Seq<MapPoint>, origin: Range) -> Seq<Range>
    decreases points.len(),
{
    if points.len() == 0 {
        seq![]
    } else {
        let rest = offsets_from(points.drop_last(), origin);
        let t = point_tuple(points.last());
        if t.0 >= origin.0 && t.1 >= origin.1 {
            rest.push(((t.0 - origin.0) as usize, (t.1 - origin.1) as usize))
        } else {
            rest
        }
    }
}

impl MapJson {
    /// The X range, from the start point to the end point.
    pub open spec fn spec_x_range(&self) -> Range {
        (point_value(self.start.point.0), point_value(self.end.point.0))
    }

    /// The Y range, from the start point to the end point.
    pub open spec fn spec_y_range(&self) -> Range {
        (point_value(self.start.point.1), point_value(self.end.point.1))
    }

    /// `m` is this catalog entry in grid form.
    pub open spec fn converts_to(&self, m: GridMap) -> bool {
        &&& m.name@ == self.name@
        &&& m.x_type == value_kind(self.start.point.0)
        &&& m.y_type == value_kind(self.start.point.1)
        &&& m.x_range == self.spec_x_range()
        &&& m.y_range == self.spec_y_range()
        &&& m.limitations@ == offsets_from(
            self.limitations@,
            (self.spec_x_range().0, self.spec_y_range().0),
        )
    }

    pub fn x_range_type(&self) -> (r: RangeType)
        ensures
            r == value_kind(self.start.point.0),
    {
        match self.start.point.0 {
            MapPointValue::Alpha(_) => RangeType::Alpha,
            MapPointValue::Numeric(_) => RangeType::Numeric,
        }
    }

    pub fn y_range_type(&self) -> (r: RangeType)
        ensures
            r == value_kind(self.start.point.1),
    {
        match self.start.point.1 {
            MapPointValue::Alpha(_) => RangeType::Alpha,
            MapPointValue::Numeric(_) => RangeType::Numeric,
        }
    }

    pub fn x_range(&self) -> (r: Range)
        ensures
            r == self.spec_x_range(),
    {
        (raw_value(self.start.point.0), raw_value(self.end.point.0))
    }

    pub fn y_range(&self) -> (r: Range)
        ensures
            r == self.spec_y_range(),
    {
        (raw_value(self.start.point.1), raw_value(self.end.point.1))
    }

    /// The excluded points, in label space.
    pub fn limitations(&self) -> (r: Vec<Range>)
        ensures
            r@ == self.limitations@.map_values(|p: MapPoint| point_tuple(p)),
    {
        let mut limitations: Vec<Range> = Vec::new();
        let mut i: usize = 0;
        while i < self.limitations.len()
            invariant
                i <= self.limitations@.len(),
                limitations@ == self.limitations@.subrange(0, i as int).map_values(
                    |p: MapPoint| point_tuple(p),
                ),
            decreases self.limitations@.len() - i,
        {
            limitations.push(self.limitations[i].to_tuple());
            assert(self.limitations@.subrange(0, i + 1).map_values(|p: MapPoint| point_tuple(p))
                =~= limitations@);
            i = i + 1;
        }
        assert(self.limitations@.subrange(0, i as int) =~= self.limitations@);
        limitations
    }
}

impl MapPoint {
    pub fn to_tuple(&self) -> (r: Range)
        ensures
            r == point_tuple(*self),
    {
        (raw_value(self.point.0), raw_value(self.point.1))
    }
}

fn raw_value(v: MapPointValue) -> (r: usize)
    ensures
        r == point_value(v),
{
    match v {
        MapPointValue::Alpha(c) => (c as u8) as usize,
        MapPointValue::Numeric(n) => n,
    }
}

impl GridMap {
    /// The grid form of a catalog entry: axis kinds from the start point's
    /// tags, ranges from start to end, and the excluded points as offsets
    /// from the axis minimums.
    pub fn from(map_json: MapJson) -> (r: GridMap)
        ensures
            map_json.converts_to(r),
    {
        let x_range = map_json.x_range();
        let y_range = map_json.y_range();
        let points = map_json.limitations();
        let ghost src = map_json.limitations@;
        let mut limitations: Vec<Range> = Vec::new();
        let mut i: usize = 0;
        while i < points.len()
            invariant
                i <= points@.len(),
                points@ == src.map_values(|p: MapPoint| point_tuple(p)),
                limitations@ == offsets_from(src.subrange(0, i as int), (x_range.0, y_range.0)),
            decreases points@.len() - i,
        {
            let (x, y) = points[i];
            assert(src.subrange(0, i + 1).drop_last() =~= src.subrange(0, i as int));
            assert(src.subrange(0, i + 1).last() == src[i as int]);
            if x >= x_range.0 && y >= y_range.0 {
                limitations.push((x - x_range.0, y - y_range.0));
            }
            i = i + 1;
        }
        assert(src.subrange(0, i as int) =~= src);
        GridMap {
            x_type: map_json.x_range_type(),
            y_type: map_json.y_range_type(),
            x_range,
            y_range,
            limitations,
            name: map_json.name,
        }
    }
}

/// The default catalog entry: letters `A` to `H` across, `I` to `P` down,
/// nothing excluded.
impl Default for MapJson {
    fn default() -> (r: Self)
        ensures
            r.name@ == "generic"@,
            r.start.point == (MapPointValue::Alpha('A'), MapPointValue::Alpha('I')),
            r.end.point == (MapPointValue::Alpha('H'), MapPointValue::Alpha('P')),
            r.limitations@.len() == 0,
    {
        MapJson {
            name: "generic".to_owned(),
            start: MapPoint { point: (MapPointValue::Alpha('A'), MapPointValue::Alpha('I')) },
            end: MapPoint { point: (MapPointValue::Alpha('H'), MapPointValue::Alpha('P')) },
            limitations: Vec::new(),
        }
    }
}

/// The first entry of `maps` named `name`, in grid form; `None` where no
/// entry has that name.
pub fn special_map(maps: Vec<MapJson>, name: String) -> (r: Option<GridMap>)
    ensures
        r is None <==> forall|i: int| 0 <= i < maps@.len() ==> maps@[i].name@ != name@,
        r matches Some(m) ==> exists|i: int|
            0 <= i < maps@.len() && maps@[i].name@ == name@ && maps@[i].converts_to(m)
                && forall|j: int| 0 <= j < i ==> maps@[j].name@ != name@,
{
    let ghost all = maps@;
    let mut entries = maps;
    let mut i: usize = 0;
    while i < entries.len()
        invariant
            entries@ == all,
            i <= all.len(),
            all == maps@,
            forall|j: int| 0 <= j < i ==> all[j].name@ != name@,
        decreases all.len() - i,
    {
        if entries[i].name == name {
            let map_json = entries.remove(i);
            assert(map_json == all[i as int]);
            let m = GridMap::from(map_json);
            assert(all[i as int].converts_to(m));
            assert(all[i as int].name@ == name@);
            assert(!(forall|k: int| 0 <= k < maps@.len() ==> maps@[k].name@ != name@));
            return Some(m);
        }
        i = i + 1;
    }
    None
}

} // verus!
