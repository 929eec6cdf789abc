use vstd::prelude::*;

use crate::common::{GridMap, Range};

verus! {

/// How many draws generation makes before it gives up.
pub const MAX_LOOP_COUNT: usize = 1000;

/// Why no coordinate could be generated.
#[derive(Clone, Copy, PartialEq, Eq, Debug, Structural)]
pub enum GenerateError {
    /// An axis has size zero, so there is nothing to draw from.
    EmptyAxis,
    /// Every draw within the attempt cap hit an excluded cell.
    Exhausted,
}

impl GridMap {
    /// An axis has size zero.
    pub open spec fn has_empty_axis(&self) -> bool {
        self.spec_x_size() == 0 || self.spec_y_size() == 0
    }

    /// `c` lies in the sampling space `[0, x_size) × [0, y_size)` and is not excluded.
    pub open spec fn allows(&self, c: Range) -> bool {
        &&& c.0 < self.spec_x_size()
        &&& c.1 < self.spec_y_size()
        &&& !self.excludes_cell(c.0 as int, c.1 as int)
    }

    /// No exclusion lies in the sampling space, so no draw can be rejected.
    pub open spec fn sampling_space_free(&self) -> bool {
        forall|i: int|
            0 <= i < self.limitations@.len() ==> !(#[trigger] self.limitations@[i].0
                < self.spec_x_size() && self.limitations@[i].1 < self.spec_y_size())
    }

    /// `r` is the outcome of generation on the draws `draws`: the first one,
    /// within the first `MAX_LOOP_COUNT`, that this map allows, or `Exhausted`
    /// where there is none; `EmptyAxis` where an axis has size zero.
    pub open spec fn outcome_of(&self, draws: Seq<Range>, r: Result<Range, GenerateError>) -> bool {
        if self.has_empty_axis() {
            r == Err::<Range, GenerateError>(GenerateError::EmptyAxis)
        } else {
            match r {
                Ok(c) => exists|i: int|
                    0 <= i < attempts(draws) && draws[i] == c && self.allows(c) && forall|j: int|
                        0 <= j < i ==> !self.allows(#[trigger] draws[j]),
                Err(e) => e == GenerateError::Exhausted && forall|i: int|
                    0 <= i < attempts(draws) ==> !self.allows(#[trigger] draws[i]),
            }
        }
    }

    /// `draws` are the draws that generation made before it returned `r`:
    /// each lies in the sampling space, and drawing stopped at the first
    /// allowed one or after `MAX_LOOP_COUNT` rejected ones.
    pub open spec fn generated_from(&self, draws: Seq<Range>, r: Result<Range, GenerateError>) -> bool {
        &&& draws.len() <= MAX_LOOP_COUNT
        &&& forall|i: int|
            0 <= i < draws.len() ==> (#[trigger] draws[i]).0 < self.spec_x_size() && draws[i].1
                < self.spec_y_size()
        &&& self.outcome_of(draws, r)
        &&& self.has_empty_axis() ==> draws.len() == 0
        &&& !self.has_empty_axis() ==> match r {
            Ok(c) => draws.len() > 0 && draws.last() == c,
            Err(_) => draws.len() == MAX_LOOP_COUNT,
        }
    }

    /// Draws offsets uniformly from `[0, x_size) × [0, y_size)` until one is not
    /// excluded, for at most `MAX_LOOP_COUNT` draws.
    ///
    /// The draws stop short of `x_size` and `y_size`, while rendering shows
    /// offsets up to and including them: the last column and the last row are
    /// drawn but never generated.
    pub fn generate_coords(&self) -> (r: Result<Range, GenerateError>)
        requires
            self.wf(),
        ensures
            exists|draws: Seq<Range>| #[trigger] self.generated_from(draws, r),
            self.has_empty_axis() <==> r == Err::<Range, GenerateError>(GenerateError::EmptyAxis),
            r matches Ok(c) ==> self.allows(c),
            !self.has_empty_axis() && r is Err ==> r == Err::<Range, GenerateError>(
                GenerateError::Exhausted,
            ),
            !self.has_empty_axis() && self.sampling_space_free() ==> r is Ok,
    {
        let mut draws: Vec<Range> = Vec::new();
        let x_size = self.x_size();
        let y_size = self.y_size();
        if x_size == 0 || y_size == 0 {
            let r = self.first_allowed(&draws);
            assert(self.generated_from(draws@, r));
            return r;
        }
        let mut found = false;
        while draws.len() < MAX_LOOP_COUNT && !found
            invariant
                self.wf(),
                x_size == self.spec_x_size(),
                y_size == self.spec_y_size(),
                x_size > 0,
                y_size > 0,
                draws@.len() <= MAX_LOOP_COUNT,
                forall|i: int|
                    0 <= i < draws@.len() ==> (#[trigger] draws@[i]).0 < x_size && draws@[i].1
                        < y_size,
                found ==> draws@.len() > 0 && self.allows(draws@.last()),
                forall|i: int|
                    0 <= i < draws@.len() - (if found {
                        1int
                    } else {
                        0int
                    }) ==> !self.allows(#[trigger] draws@[i]),
                self.sampling_space_free() ==> draws@.len() == 0 || found,
            decreases MAX_LOOP_COUNT - draws@.len(),
        {
            let x = random_below(x_size);
            let y = random_below(y_size);
            found = !self.excludes(x, y);
            proof {
                if self.sampling_space_free() {
                    assert(!self.excludes_cell(x as int, y as int));
                }
            }
            draws.push((x, y));
        }
        let r = self.first_allowed(&draws);
        proof {
            if found {
                let k = draws@.len() - 1;
                assert(self.allows(draws@[k]));
                assert(r is Ok) by {
                    if r is Err {
                        assert(!self.allows(draws@[k]));
                    }
                }
                let c = r->Ok_0;
                let i = choose|i: int|
                    0 <= i < attempts(draws@) && draws@[i] == c && self.allows(c) && forall|j: int|
                        0 <= j < i ==> !self.allows(#[trigger] draws@[j]);
                assert(i == k);
            } else {
                assert(draws@.len() == MAX_LOOP_COUNT);
                if r is Ok {
                    let c = r->Ok_0;
                    let i = choose|i: int|
                        0 <= i < attempts(draws@) && draws@[i] == c && self.allows(c) && forall|
                            j: int,
                        | 0 <= j < i ==> !self.allows(#[trigger] draws@[j]);
                    assert(!self.allows(draws@[i]));
                }
            }
        }
        assert(self.generated_from(draws@, r));
        r
    }

    /// The first of `draws`, within the first `MAX_LOOP_COUNT`, that this map
    /// allows: generation with the draws given instead of random ones.
    pub fn first_allowed(&self, draws: &Vec<Range>) -> (r: Result<Range, GenerateError>)
        requires
            self.wf(),
        ensures
            self.outcome_of(draws@, r),
    {
        let x_size = self.x_size();
        let y_size = self.y_size();
        if x_size == 0 || y_size == 0 {
            return Err(GenerateError::EmptyAxis);
        }
        let mut i: usize = 0;
        while i < draws.len() && i < MAX_LOOP_COUNT
            invariant
                self.wf(),
                x_size == self.spec_x_size(),
                y_size == self.spec_y_size(),
                i <= attempts(draws@),
                forall|j: int| 0 <= j < i ==> !self.allows(#[trigger] draws@[j]),
            decreases MAX_LOOP_COUNT - i,
        {
            let (x, y) = draws[i];
            if x < x_size && y < y_size && !self.excludes(x, y) {
                return Ok((x, y));
            }
            i = i + 1;
        }
        Err(GenerateError::Exhausted)
    }
}

/// How many of `draws` generation looks at.
pub open spec fn attempts(draws: Seq<Range>) -> int {
    if draws.len() < MAX_LOOP_COUNT {
        draws.len() as int
    } else {
        MAX_LOOP_COUNT as int
    }
}

/// Generation on given draws has one outcome: two outcomes of the same map
/// on the same draws are equal.
pub proof fn lemma_outcome_unique(
    map: GridMap,
    draws: Seq<Range>,
    r1: Result<Range, GenerateError>,
    r2: Result<Range, GenerateError>,
)
    requires
        map.outcome_of(draws, r1),
        map.outcome_of(draws, r2),
    ensures
        r1 == r2,
{
    if !map.has_empty_axis() {
        if r1 is Ok && r2 is Ok {
            let c1 = r1->Ok_0;
            let c2 = r2->Ok_0;
            let i1 = choose|i: int|
                0 <= i < attempts(draws) && draws[i] == c1 && map.allows(c1) && forall|j: int|
                    0 <= j < i ==> !map.allows(#[trigger] draws[j]);
            let i2 = choose|i: int|
                0 <= i < attempts(draws) && draws[i] == c2 && map.allows(c2) && forall|j: int|
                    0 <= j < i ==> !map.allows(#[trigger] draws[j]);
            if i1 < i2 {
                assert(!map.allows(draws[i1]));
            } else if i2 < i1 {
                assert(!map.allows(draws[i2]));
            }
        } else if r1 is Ok {
            let c1 = r1->Ok_0;
            let i1 = choose|i: int|
                0 <= i < attempts(draws) && draws[i] == c1 && map.allows(c1) && forall|j: int|
                    0 <= j < i ==> !map.allows(#[trigger] draws[j]);
            assert(!map.allows(draws[i1]));
        } else if r2 is Ok {
            let c2 = r2->Ok_0;
            let i2 = choose|i: int|
                0 <= i < attempts(draws) && draws[i] == c2 && map.allows(c2) && forall|j: int|
                    0 <= j < i ==> !map.allows(#[trigger] draws[j]);
            assert(!map.allows(draws[i2]));
        }
    }
}

/// Exclusions outside the sampling space are inert: a map that differs from
/// `map` only by the extra exclusions `extra`, none of which lies in
/// `[0, x_size) × [0, y_size)`, allows the same cells and gives the same
/// outcome on the same draws.
pub proof fn lemma_inert_exclusions(
    map: GridMap,
    other: GridMap,
    extra: Seq<Range>,
    draws: Seq<Range>,
    r: Result<Range, GenerateError>,
)
    requires
        map.wf(),
        other.x_range == map.x_range,
        other.y_range == map.y_range,
        other.limitations@ == map.limitations@ + extra,
        forall|i: int|
            0 <= i < extra.len() ==> (#[trigger] extra[i]).0 >= map.spec_x_size() || extra[i].1
                >= map.spec_y_size(),
    ensures
        forall|c: Range| #[trigger] other.allows(c) == map.allows(c),
        other.outcome_of(draws, r) == map.outcome_of(draws, r),
        other.generated_from(draws, r) == map.generated_from(draws, r),
{
    let n = map.limitations@.len();
    assert forall|c: Range| #[trigger] other.allows(c) == map.allows(c) by {
        if c.0 < map.spec_x_size() && c.1 < map.spec_y_size() {
            if other.excludes_cell(c.0 as int, c.1 as int) {
                let i = choose|i: int|
                    0 <= i < other.limitations@.len() && other.limitations@[i].0 == c.0
                        && other.limitations@[i].1 == c.1;
                if i >= n {
                    assert(other.limitations@[i] == extra[i - n]);
                } else {
                    assert(map.limitations@[i] == other.limitations@[i]);
                }
            }
            if map.excludes_cell(c.0 as int, c.1 as int) {
                let i = choose|i: int|
                    0 <= i < map.limitations@.len() && map.limitations@[i].0 == c.0
                        && map.limitations@[i].1 == c.1;
                assert(map.limitations@[i] == other.limitations@[i]);
            }
        }
    }
    if !map.has_empty_axis() {
        if r is Ok {
            let c = r->Ok_0;
            if map.outcome_of(draws, r) {
                let i = choose|i: int|
                    0 <= i < attempts(draws) && draws[i] == c && map.allows(c) && forall|j: int|
                        0 <= j < i ==> !map.allows(#[trigger] draws[j]);
                assert(other.allows(draws[i]));
            }
            if other.outcome_of(draws, r) {
                let i = choose|i: int|
                    0 <= i < attempts(draws) && draws[i] == c && other.allows(c) && forall|j: int|
                        0 <= j < i ==> !other.allows(#[trigger] draws[j]);
                assert(map.allows(draws[i]));
            }
        }
    }
}

/// Relies on rand's `thread_rng` and `Rng::gen_range`: a value in `0..bound`;
/// `gen_range` panics on an empty range.
#[verifier::external_body]
fn random_below(bound: usize) -> (r: usize)
    requires
        bound > 0,
    ensures
        r < bound,
{
    rand::Rng::gen_range(&mut rand::thread_rng(), 0..bound)
}

} // verus!
