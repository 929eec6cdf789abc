pub mod common;
pub mod grid;
pub mod grid_proofs;
pub mod map_json;
pub mod sampling;
pub mod text;

pub use common::{Args, GridMap, Range, RangeType};
pub use grid::{limitations_for_row, GridPrinter};
pub use map_json::{special_map, MapJson, MapPoint, MapPointValue};
pub use sampling::{GenerateError, MAX_LOOP_COUNT};
