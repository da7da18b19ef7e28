pub mod bounds;
pub mod color;
pub mod disabled;
pub mod frame;
pub mod fx;
pub mod grid;
pub mod groups;
pub mod plane;
pub mod root;
pub mod scalar;
pub mod text;

pub use bounds::ItemBounds;
pub use color::{Color, BLACK, BLUE, CYAN, GRAY, GREEN, MAGENTA, RED, WHITE, YELLOW};
pub use frame::{BarGraphItem, VisBarGraph, VisCanvas, VisFrame, VisItem, VisTextArea};
pub use grid::{GridPath, VisGrid, VisGridConf};
pub use plane::{Circle, Line, PolygonGroup, TextLabel, Vis2DPlane};
pub use root::{OutputDestination, VisRoot};
pub use scalar::Scalar;
