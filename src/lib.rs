//! Rendering of 2D polygons draped onto 3D terrain.
//!
//! Each polygon is extruded into two vertical prisms: the polyhedron built from its own rings,
//! and the prism over its axis-aligned bounding rectangle. A first pass over the polyhedron
//! marks, in the stencil buffer, the terrain pixels enclosed by the polygon; a second pass over
//! the bounding prism paints those pixels and clears the stencil again.
//!
//! Many polygons share one `PolygonBuffer`; which of them a draw shows is chosen by merging
//! their `PolygonBufferIndices`.

pub mod buffer;
pub mod polygon;
pub mod render;

pub use buffer::{DrapeablePolygon, PolygonBuffer, PolygonBufferIndices};
pub use polygon::{Polygon, Vertex};
pub use render::{
    apply_fragment, apply_stencil_op, bounding_box_pipeline, comparison_holds,
    polyhedron_pipeline, run_pass, Comparison, CullFace, DepthState, DrapingRenderer, DrawPass,
    Fragment, Order, PipelineConfig, Pool, StencilOp, StencilSide,
};
