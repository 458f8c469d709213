/// Which directory entries the batch runner selects for processing.
pub mod batch;
/// Reducing a raw detection table to at most one accepted bounding box.
pub mod detection;
/// Clamped, centered crop windows computed from a bounding box.
pub mod geometry;
/// Per-image decisions: filtering, crop geometry, and the outcome taxonomy.
pub mod pipeline;
