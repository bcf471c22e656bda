//! Simulation core of a fixed-formation shooter: a bit-packed raster buffer,
//! sprite compositing and collision primitives, a 55-slot enemy formation
//! driven by an incremental cursor, enemy-bullet pattern selection, and
//! player-bullet/UFO hit resolution.
pub mod alien;
pub mod array_sprite;
pub mod bottom_area;
pub mod canvas;
pub mod dot_data;
pub mod dot_map;
pub mod geom;
pub mod player;
pub mod sprite;
pub mod top_area;
pub mod ufo;
