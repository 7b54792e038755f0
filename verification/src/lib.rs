//! A vertical scroll container for an immediate-mode interface, on integer
//! coordinates.
//!
//! Every length is a whole number of points: the scrollbar is 16 of them
//! wide, and the library only adds, compares and scales whole numbers. A
//! position stays within `geom::COORD_MAX` of the origin. A frame runs
//! `ScrollArea::prepare`, lets the caller lay content out in the child
//! context, and ends with `ScrollArea::finish`; `ScrollArea::show` does the
//! three in one call.

pub mod geom;
pub mod interact;
pub mod draw;
pub mod layout;
pub mod state;
pub mod area;
pub mod laws;
