//! Western music theory primitives: the seven natural note letters with
//! their pitch offsets, accidentals, and generic (staff-position) intervals
//! computed by cyclic traversal of the natural-letter order.

pub mod interval;
pub mod note;
