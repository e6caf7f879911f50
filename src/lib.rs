//! Verified shape and index logic for assembling the adaptive-optics control
//! quadratic program: measurement extraction through the sensor mask, the
//! removal of the rotational column pair from the transfer matrix, the
//! dataset's dimensional checks and the translation of the solver's outcome.

pub mod constraint;
pub mod mask;
pub mod pipeline;
