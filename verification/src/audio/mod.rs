//! Audio encoding arguments and the instrumental mix filter.
pub mod convert;
pub mod mix;
pub mod loudnorm;
