//! Named presets of eight sample slots: discovery of the sample library,
//! selection of a preset from input lines, and the whole-collection
//! transformations of the preset store.

pub mod discovery;
pub mod paths;
pub mod sample_set;
pub mod selection;
pub mod store;
