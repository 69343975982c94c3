pub mod dynamic;
pub mod preallocated;
