//! What the parts of the library promise, in terms of what goes in and what
//! comes out.

pub mod course;
pub mod detections;
pub mod dialogue;
pub mod documents;
pub mod options;
pub mod probes;
pub mod scripts;
pub mod services;
pub mod shown;
pub mod systems;
pub mod texts;
pub mod tools;
pub mod views;
