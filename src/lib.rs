//! Turns device property updates into metric points and decides how their
//! delivery to a metrics sink goes on after a failure.
pub mod text;
pub mod vocabulary;
pub mod normalize;
pub mod point;
pub mod writer;
pub mod dispatch;
pub mod settings;
