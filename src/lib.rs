//! Frame selection and OCR dispatch decisions for a continuous screen-capture pipeline.
//!
//! The capture loop, the OCR engines and the result channel live with the caller; this crate
//! decides which frames are worth recognising, when a recognition task may start, and how the
//! engines' token output is normalised and assembled into results.
pub mod foreign;
pub mod selector;
pub mod tokens;
pub mod apple;
pub mod dispatch;
