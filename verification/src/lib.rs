//! Goldenfile testing: a test writes its output into a staging area, and at
//! the end of the test that output is either compared with the committed
//! goldenfiles or takes their place.
//!
//! This crate holds the decisions of such a test run and proves them. It never
//! touches the file system itself: every function takes what was observed as
//! plain values and answers with what is to be done.

pub mod differs;
pub mod mint;
pub mod model;
pub mod paths;
pub mod recovery;
