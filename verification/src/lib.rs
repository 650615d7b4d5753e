//! SynMem: the decision logic of a browser-automation memory service, with
//! contracts checked by Verus.
pub mod text;
pub mod twitter;
pub mod navigation;
pub mod clock;
pub mod marketplace;
pub mod ports;
pub mod memory_tools;
pub mod search_tool;
pub mod macro_tools;
pub mod tags;
pub mod storage;
