//! Backend logic for two small desktop front ends: a greeting formatter and
//! the data behind a tabbed estimating tool (bill of materials, summaries,
//! order planning, tab selection).
//!
//! The library computes on plain values and is verified with Verus; reading
//! files and drawing windows is left to the front ends.

pub mod bom;
pub mod cost;
pub mod count;
pub mod greeting;
pub mod planning;
pub mod reader;
pub mod state;
pub mod tabs;
pub mod text;

pub use bom::{BomItem, LoadError};
pub use greeting::{make_greeting, GreetingRequest, GreetingResponse};
pub use planning::MaterialRow;
pub use state::{AdvancedSummary, AppState, OverviewSummary, SettingsSummary};
pub use tabs::{Message, TabKind};
