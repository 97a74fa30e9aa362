//! A poll-driven dispatch engine for the Steamworks API: the lifecycle of the
//! native session, the routing of native messages, the fan-out of broadcast
//! events to subscribers, and the correlation of call results with the
//! requests that await them. The values of the leaderboard and workshop
//! features built on the engine live here too.

pub mod call_results;
pub mod dispatch;
pub mod ids;
pub mod lifecycle;
pub mod persona;
pub mod registry;
pub mod remote_storage;
pub mod steam_result;
pub mod string_ext;
pub mod ugc;
pub mod user_stats;

pub use ids::{AppId, SteamId};
pub use lifecycle::InitError;
pub use persona::{PersonaStateChange, PersonaStateChangeFlags};
pub use steam_result::SteamResult;
pub use string_ext::{nul_truncate, FromUtf8NulTruncating};
