//! A crowdfunding marketplace: projects with milestones and progress updates,
//! a gapless per-project ledger of donations, and impact figures derived from
//! them. The state lives in a flat typed key-value store; every operation is
//! stated and proved against a mathematical model of that store.

pub mod address;
pub mod consistency;
pub mod contract;
pub mod error;
pub mod event;
pub mod history;
pub mod laws;
pub mod lifecycle;
pub mod model;
pub mod paging;
pub mod rules;
pub mod storage;
pub mod text;
pub mod types;

pub use address::Address;
pub use contract::MarketplaceContract;
pub use error::Error;
pub use event::Event;
pub use types::{Donation, Location, Milestone, Project, Stats, Update};
