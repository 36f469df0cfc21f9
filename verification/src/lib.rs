//! The core of the Ramifi issue tracker: issues with a lifecycle, comments and
//! users, kept in the stores of `local_issues_lib`; filtered and searched
//! listings; forking; the snapshot format of the whole application state; and
//! the single-slot handoff through which an imported snapshot reaches the
//! rendering loop.
//!
//! Everything here is verified but for the calls into `local_issues_lib`,
//! `serde_json` and one function of std, which stand in `store`, `json` and
//! `text` behind contracts that are believed, not proved.

pub mod account;
pub mod directory;
pub mod error;
pub mod frame;
pub mod import;
pub mod issue;
pub mod json;
pub mod layout;
pub mod model;
pub mod repository;
pub mod snapshot;
pub mod state;
pub mod status;
pub mod store;
pub mod text;

pub use account::Account;
pub use directory::UserDirectory;
pub use error::TrackerError;
pub use import::ImportSlot;
pub use issue::{Comment, Issue};
pub use repository::Repository;
pub use state::ApplicationState;
pub use status::{FilterStatus, Status};
