//! Keeps a directory of installed workshop items in step with a curated
//! collection of the content service, and holds what a launcher of the game
//! knows about instances, profiles and executables.
//!
//! The heart of the crate is the synchronisation run: which collections
//! still have to be expanded, which items have to be fetched or deleted, what
//! the fetch tool is told, where a staged artifact goes, and when the record
//! of installed versions may be rewritten. Requests, files and processes are
//! the caller's part; it reports what happened and is told what to do next.
//!
//! | module | holds |
//! |---|---|
//! | `workshop_downloader` | the run as a sequence of steps |
//! | `collection`, `expansion` | the expansion of a collection, and what it is proved to find |
//! | `versions`, `form` | the service's reports and the requests for them |
//! | `inventory`, `mod_manifest` | what is installed and what was recorded |
//! | `reconcile` | the plan of a run, and the laws it obeys |
//! | `fetch`, `install` | the fetch tool's arguments and the places of artifacts |
//! | `tables`, `paths`, `text` | hash tables, paths and texts |
//! | `instance`, `profile`, `executable`, `directories`, `game_launcher` | the launcher's data |
//! | `menus`, `ui` | the state of the launcher's dialogs |

pub mod collection;
pub mod directories;
pub mod expansion;
pub mod executable;
pub mod fetch;
pub mod game_launcher;
pub mod install;
pub mod form;
pub mod instance;
pub mod inventory;
pub mod json;
pub mod menus;
pub mod mod_manifest;
pub mod paths;
pub mod profile;
pub mod reconcile;
pub mod tables;
pub mod text;
pub mod ui;
pub mod versions;
pub mod workshop_downloader;
