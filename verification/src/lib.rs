//! Install and update rules of the XLM launcher wrapper.
//!
//! The library holds every decision the wrapper takes: which release to
//! fetch, whether an installation is current, the order of the installation
//! steps, and what is handed to the launched program. The caller performs
//! the network, file and process work and reports back what happened.

pub mod text;
pub mod weburl;
pub mod source;
pub mod release;
pub mod install;
pub mod install_order;
pub mod launch;
pub mod includes;
pub mod install_steam_tool;
pub mod setup;
pub mod orchestrator;
pub mod ui;
pub mod launch_order;
