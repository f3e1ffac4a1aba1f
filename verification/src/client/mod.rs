//! The parts of the browser client that decide or compute: the user form,
//! the state of the user list, the addresses of the API, paging, and the
//! wording of what is shown.

pub mod api;
pub mod display;
pub mod form;
pub mod pager;
pub mod state;
