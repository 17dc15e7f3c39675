//! A small front-end core: fetch a list of story ids, keep the first ten,
//! and render them as a placeholder list.
//!
//! The crate is organised as a state machine (`state`), a response
//! parsing-and-shaping step (`fetch`), and a pure render function (`render`).

pub mod fetch;
pub mod render;
pub mod state;

pub use fetch::FetchError;
pub use fetch::endpoint_url;
pub use fetch::handle_response;
pub use fetch::shape;
pub use render::ListEntry;
pub use render::ListNode;
pub use render::PageNode;
pub use render::placeholder;
pub use render::view;
pub use state::Cmd;
pub use state::Model;
pub use state::Msg;
pub use state::init;
pub use state::update;

use vstd::prelude::*;

verus! {

/// One story reference, wrapping the integer id delivered by the endpoint.
#[derive(Debug, Clone, Copy, PartialEq, Eq, Structural)]
pub struct Item {
    pub id: i64,
}

} // verus!
