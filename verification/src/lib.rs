//! The state-transition core of a terminal dashboard.
//!
//! State changes go one way: an [`actions::AppAction`] is dispatched to the
//! [`store::Store`], passes the middleware chain, and is reduced to the next
//! [`state::AppState`]. Nothing here touches a thread, a channel, a process
//! or the terminal. Whatever a dispatch wants of the world it returns as
//! [`events::Effect`] values, and whatever happens in the world comes back
//! as [`events::Event`] values, which [`store::Store::on_event`] turns into
//! dispatches again.
//!
//! - [`reducers`]: one reducer for each concern of the state, and the
//!   dispatcher that picks and folds them.
//! - [`middlewares`]: the command middleware, which takes queued commands up.
//! - [`store`]: the store, and the turns of the dispatch and render loops.
//! - [`worker`]: what the worker of an external command sends, read by read.
//! - [`keyboard`]: what a key press asks for.
//! - [`components`]: the layout of the tab bar and the reading of widget
//!   templates.
//! - [`laws`]: what holds of all of this, proved.

pub mod geometry;
pub mod text;
pub mod ident;
pub mod actions;
pub mod state;
pub mod errors;
pub mod reducers;
pub mod registry;
pub mod events;
pub mod middlewares;
pub mod store;
pub mod keyboard;
pub mod worker;
pub mod laws;
pub mod components;
