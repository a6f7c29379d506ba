//! A terminal feed reader's core: the data model, the interaction state
//! machine, feed synchronisation and the values exchanged with the store.
//!
//! The state machine touches neither the terminal, nor the store, nor the
//! network. A transition takes a key or the result of background work and
//! says what the host is to do; the host does it and reports back.

pub mod app;
pub mod document;
pub mod entry_view;
pub mod event;
pub mod expiry;
pub mod feed_list;
pub mod layout;
pub mod model;
pub mod order;
pub mod popup;
pub mod record;
pub mod sync;
pub mod task;
pub mod text;
pub mod wellformed;
