//! A minimal unidirectional-data-flow counter: a `Store` owns the counter
//! state, a `Dispatcher` is the sole mutation gateway, and a `CounterView`
//! drives the render/input/quit loop one decision at a time.

pub mod dispatcher;
pub mod render;
pub mod store;
pub mod view;
