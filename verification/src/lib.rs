//! Runtime lifecycle core of a network service.
//!
//! The library keeps a set of compiled templates hot-reloadable from
//! filesystem change notifications while the service handles traffic,
//! propagates distributed-trace context through every request, and
//! coordinates an orderly shutdown across background watchers and
//! in-flight work.
//!
//! The change-notification subscription, the HTTP stack and the OS signal
//! listeners are asynchronous capabilities owned by the hosting process;
//! the library holds the decisions: which extracted trace context parents
//! a request span, how a response status is classified, when multi-root
//! watcher setup succeeds, how change-event batches drive reloads, what a
//! reload failure or a stream failure does to the watch loop, in which
//! order the middleware layers wrap a request, and when the accept loop
//! stops and the process has drained.

pub mod pipeline;
pub mod reload;
pub mod shutdown;
pub mod snapshot;
pub mod span;
pub mod watch;
