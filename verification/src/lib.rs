//! A local development server for compiled WebAssembly modules, as a
//! verified core: the request router, the live-reload signal and the guard
//! that keeps a single server per machine.
//!
//! The library decides and never acts. It does not open a socket, read a
//! file or start a process. Whatever has to happen outside is named by a
//! value that a function returns (a `RoutePlan`, a `GuardAction`, a
//! `ServerAction`), and what came of it is handed to the next call. The
//! program around the library carries the actions out.
//!
//! - `router`: from a request path to the answer, by fixed rules in a fixed
//!   order, with the look-ups it needs on the way.
//! - `reload`: the "rebuild occurred" flag that one poll consumes, and the
//!   clients that asked for the entry page.
//! - `guard`: the record of the running server's process id, and the steps
//!   that displace a live prior instance or clear a stale record.
//! - `server`: start-up, stage by stage, and the accept-and-handle loop.
//! - `mime`, `text`, `decimal`: content types, paths and numbers as text.
//! - `session`: what one running server serves.
//! - `plugin`: which plugin operation a subcommand asks for.
//!
//! Every executable function is specified against a spec function over
//! mathematical values, and the properties that tie several calls together
//! are stated and proved as `lemma_` functions next to the functions they
//! speak of.

pub mod decimal;
pub mod guard;
pub mod mime;
pub mod plugin;
pub mod reload;
pub mod router;
pub mod server;
pub mod session;
pub mod text;
