//! Server-side rendering through a renderer process that listens on a local
//! TCP port: how the process is started, how a call reaches it, what goes
//! over the wire, and what can go wrong.
//!
//! Nothing here touches a file, a socket or a process. Constructing the
//! system and rendering are each a sequence of steps: a step says what the
//! caller has to do, the caller does it and reports how it ended.

pub mod error;
pub mod json;
pub mod protocol;
pub mod session;
pub mod ssr;
pub mod startup;
pub mod text;
pub mod worker;

pub use error::{InitializationError, IoFailure, IoFailureKind, RenderingError};
pub use protocol::{RequestEnvelope, RequestUrl};
pub use session::{RenderAction, RenderEvent, RenderPhase, RenderSession};
pub use ssr::{JsRenderer, Ssr, SsrConfig};
pub use startup::{Startup, StartupAction, StartupEvent, StartupPhase};
pub use worker::{HostOs, JsWorkerLog};
