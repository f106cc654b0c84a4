//! The core of an HTTP client: how one request is carried out.
//!
//! * [`body`]: what a request sends, whether as a buffer that can be sent again, or
//!   from a reader or a stream that can be read only once.
//! * [`task`]: one request on its way through redirects; each response is looked at,
//!   and the request is rewritten and sent again, delivered, or given up.
//! * [`executor`] and [`bridge`]: how a thread blocks on a request that a worker
//!   thread carries out.
//! * [`request`], [`headers`], [`url`] and [`client`]: requests and how they are put
//!   together, and the settings of a client.
//!
//! Nothing here touches the network, the clock or a thread. The library says what
//! to do next; its caller does it, and reports what came of it.

pub mod body;
pub mod bridge;
pub mod buffer;
pub mod client;
pub mod encoding;
pub mod error;
pub mod executor;
pub mod headers;
pub mod request;
pub mod task;
pub mod text;
pub mod time;
pub mod url;
