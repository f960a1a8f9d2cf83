//! Edge gateway core: routing of inbound HTTP paths to backend targets,
//! destination-URL construction, and verbatim request/response relay planning.
//!
//! The gateway inspects each inbound request's path, selects a backend
//! (an application API or an AI service) or answers locally (`/health`),
//! rewrites the path where the route asks for it, and relays method,
//! headers, body and query string byte-for-byte. Transport failures are
//! mapped to gateway-level error responses. All of that logic lives here;
//! the listening socket and the outbound HTTP client live outside.

pub mod bytes;
pub mod forward;
pub mod laws;
pub mod router;
