//! Verified core of a favicon resolution service.
//!
//! Given a site identifier, the library locates the most appropriate icon
//! resource: it normalizes the identifier into a base URL, ranks the icon
//! links declared in the site's HTML, classifies MIME types, and drives the
//! fallback strategy (well-known path first, then the best declared
//! candidate) as a state machine whose network effects are performed by the
//! caller. Batch aggregation over many sites is order-preserving and
//! tolerates per-site failure.

pub mod favicon;
pub mod mime_type;
pub mod resolver;
pub mod utils;
pub mod website;
