//! Rules of the Imalink desktop backend: how requests to the sidecar and to
//! the remote backend are formed, how their answers are judged, which files
//! count as images, where a copied file lands, and what is forwarded from the
//! sidecar's output.
//!
//! Nothing here performs I/O. Callers perform it and hand plain values in.

pub mod auth;
pub mod channels;
pub mod exchange;
pub mod files;
pub mod gallery;
pub mod greeting;
pub mod order;
pub mod paths;
pub mod photos;
pub mod request;
pub mod scan;
pub mod sidecar;
pub mod status;
pub mod storage;
pub mod text;
