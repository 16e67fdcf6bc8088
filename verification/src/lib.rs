//! Signature-based trust policy for container images.
//!
//! Before an image is pulled and run, a policy decides whether it is trusted.
//! The policy binds signing mechanisms to scopes of image names; an image has
//! to satisfy every mechanism of the most specific scope that covers it. The
//! one mechanism so far is simple signing: a detached OpenPGP signature over
//! a small document that names the image and the digest of its manifest.
//!
//! The crate decides and does nothing else. It never opens a file or a
//! socket, and it does not compute signatures. Its caller reads the policy,
//! fetches the resources that the mechanisms ask for, lists the signature
//! store and verifies each signature against the key ring. A
//! [`session::Session`] tells the caller what to do next and takes the
//! outcome back; what was gathered for a mechanism is its
//! [`mechanism::Evidence`]. Every decision in between is made here, under
//! contracts that Verus has proved.
//! The parsers of image references, of URLs and of base64 text are those of
//! the crates `oci-distribution`, `url` and `base64`; what they return is
//! taken on trust and only given a name.

pub mod error;
pub mod image;
pub mod mechanism;
pub mod policy;
pub mod select;
pub mod session;
pub mod snapshots;
pub mod text;
pub mod validate;

pub use image::Image;
pub use mechanism::{init_all_signing_schemes, SignScheme, SignSchemeEnum};
pub use policy::Policy;
pub use session::Session;
pub use validate::security_validate;
