//! Embedded file signing: a fixed-size binary footer carrying an Ed25519
//! signature over the BLAKE3 digest of the content, appended to the content
//! itself so that the signed artifact is self-contained and self-verifying.

pub mod codec;
pub mod crypto;

pub use codec::SignError;
pub use codec::SignedFile;
pub use codec::FOOTER_SIZE;
