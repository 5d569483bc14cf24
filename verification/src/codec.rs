//! The footer codec and the sign/verify protocol.
//!
//! A signed artifact is the content followed by a fixed 256-byte footer:
//! a 64-byte Ed25519 signature over the BLAKE3 digest of the content, the
//! 32-byte public key, a 4-byte magic marker, and 156 zero bytes of
//! padding. The marker alone decides, structurally, whether a byte stream
//! looks signed; authenticity is decided only by verification.

use vstd::prelude::*;
use vstd::slice::slice_subrange;
use vstd::slice::slice_to_vec;

use crate::crypto::blake3_digest;
use crate::crypto::blake3_of;
use crate::crypto::ed25519_derive_public;
use crate::crypto::ed25519_pk_of;
use crate::crypto::ed25519_pk_valid;
use crate::crypto::ed25519_sig_of;
use crate::crypto::ed25519_sig_valid;
use crate::crypto::ed25519_sign_digest;
use crate::crypto::ed25519_verify_digest;

verus! {

/// Size in bytes of the footer appended to the content when serializing.
pub const FOOTER_SIZE: usize = 256;

/// The 4-byte magic marker that identifies a footer structurally.
pub open spec fn spec_magic() -> Seq<u8> {
    seq![0x53u8, 0x49u8, 0x47u8, 0x21u8]
}

/// The 156 zero bytes that pad the footer to its fixed size.
pub open spec fn spec_padding() -> Seq<u8> {
    Seq::new(156, |i: int| 0u8)
}

/// The fixed 256-byte footer carrying a signature and a public key.
pub open spec fn spec_footer(sig: Seq<u8>, pk: Seq<u8>) -> Seq<u8> {
    sig + pk + spec_magic() + spec_padding()
}

/// The serialized form of an artifact: the content followed by the footer.
pub open spec fn spec_serialize(content: Seq<u8>, sig: Seq<u8>, pk: Seq<u8>) -> Seq<u8> {
    content + spec_footer(sig, pk)
}

/// Structural detection: at least a footer's worth of bytes, with the magic
/// marker at the marker's fixed place near the end of the stream.
pub open spec fn spec_looks_signed(d: Seq<u8>) -> bool {
    &&& d.len() >= 256
    &&& d.subrange(d.len() - 160, d.len() - 156) == spec_magic()
}

/// What parsing recovers from a byte stream: the content, the signature and
/// the public key, or nothing when the stream is too short or unmarked.
pub open spec fn spec_parse(d: Seq<u8>) -> Option<(Seq<u8>, Seq<u8>, Seq<u8>)> {
    if spec_looks_signed(d) {
        Some(
            (
                d.subrange(0, d.len() - 256),
                d.subrange(d.len() - 256, d.len() - 192),
                d.subrange(d.len() - 192, d.len() - 160),
            ),
        )
    } else {
        None
    }
}

/// Failure at verification time: the embedded public key does not decode to
/// a well-formed verification key. A signature that merely does not verify
/// is not an error but a `false` result.
#[derive(Clone, Copy, Debug, PartialEq, Eq, Structural)]
pub enum SignError {
    InvalidKey,
}

/// Content together with the signature over its digest and the public key
/// that the signature is checked against. Self-contained: everything that
/// verification needs is carried inline.
#[derive(Clone, Debug)]
pub struct SignedFile {
    pub content: Vec<u8>,
    pub signature: Vec<u8>,
    pub public_key: Vec<u8>,
}

impl SignedFile {
    /// The fixed field sizes: a 64-byte signature and a 32-byte public key.
    pub open spec fn wf(self) -> bool {
        self.signature@.len() == 64 && self.public_key@.len() == 32
    }

    /// Whether the artifact's signature is valid over the digest of its
    /// content under its own embedded public key.
    pub open spec fn spec_verified(self) -> bool {
        ed25519_sig_valid(self.public_key@, blake3_of(self.content@), self.signature@)
    }

    /// Sign content with a 32-byte secret key: digest the content, sign the
    /// digest, and keep the content together with the signature and the
    /// derived public key. Always succeeds, and the result verifies.
    pub fn sign(content: &[u8], signing_key: &[u8]) -> (r: SignedFile)
        requires
            signing_key@.len() == 32,
        ensures
            r.wf(),
            r.content@ == content@,
            r.signature@ == ed25519_sig_of(signing_key@, blake3_of(content@)),
            r.public_key@ == ed25519_pk_of(signing_key@),
            ed25519_pk_valid(r.public_key@),
            r.spec_verified(),
    {
        let digest = blake3_digest(content);
        let signature = ed25519_sign_digest(signing_key, digest.as_slice());
        let public_key = ed25519_derive_public(signing_key);
        SignedFile { content: slice_to_vec(content), signature, public_key }
    }

    /// Serialize to the content followed by the 256-byte footer.
    pub fn to_bytes(&self) -> (r: Vec<u8>)
        requires
            self.wf(),
        ensures
            r@ == spec_serialize(self.content@, self.signature@, self.public_key@),
            r@.len() == self.content@.len() + 256,
    {
        let mut out: Vec<u8> = Vec::new();
        append_slice(&mut out, self.content.as_slice());
        append_slice(&mut out, self.signature.as_slice());
        append_slice(&mut out, self.public_key.as_slice());
        out.push(0x53);
        out.push(0x49);
        out.push(0x47);
        out.push(0x21);
        append_zeros(&mut out, 156);
        proof {
            assert(out@ =~= spec_serialize(self.content@, self.signature@, self.public_key@));
        }
        out
    }

    /// Parse a byte stream back into an artifact. Nothing is returned for a
    /// stream shorter than the footer or without the magic marker; parsing
    /// succeeding means only that the stream is structurally marked, not
    /// that the signature is authentic.
    pub fn from_bytes(data: &[u8]) -> (r: Option<SignedFile>)
        ensures
            r is Some <==> spec_looks_signed(data@),
            r matches Some(a) ==> a.wf(),
            r matches Some(a) ==> spec_parse(data@) == Some(
                (a.content@, a.signature@, a.public_key@),
            ),
    {
        if data.len() < FOOTER_SIZE {
            return None;
        }
        let n = data.len();
        let marker_hit = data[n - 160] == 0x53 && data[n - 159] == 0x49 && data[n - 158] == 0x47
            && data[n - 157] == 0x21;
        proof {
            lemma_marker_window(data@);
        }
        if !marker_hit {
            return None;
        }
        let content = slice_to_vec(slice_subrange(data, 0, n - 256));
        let signature = slice_to_vec(slice_subrange(data, n - 256, n - 192));
        let public_key = slice_to_vec(slice_subrange(data, n - 192, n - 160));
        Some(SignedFile { content, signature, public_key })
    }

    /// Verify the artifact: recompute the digest of the content and check
    /// the signature under the embedded public key. A key that does not
    /// decode is an error; a signature that does not verify is `false`.
    pub fn verify(&self) -> (r: Result<bool, SignError>)
        requires
            self.wf(),
        ensures
            r is Ok <==> ed25519_pk_valid(self.public_key@),
            r matches Ok(b) ==> b == self.spec_verified(),
            r matches Err(e) ==> e == SignError::InvalidKey,
    {
        let digest = blake3_digest(self.content.as_slice());
        match ed25519_verify_digest(
            self.public_key.as_slice(),
            digest.as_slice(),
            self.signature.as_slice(),
        ) {
            Some(b) => Ok(b),
            None => Err(SignError::InvalidKey),
        }
    }

    /// Cheap structural pre-check: whether the byte stream carries the
    /// magic marker where a footer would hold it. Never a security check.
    pub fn is_signed(data: &[u8]) -> (r: bool)
        ensures
            r == spec_looks_signed(data@),
    {
        if data.len() < FOOTER_SIZE {
            return false;
        }
        let n = data.len();
        let marker_hit = data[n - 160] == 0x53 && data[n - 159] == 0x49 && data[n - 158] == 0x47
            && data[n - 157] == 0x21;
        proof {
            lemma_marker_window(data@);
        }
        marker_hit
    }
}

/// The marker window of a long enough stream equals the magic marker
/// exactly when its four bytes are the marker's bytes.
proof fn lemma_marker_window(d: Seq<u8>)
    requires
        d.len() >= 256,
    ensures
        d.subrange(d.len() - 160, d.len() - 156) == spec_magic() <==> (d[d.len() - 160] == 0x53
            && d[d.len() - 159] == 0x49 && d[d.len() - 158] == 0x47 && d[d.len() - 157] == 0x21),
{
    let w = d.subrange(d.len() - 160, d.len() - 156);
    assert(w.len() == 4);
    assert(w[0] == d[d.len() - 160]);
    assert(w[1] == d[d.len() - 159]);
    assert(w[2] == d[d.len() - 158]);
    assert(w[3] == d[d.len() - 157]);
    assert(spec_magic()[0] == 0x53u8);
    assert(spec_magic()[1] == 0x49u8);
    assert(spec_magic()[2] == 0x47u8);
    assert(spec_magic()[3] == 0x21u8);
    if w[0] == 0x53 && w[1] == 0x49 && w[2] == 0x47 && w[3] == 0x21 {
        assert(w =~= spec_magic());
    }
}

/// Append every byte of a slice to a vector.
fn append_slice(out: &mut Vec<u8>, data: &[u8])
    ensures
        final(out)@ == old(out)@ + data@,
{
    let n = data.len();
    let mut i: usize = 0;
    proof {
        assert(out@ =~= old(out)@ + data@.subrange(0, 0));
    }
    while i < n
        invariant
            i <= n,
            n == data@.len(),
            out@ == old(out)@ + data@.subrange(0, i as int),
        decreases n - i,
    {
        out.push(data[i]);
        i = i + 1;
        proof {
            assert(out@ =~= old(out)@ + data@.subrange(0, i as int));
        }
    }
    proof {
        assert(data@.subrange(0, n as int) =~= data@);
    }
}

/// Append the given number of zero bytes to a vector.
fn append_zeros(out: &mut Vec<u8>, count: usize)
    ensures
        final(out)@ == old(out)@ + Seq::new(count as nat, |i: int| 0u8),
{
    let mut i: usize = 0;
    proof {
        assert(out@ =~= old(out)@ + Seq::new(0, |j: int| 0u8));
    }
    while i < count
        invariant
            i <= count,
            out@ == old(out)@ + Seq::new(i as nat, |j: int| 0u8),
        decreases count - i,
    {
        out.push(0u8);
        i = i + 1;
        proof {
            assert(out@ =~= old(out)@ + Seq::new(i as nat, |j: int| 0u8));
        }
    }
}

/// Round trip: parsing a serialized artifact recovers the content, the
/// signature and the public key exactly, for every content and every
/// 64-byte signature and 32-byte public key.
pub proof fn lemma_round_trip(content: Seq<u8>, sig: Seq<u8>, pk: Seq<u8>)
    requires
        sig.len() == 64,
        pk.len() == 32,
    ensures
        spec_parse(spec_serialize(content, sig, pk)) == Some((content, sig, pk)),
{
    let d = spec_serialize(content, sig, pk);
    assert(d.len() == content.len() + 256);
    assert(d.subrange(d.len() - 160, d.len() - 156) =~= spec_magic());
    assert(d.subrange(0, d.len() - 256) =~= content);
    assert(d.subrange(d.len() - 256, d.len() - 192) =~= sig);
    assert(d.subrange(d.len() - 192, d.len() - 160) =~= pk);
}

/// A serialized artifact is always detected as signed, structurally,
/// whatever its content.
pub proof fn lemma_serialized_looks_signed(content: Seq<u8>, sig: Seq<u8>, pk: Seq<u8>)
    requires
        sig.len() == 64,
        pk.len() == 32,
    ensures
        spec_looks_signed(spec_serialize(content, sig, pk)),
{
    lemma_round_trip(content, sig, pk);
}

/// A byte stream shorter than the footer can never be signed: parsing
/// returns nothing and detection returns false.
pub proof fn lemma_minimum_length(d: Seq<u8>)
    requires
        d.len() < 256,
    ensures
        spec_parse(d) is None,
        !spec_looks_signed(d),
{
}

/// A byte stream without the magic marker at the marker's place is not
/// detected as signed, however long it is.
pub proof fn lemma_unmarked_not_detected(d: Seq<u8>)
    requires
        d.len() < 256 || d.subrange(d.len() - 160, d.len() - 156) != spec_magic(),
    ensures
        !spec_looks_signed(d),
{
}

/// Magic gating: take a serialized artifact and corrupt nothing but its
/// four marker bytes, so that the signature and the public key are carried
/// untouched; the corrupted stream does not parse at all.
pub proof fn lemma_magic_gating(content: Seq<u8>, sig: Seq<u8>, pk: Seq<u8>, d: Seq<u8>)
    requires
        sig.len() == 64,
        pk.len() == 32,
        d.len() == content.len() + 256,
        forall|i: int|
            0 <= i < d.len() && !(content.len() + 96 <= i < content.len() + 100) ==> d[i]
                == spec_serialize(content, sig, pk)[i],
        d.subrange(content.len() as int + 96, content.len() as int + 100) != spec_magic(),
    ensures
        spec_parse(d) is None,
{
    assert(d.subrange(d.len() - 160, d.len() - 156) == d.subrange(
        content.len() as int + 96,
        content.len() as int + 100,
    ));
}

} // verus!
