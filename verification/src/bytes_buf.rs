//! Encoding into a `bytes::BytesMut`, the growable buffer the transport
//! writer hands its frames to.
//!
//! The buffer type is opaque to the verifier; what it holds is named by
//! [`bytes_mut_view`], and each operation the encoders use states over that
//! name what the crate's source shows it does. The frame bytes themselves
//! are produced by the verified encoders and appended in one piece.

use vstd::prelude::*;

use crate::command::Command;

verus! {

#[verifier::external_type_specification]
#[verifier::external_body]
pub struct ExBytesMut(bytes::BytesMut);

/// The bytes a `bytes::BytesMut` holds, in order.
pub uninterp spec fn bytes_mut_view(b: bytes::BytesMut) -> Seq<u8>;

/// Relies on `bytes::BytesMut::new`: a fresh buffer holds no bytes.
#[verifier::external_body]
pub fn bytes_mut_new() -> (r: bytes::BytesMut)
    ensures
        bytes_mut_view(r) == Seq::<u8>::empty(),
{
    bytes::BytesMut::new()
}

/// Relies on `bytes::BytesMut::len`: the number of bytes held.
#[verifier::external_body]
pub fn bytes_mut_len(b: &bytes::BytesMut) -> (r: usize)
    ensures
        r == bytes_mut_view(*b).len(),
{
    b.len()
}

/// Relies on `bytes::BytesMut::extend_from_slice`: appends the slice after
/// the bytes already held, growing the buffer as needed.
#[verifier::external_body]
pub fn bytes_mut_extend_from_slice(b: &mut bytes::BytesMut, src: &[u8])
    requires
        bytes_mut_view(*old(b)).len() + src@.len() <= usize::MAX,
    ensures
        bytes_mut_view(*final(b)) == bytes_mut_view(*old(b)) + src@,
{
    b.extend_from_slice(src)
}

/// Relies on `<BytesMut as AsRef<[u8]>>::as_ref`: a view of the bytes held.
#[verifier::external_body]
pub fn bytes_mut_as_slice(b: &bytes::BytesMut) -> (r: &[u8])
    ensures
        r@ == bytes_mut_view(*b),
{
    b.as_ref()
}

/// Encodes a whole frame into the transport's write buffer: the verified
/// encoder produces the frame bytes and they land after what the buffer
/// already holds.
pub fn encode_frame_into_bytes(command: &Command, dst: &mut bytes::BytesMut)
    requires
        16 + command.body_enc().len() <= u32::MAX,
        bytes_mut_view(*old(dst)).len() + command.frame_enc().len() <= usize::MAX,
    ensures
        bytes_mut_view(*final(dst)) == bytes_mut_view(*old(dst)) + command.frame_enc(),
{
    let mut frame: Vec<u8> = Vec::new();
    command.encode_frame_to(&mut frame);
    bytes_mut_extend_from_slice(dst, frame.as_slice());
}

} // verus!
