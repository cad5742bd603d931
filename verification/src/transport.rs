//! Framing of whole messages: a payload header followed by the content.
//!
//! `wrap_message` frames a Manticore message; `unwrap_message` takes a framed
//! message apart again. Reading and writing the files is left to the caller.

use vstd::prelude::*;
use crate::endian::{be_bytes, be_value, lemma_byte_pow_values};
use crate::protocol::payload::{compute_checksum, crc8, lemma_header_roundtrip, lemma_payload_header_layout, ContentType, Header};
use crate::wire::{FromWireError, WireEnum};

verus! {

broadcast use vstd::slice::group_slice_axioms;

/// The header that frames `payload` as a Manticore message.
pub open spec fn manticore_header(payload: Seq<u8>) -> Header {
    let partial = Header {
        content: ContentType::Manticore,
        content_len: payload.len() as u16,
        checksum: 0,
    };
    Header { checksum: crc8(partial.checksummed_bytes(payload)), ..partial }
}

/// Frames `payload` as a Manticore message: the payload header (content type,
/// big-endian length, checksum) followed by the payload.
pub fn wrap_message(payload: &[u8]) -> (out: Vec<u8>)
    requires
        payload@.len() <= 0xffff,
    ensures
        out@ == manticore_header(payload@).wire_bytes() + payload@,
{
    let partial = Header {
        content: ContentType::Manticore,
        content_len: payload.len() as u16,
        checksum: 0,
    };
    let checksum = compute_checksum(&partial, payload);
    let header = Header { checksum, ..partial };
    proof {
        assert(partial.checksummed_bytes(payload@) == header.checksummed_bytes(payload@));
        lemma_header_roundtrip(header, Seq::empty());
    }
    let mut out: Vec<u8> = Vec::new();
    let r = header.to_wire(&mut out);
    proof {
        assert(out@ == header.wire_bytes());
    }
    let mut i: usize = 0;
    while i < payload.len()
        invariant
            i <= payload@.len(),
            payload@.len() <= 0xffff,
            out@ == header.wire_bytes() + payload@.take(i as int),
        decreases payload@.len() - i,
    {
        out.push(payload[i]);
        i = i + 1;
        assert(payload@.take(i as int) =~= payload@.take((i - 1) as int).push(payload@[i - 1]));
    }
    assert(payload@.take(i as int) =~= payload@);
    out
}

/// Why a framed message could not be taken apart.
#[derive(Clone, Copy, PartialEq, Eq, Debug)]
pub enum UnwrapError {
    /// The header could not be read.
    Header(FromWireError),
    /// The message is not a Manticore message.
    UnsupportedContent(ContentType),
    /// Fewer bytes follow the header than it announces.
    Truncated,
}

/// What taking the framed message `bytes` apart gives: the content that the
/// header announces, or the error.
pub open spec fn unwrap_spec(bytes: Seq<u8>) -> Result<Seq<u8>, UnwrapError> {
    match Header::parse(bytes) {
        Err(e) => Err(UnwrapError::Header(e)),
        Ok((h, n)) => if h.content != ContentType::Manticore {
            Err(UnwrapError::UnsupportedContent(h.content))
        } else if bytes.len() - n < h.content_len {
            Err(UnwrapError::Truncated)
        } else {
            Ok(bytes.subrange(n as int, n + h.content_len))
        },
    }
}

/// Takes a framed Manticore message apart: reads the payload header and
/// returns the `content_len` bytes of content that follow it. The checksum is
/// not checked; bytes beyond the announced content are ignored.
pub fn unwrap_message(bytes: &[u8]) -> (r: Result<&[u8], UnwrapError>)
    ensures
        match unwrap_spec(bytes@) {
            Ok(content) => r matches Ok(c) && c@ == content,
            Err(e) => r matches Err(e2) && e2 == e,
        },
{
    let mut rest: &[u8] = bytes;
    let header = match Header::from_wire(&mut rest) {
        Ok(h) => h,
        Err(e) => return Err(UnwrapError::Header(e)),
    };
    match header.content {
        ContentType::Manticore => {},
        other => return Err(UnwrapError::UnsupportedContent(other)),
    }
    let len = header.content_len as usize;
    if rest.len() < len {
        return Err(UnwrapError::Truncated);
    }
    let (content, _) = rest.split_at(len);
    proof {
        assert(content@ =~= bytes@.subrange(4, 4 + header.content_len));
    }
    Ok(content)
}

/// Unwrapping undoes wrapping: the content of a wrapped payload is the payload.
pub proof fn lemma_unwrap_wrap(payload: Seq<u8>)
    requires
        payload.len() <= 0xffff,
    ensures
        unwrap_spec(manticore_header(payload).wire_bytes() + payload) == Ok::<
            Seq<u8>,
            UnwrapError,
        >(payload),
{
    let h = manticore_header(payload);
    lemma_header_roundtrip(h, payload);
    let s = h.wire_bytes() + payload;
    assert(s.subrange(4, 4 + h.content_len) =~= payload);
}


/// What unwrapping finds in a framed message, byte by byte: it succeeds
/// exactly when the message starts with the Manticore content byte (0x01)
/// and holds the four header bytes and the `L` bytes of content that the
/// big-endian length in bytes 1 and 2 announces; the content is then those
/// `L` bytes after the header, whatever follows them.
pub proof fn lemma_unwrap_takes_announced_content(bytes: Seq<u8>, trailing: Seq<u8>)
    ensures
        unwrap_spec(bytes) is Ok <==> (bytes.len() >= 4 && bytes[0] == 0x01 && bytes.len() >= 4 + bytes[1]
            * 256 + bytes[2]),
        unwrap_spec(bytes) matches Ok(c) ==> c == bytes.subrange(4, 4 + bytes[1] * 256 + bytes[2]),
        unwrap_spec(bytes) matches Ok(c) ==> unwrap_spec(bytes + trailing) == Ok::<Seq<u8>, UnwrapError>(c),
{
    lemma_byte_pow_values();
    if bytes.len() >= 4 {
        let len_bytes = bytes.subrange(1, 3);
        assert(len_bytes.drop_last() =~= bytes.subrange(1, 2));
        assert(len_bytes.drop_last().drop_last() =~= Seq::<u8>::empty());
        assert(be_value(len_bytes) == bytes[1] * 256 + bytes[2]) by {
            reveal_with_fuel(be_value, 3);
        }
        let all = bytes + trailing;
        assert(all.subrange(1, 3) =~= len_bytes);
        assert(all[0] == bytes[0]);
        assert(all[3] == bytes[3]);
        let l = bytes[1] * 256 + bytes[2];
        if bytes.len() >= 4 + l {
            assert(all.subrange(4, 4 + l) =~= bytes.subrange(4, 4 + l));
        }
    }
}


/// A wrapped message is the Manticore content byte (0x01), the payload's
/// length high byte first, the CRC-8 of those three bytes and the payload,
/// and then the payload.
pub proof fn lemma_wrap_layout(payload: Seq<u8>)
    requires
        payload.len() <= 0xffff,
    ensures
        ({
            let bytes = manticore_header(payload).wire_bytes() + payload;
            &&& bytes.len() == 4 + payload.len()
            &&& bytes[0] == 0x01
            &&& bytes[1] == payload.len() / 256
            &&& bytes[2] == payload.len() % 256
            &&& bytes[3] == crc8(bytes.subrange(0, 3) + payload)
            &&& bytes.skip(4) == payload
        }),
{
    let h = manticore_header(payload);
    lemma_payload_header_layout(h, Seq::empty());
    let bytes = h.wire_bytes() + payload;
    assert(bytes.skip(4) =~= payload);
    let partial = Header { content: ContentType::Manticore, content_len: payload.len() as u16, checksum: 0 };
    lemma_payload_header_layout(partial, Seq::empty());
    assert(partial.checksummed_bytes(payload) =~= bytes.subrange(0, 3) + payload);
}

} // verus!
