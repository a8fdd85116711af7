//! Length-prefixed wire framing.
//!
//! Every logical message travels as one frame: a 2-byte big-endian length
//! followed by at most 65535 payload bytes.  The functions here work on
//! in-memory byte strings; the surrounding process moves those bytes over
//! the actual stream.  The keystore serialization reuses the same field
//! encoding.

use vstd::prelude::*;
use vstd::string::StringExecFns;

use crate::error::AiroiError;

verus! {

/// The largest payload a frame can carry.
pub const MAX_FRAME_LEN: usize = 65535;

/// The bytes of one frame: big-endian length prefix, then the payload.
pub open spec fn frame_bytes(data: Seq<u8>) -> Seq<u8>
    recommends
        data.len() <= 65535,
{
    seq![(data.len() / 256) as u8, (data.len() % 256) as u8] + data
}

/// The frame read from `stream` at offset `pos`: its payload and the offset
/// just past it, or `None` if the stream is truncated there.
pub open spec fn parse_frame(stream: Seq<u8>, pos: int) -> Option<(Seq<u8>, int)> {
    if 0 <= pos && pos + 2 <= stream.len() {
        let n = stream[pos] * 256 + stream[pos + 1];
        if pos + 2 + n <= stream.len() {
            Some((stream.subrange(pos + 2, pos + 2 + n), pos + 2 + n))
        } else {
            None
        }
    } else {
        None
    }
}

/// Appends one frame carrying `data` to `stream`.
///
/// Fails with an oversize fault, leaving the stream untouched, exactly when
/// the payload exceeds 65535 bytes.
pub fn write_frame(stream: &mut Vec<u8>, data: &[u8]) -> (r: Result<(), AiroiError>)
    ensures
        data@.len() > 65535 ==> (r matches Err(e) && (e matches AiroiError::Io(_))
            && final(stream)@ == old(stream)@),
        data@.len() <= 65535 ==> r is Ok && final(stream)@ == old(stream)@ + frame_bytes(data@),
{
    let len = data.len();
    if len > MAX_FRAME_LEN {
        return Err(AiroiError::Io(error_text()));
    }
    let hi: u8 = (len / 256) as u8;
    let lo: u8 = (len % 256) as u8;
    stream.push(hi);
    stream.push(lo);
    let mut i: usize = 0;
    while i < len
        invariant
            len == data@.len() <= 65535,
            i <= len,
            stream@ == old(stream)@ + seq![hi, lo] + data@.subrange(0, i as int),
        decreases len - i,
    {
        stream.push(*vstd::slice::slice_index_get(data, i));
        assert(data@.subrange(0, i + 1) == data@.subrange(0, i as int).push(data@[i as int]));
        i = i + 1;
    }
    assert(data@.subrange(0, len as int) == data@);
    assert(old(stream)@ + seq![hi, lo] + data@ == old(stream)@ + frame_bytes(data@));
    Ok(())
}

/// Reads the frame that starts at offset `pos` of `stream`, returning its
/// payload and the offset just past the frame.
///
/// Fails with a truncation fault exactly when no whole frame starts there;
/// a partial frame never escapes as a successful read.
pub fn read_frame(stream: &Vec<u8>, pos: usize) -> (r: Result<(Vec<u8>, usize), AiroiError>)
    ensures
        parse_frame(stream@, pos as int) matches Some(pr) ==> (r matches Ok(p) && p.0@ == pr.0
            && p.1 == pr.1),
        parse_frame(stream@, pos as int) is None ==> (r matches Err(e) && (e
            matches AiroiError::Io(_))),
{
    if stream.len() < 2 || pos > stream.len() - 2 {
        return Err(AiroiError::Io(error_text()));
    }
    let b0 = stream[pos];
    let b1 = stream[pos + 1];
    let n: usize = (b0 as usize) * 256 + (b1 as usize);
    if n > stream.len() - (pos + 2) {
        return Err(AiroiError::Io(error_text()));
    }
    let start = pos + 2;
    let mut payload: Vec<u8> = Vec::new();
    let mut i: usize = 0;
    while i < n
        invariant
            start + n <= stream@.len(),
            stream@.len() <= usize::MAX,
            i <= n,
            payload@ == stream@.subrange(start as int, start + i),
        decreases n - i,
    {
        payload.push(stream[start + i]);
        assert(stream@.subrange(start as int, start + i + 1) == stream@.subrange(
            start as int,
            start + i,
        ).push(stream@[start + i]));
        i = i + 1;
    }
    Ok((payload, start + n))
}

/// The payload length declared by the two bytes of a frame header.
pub fn frame_len(b0: u8, b1: u8) -> (n: usize)
    ensures
        n == b0 * 256 + b1,
{
    (b0 as usize) * 256 + (b1 as usize)
}

/// A frame written anywhere into a stream is read back unchanged: parsing at
/// the frame's start recovers exactly the payload and stops just past it,
/// whatever bytes surround the frame.
pub proof fn lemma_frame_round_trip(prefix: Seq<u8>, data: Seq<u8>, suffix: Seq<u8>)
    requires
        data.len() <= 65535,
    ensures
        parse_frame(prefix + frame_bytes(data) + suffix, prefix.len() as int) == Some(
            (data, prefix.len() as int + 2 + data.len()),
        ),
{
    let s = prefix + frame_bytes(data) + suffix;
    let pos = prefix.len() as int;
    assert(s[pos] == (data.len() / 256) as u8);
    assert(s[pos + 1] == (data.len() % 256) as u8);
    assert(data.len() / 256 * 256 + data.len() % 256 == data.len());
    assert(s[pos] * 256 + s[pos + 1] == data.len());
    assert(s.subrange(pos + 2, pos + 2 + data.len()) =~= data);
}

fn error_text() -> (r: String)
    ensures
        r@.len() > 0,
{
    let r = String::from_str("frame exceeds the stream or 65535 bytes");
    proof {
        reveal_strlit("frame exceeds the stream or 65535 bytes");
    }
    r
}

} // verus!
