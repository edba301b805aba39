use vstd::prelude::*;

use vstd::bytes::{spec_u64_from_le_bytes, spec_u64_to_le_bytes, u64_from_le_bytes, u64_to_le_bytes};

verus! {

/// The address on which the daemon listens and to which clients connect.
pub fn get_addr() -> (addr: &'static str)
    ensures
        addr@ == "127.0.0.1:6600"@,
{
    "127.0.0.1:6600"
}

/// What the daemon reports of the song it plays.
#[derive(Debug, PartialEq, Eq)]
pub struct PlayStatus {
    pub playing: bool,
    /// Whole seconds played.
    pub position: u64,
    /// Whole seconds the song lasts.
    pub duration: u64,
    /// Where the cover picture was saved, if the song has one.
    pub cover: Option<String>,
    pub music_name: String,
    pub artist: String,
}

impl Clone for PlayStatus {
    fn clone(&self) -> (c: Self)
        ensures
            c == *self,
    {
        let cover = match &self.cover {
            Some(path) => Some(path.clone()),
            None => None,
        };
        PlayStatus {
            playing: self.playing,
            position: self.position,
            duration: self.duration,
            cover,
            music_name: self.music_name.clone(),
            artist: self.artist.clone(),
        }
    }
}

/// The daemon's answer to a request.
#[derive(Debug, PartialEq, Eq)]
pub enum Response {
    Pong,
    Success,
    Error(String),
    Status(PlayStatus),
}

/// Bytes in the length header of a frame.
pub const HEADER_LEN: usize = 8;

/// A frame on the wire: the payload's length as eight little-endian bytes, then the payload.
pub open spec fn frame_bytes(payload: Seq<u8>) -> Seq<u8> {
    spec_u64_to_le_bytes(payload.len() as u64) + payload
}

/// What a reader takes from the front of `bytes`: the payload of the first
/// frame and the number of bytes that frame takes, or nothing where the
/// header or the payload is not all there.
pub open spec fn first_frame(bytes: Seq<u8>) -> Option<(Seq<u8>, nat)> {
    if bytes.len() < 8 {
        None
    } else {
        let n: nat = spec_u64_from_le_bytes(bytes.subrange(0, 8)) as nat;
        if bytes.len() < 8 + n {
            None
        } else {
            Some((bytes.subrange(8, 8 + n as int), 8 + n))
        }
    }
}

/// Frames `payload` for the wire.
pub fn encode_frame(payload: &[u8]) -> (out: Vec<u8>)
    ensures
        out@ == frame_bytes(payload@),
        out@.len() == 8 + payload@.len(),
        out@.subrange(0, 8) == spec_u64_to_le_bytes(payload@.len() as u64),
        out@.subrange(8, out@.len() as int) == payload@,
{
    let len: u64 = payload.len() as u64;
    let mut out = u64_to_le_bytes(len);
    let ghost header = out@;
    let mut i: usize = 0;
    while i < payload.len()
        invariant
            0 <= i <= payload.len(),
            header == spec_u64_to_le_bytes(len),
            len == payload@.len(),
            out@ == header + payload@.subrange(0, i as int),
        decreases payload.len() - i,
    {
        out.push(payload[i]);
        i = i + 1;
        assert(out@ == header + payload@.subrange(0, i as int));
    }
    assert(payload@.subrange(0, payload@.len() as int) == payload@);
    proof {
        law_frame_layout(payload@);
    }
    out
}

/// The payload length that a frame header announces.
pub fn frame_len(header: &[u8]) -> (n: u64)
    requires
        header@.len() == 8,
    ensures
        n == spec_u64_from_le_bytes(header@),
{
    u64_from_le_bytes(header)
}

/// Takes the first frame from the front of `bytes`: its payload and the
/// number of bytes it takes, or `None` where it is not all there.
pub fn split_frame(bytes: &[u8]) -> (res: Option<(Vec<u8>, usize)>)
    ensures
        match (res, first_frame(bytes@)) {
            (Some((p, used)), Some((q, m))) => p@ == q && used as nat == m,
            (None, None) => true,
            _ => false,
        },
        res matches Some((p, used)) ==> {
            &&& bytes@.len() >= 8
            &&& used as nat == 8 + spec_u64_from_le_bytes(bytes@.subrange(0, 8))
            &&& used <= bytes@.len()
            &&& p@ == bytes@.subrange(8, used as int)
        },
        res is None ==> bytes@.len() < 8 || bytes@.len() < 8 + spec_u64_from_le_bytes(
            bytes@.subrange(0, 8),
        ),
{
    if bytes.len() < HEADER_LEN {
        return None;
    }
    let mut header: Vec<u8> = Vec::new();
    let mut i: usize = 0;
    while i < HEADER_LEN
        invariant
            0 <= i <= 8,
            bytes@.len() >= 8,
            header@ == bytes@.subrange(0, i as int),
        decreases 8 - i,
    {
        header.push(bytes[i]);
        i = i + 1;
    }
    let n: u64 = frame_len(header.as_slice());
    let available: u64 = (bytes.len() - HEADER_LEN) as u64;
    if available < n {
        return None;
    }
    let end: usize = HEADER_LEN + n as usize;
    let mut payload: Vec<u8> = Vec::new();
    let mut j: usize = HEADER_LEN;
    while j < end
        invariant
            8 <= j <= end,
            end <= bytes@.len(),
            payload@ == bytes@.subrange(8, j as int),
        decreases end - j,
    {
        payload.push(bytes[j]);
        j = j + 1;
    }
    Some((payload, end))
}

/// Reading a frame gives back what was framed, whatever follows it.
pub proof fn law_frame_round_trip(payload: Seq<u8>, rest: Seq<u8>)
    requires
        payload.len() <= u64::MAX,
    ensures
        first_frame(frame_bytes(payload) + rest) == Some((payload, (8 + payload.len()) as nat)),
{
    vstd::bytes::lemma_auto_spec_u64_to_from_le_bytes();
    let all = frame_bytes(payload) + rest;
    let header = spec_u64_to_le_bytes(payload.len() as u64);
    assert(header.len() == 8);
    assert(all.subrange(0, 8) == header);
    assert(spec_u64_from_le_bytes(header) == payload.len() as u64);
    assert(all.subrange(8, 8 + payload.len() as int) == payload);
}

/// A frame's header announces exactly the payload that follows it.
pub proof fn law_frame_header_is_length(payload: Seq<u8>)
    requires
        payload.len() <= u64::MAX,
    ensures
        frame_bytes(payload).len() == 8 + payload.len(),
        spec_u64_from_le_bytes(frame_bytes(payload).subrange(0, 8)) == payload.len(),
{
    vstd::bytes::lemma_auto_spec_u64_to_from_le_bytes();
    let header = spec_u64_to_le_bytes(payload.len() as u64);
    assert(frame_bytes(payload).subrange(0, 8) == header);
}

/// A frame is the eight little-endian bytes of the payload's length followed by
/// the payload itself, byte for byte, and nothing else.
pub proof fn law_frame_layout(payload: Seq<u8>)
    ensures
        frame_bytes(payload).len() == 8 + payload.len(),
        frame_bytes(payload).subrange(0, 8) == spec_u64_to_le_bytes(payload.len() as u64),
        frame_bytes(payload).subrange(8, 8 + payload.len() as int) == payload,
        forall|i: int| 0 <= i < payload.len() ==> frame_bytes(payload)[8 + i] == payload[i],
{
    vstd::bytes::lemma_auto_spec_u64_to_from_le_bytes();
    let header = spec_u64_to_le_bytes(payload.len() as u64);
    assert(header.len() == 8);
    assert(frame_bytes(payload).subrange(0, 8) =~= header);
    assert(frame_bytes(payload).subrange(8, 8 + payload.len() as int) =~= payload);
}

/// What a reader takes as the payload is the raw bytes after the header, as
/// many as the header announces, untouched.
pub proof fn law_first_frame_is_raw(bytes: Seq<u8>)
    ensures
        first_frame(bytes) matches Some((q, m)) ==> {
            &&& bytes.len() >= 8
            &&& m == 8 + spec_u64_from_le_bytes(bytes.subrange(0, 8))
            &&& m <= bytes.len()
            &&& q == bytes.subrange(8, m as int)
            &&& forall|i: int| 0 <= i < q.len() ==> q[i] == bytes[8 + i]
        },
        first_frame(bytes) is None <==> (bytes.len() < 8 || bytes.len() < 8
            + spec_u64_from_le_bytes(bytes.subrange(0, 8))),
{
}

} // verus!
