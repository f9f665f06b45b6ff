//! Cutting a payload into fixed-size reports.
//!
//! A report is 33 bytes long: the report id 0, the two marker bytes, and 30
//! bytes of payload, padded with zeros.  A payload goes out as a run of such
//! reports; an empty payload still goes out as one report.

use vstd::prelude::*;
use vstd::string::*;

verus! {

/// Length of a report without its report id.
pub const REPORT_LENGTH: usize = 32;

/// Length of a report as it is written: the report id and [`REPORT_LENGTH`] bytes.
pub const FRAME_LENGTH: usize = 33;

/// Number of payload bytes that one report carries.
pub const FRAME_PAYLOAD: usize = 30;

/// The report id that every report begins with.
pub const REPORT_ID: u8 = 0x00;

/// The first marker byte, right after the report id.
pub const MARKER_FIRST: u8 = 0x81;

/// The second marker byte.
pub const MARKER_SECOND: u8 = 0x9F;

/// The byte that ends a message: ETX, end of text.
pub const TERMINATOR: u8 = 0x03;

/// Time in milliseconds that is waited for a device's answer to one report.
pub const READ_TIMEOUT_MS: i32 = 100;

/// Number of reports for a payload of `len` bytes: `len / 30` rounded up, and at least one.
pub open spec fn frame_count_spec(len: nat) -> nat {
    if len == 0 {
        1
    } else {
        ((len + 29) / 30) as nat
    }
}

/// Where the part of the payload that report `index` carries begins.
pub open spec fn chunk_start(len: nat, index: nat) -> nat {
    if index * 30 <= len {
        index * 30
    } else {
        len
    }
}

/// Where the part of the payload that report `index` carries ends.
pub open spec fn chunk_end(len: nat, index: nat) -> nat {
    if index * 30 + 30 <= len {
        index * 30 + 30
    } else {
        len
    }
}

/// The part of the payload that report `index` carries: up to 30 bytes from
/// offset `30 * index` on, and nothing where the payload has ended before.
pub open spec fn chunk(data: Seq<u8>, index: nat) -> Seq<u8> {
    data.subrange(chunk_start(data.len(), index) as int, chunk_end(data.len(), index) as int)
}

/// `n` zero bytes.
pub open spec fn zeros(n: nat) -> Seq<u8> {
    Seq::new(n, |i: int| 0u8)
}

/// Report `index` of a payload: report id, markers, its part of the payload,
/// and zeros up to the full length.
pub open spec fn frame_spec(data: Seq<u8>, index: nat) -> Seq<u8> {
    seq![0x00u8, 0x81u8, 0x9Fu8] + chunk(data, index) + zeros(
        (30 - chunk(data, index).len()) as nat,
    )
}

/// All reports of a payload, in the order in which they are written.
pub open spec fn frames_spec(data: Seq<u8>) -> Seq<Seq<u8>> {
    Seq::new(frame_count_spec(data.len()), |i: int| frame_spec(data, i as nat))
}

/// The bytes of a message followed by the terminator.
pub open spec fn terminated_spec(message: Seq<u8>) -> Seq<u8> {
    message.push(0x03u8)
}

/// Number of reports that a payload of `len` bytes takes.
pub fn frame_count(len: usize) -> (n: usize)
    ensures
        n == frame_count_spec(len as nat),
        n >= 1,
        len <= n * 30,
        len > 0 ==> (n - 1) * 30 < len,
{
    if len == 0 {
        1
    } else if len % FRAME_PAYLOAD == 0 {
        len / FRAME_PAYLOAD
    } else {
        len / FRAME_PAYLOAD + 1
    }
}

/// Builds report `index` of the payload `data`.
///
/// An index at or beyond the number of reports gives a report without payload.
pub fn build_frame(data: &[u8], index: usize) -> (frame: Vec<u8>)
    ensures
        frame@ == frame_spec(data@, index as nat),
        frame@.len() == 33,
{
    let len: usize = data.len();
    let start: usize = if index <= len / FRAME_PAYLOAD {
        index * FRAME_PAYLOAD
    } else {
        len
    };
    let end: usize = if len - start >= FRAME_PAYLOAD {
        start + FRAME_PAYLOAD
    } else {
        len
    };
    assert(start == chunk_start(len as nat, index as nat));
    assert(end == chunk_end(len as nat, index as nat));
    let ghost part = chunk(data@, index as nat);
    let mut frame: Vec<u8> = Vec::with_capacity(FRAME_LENGTH);
    frame.push(REPORT_ID);
    frame.push(MARKER_FIRST);
    frame.push(MARKER_SECOND);
    let mut i: usize = start;
    while i < end
        invariant
            start <= i <= end <= len,
            len == data@.len(),
            end - start <= 30,
            part == data@.subrange(start as int, end as int),
            frame@ == seq![0x00u8, 0x81u8, 0x9Fu8] + part.take(i - start),
        decreases end - i,
    {
        frame.push(data[i]);
        assert(part.take(i - start + 1) =~= part.take(i - start).push(data@[i as int]));
        assert(frame@ =~= seq![0x00u8, 0x81u8, 0x9Fu8] + part.take(i - start + 1));
        i = i + 1;
    }
    assert(part.take(end - start) =~= part);
    let mut k: usize = end - start;
    while k < FRAME_PAYLOAD
        invariant
            part.len() <= k <= 30,
            frame@ == seq![0x00u8, 0x81u8, 0x9Fu8] + part + zeros((k - part.len()) as nat),
        decreases 30 - k,
    {
        frame.push(0);
        assert(frame@ =~= seq![0x00u8, 0x81u8, 0x9Fu8] + part + zeros((k + 1 - part.len()) as nat));
        k = k + 1;
    }
    frame
}

/// The reports of a list as sequences of bytes.
pub open spec fn frames_view(frames: Seq<Vec<u8>>) -> Seq<Seq<u8>> {
    frames.map_values(|frame: Vec<u8>| frame@)
}

/// Builds all reports of the payload `data`, in the order in which they are written.
pub fn build_frames(data: &[u8]) -> (frames: Vec<Vec<u8>>)
    ensures
        frames_view(frames@) == frames_spec(data@),
{
    let count: usize = frame_count(data.len());
    let mut frames: Vec<Vec<u8>> = Vec::new();
    let mut i: usize = 0;
    while i < count
        invariant
            i <= count,
            count == frame_count_spec(data@.len()),
            frames@.len() == i,
            forall|j: int| 0 <= j < i ==> (#[trigger] frames@[j])@ == frame_spec(data@, j as nat),
        decreases count - i,
    {
        frames.push(build_frame(data, i));
        i = i + 1;
    }
    assert(frames_view(frames@) =~= frames_spec(data@));
    frames
}

/// The payload of a message: its UTF-8 bytes followed by one terminator byte.
pub fn terminated_payload(message: &str) -> (payload: Vec<u8>)
    ensures
        payload@ == terminated_spec(message.spec_bytes()),
{
    let mut payload: Vec<u8> = message.as_bytes_vec();
    payload.push(TERMINATOR);
    payload
}

/// Every report is 33 bytes long and begins with the report id and the two
/// markers; byte `3 + j` is byte `30 * index + j` of the payload where the
/// payload has such a byte, and zero where it has not.
pub proof fn lemma_frame_layout(data: Seq<u8>, index: nat)
    ensures
        frame_spec(data, index).len() == 33,
        frame_spec(data, index)[0] == 0x00,
        frame_spec(data, index)[1] == 0x81,
        frame_spec(data, index)[2] == 0x9F,
        forall|j: int|
            0 <= j < 30 ==> #[trigger] frame_spec(data, index)[3 + j] == if index * 30 + j
                < data.len() {
                data[index * 30 + j]
            } else {
                0u8
            },
{
    let part = chunk(data, index);
    let frame = frame_spec(data, index);
    assert(frame.len() == 33);
    assert forall|j: int| 0 <= j < 30 implies #[trigger] frame[3 + j] == if index * 30 + j
        < data.len() {
        data[index * 30 + j]
    } else {
        0u8
    } by {
        if j < part.len() {
            assert(frame[3 + j] == part[j]);
        } else {
            assert(frame[3 + j] == zeros((30 - part.len()) as nat)[j - part.len()]);
        }
    }
}

/// The reports of a payload carry it whole and in order: there are as many
/// as the payload needs, each is 33 bytes long, and byte `k` of the payload
/// stands in report `k / 30` at offset `3 + k % 30`.
pub proof fn lemma_frames_carry_payload(data: Seq<u8>)
    ensures
        frames_spec(data).len() == frame_count_spec(data.len()),
        forall|i: int|
            0 <= i < frames_spec(data).len() ==> (#[trigger] frames_spec(data)[i]).len() == 33,
        forall|k: int|
            0 <= k < data.len() ==> k / 30 < frames_spec(data).len() && #[trigger] data[k]
                == frames_spec(data)[k / 30][3 + k % 30],
{
    assert forall|i: int| 0 <= i < frames_spec(data).len() implies (#[trigger] frames_spec(
        data,
    )[i]).len() == 33 by {
        lemma_frame_layout(data, i as nat);
    }
    assert forall|k: int| 0 <= k < data.len() implies k / 30 < frames_spec(data).len()
        && #[trigger] data[k] == frames_spec(data)[k / 30][3 + k % 30] by {
        lemma_frame_layout(data, (k / 30) as nat);
        assert(frame_spec(data, (k / 30) as nat)[3 + k % 30] == data[(k / 30) * 30 + k % 30]);
    }
}

/// A payload that ends with the terminator is never empty, so the number of
/// its reports is its length divided by 30, rounded up.
pub proof fn lemma_terminated_frame_count(message: Seq<u8>)
    ensures
        terminated_spec(message).len() == message.len() + 1,
        terminated_spec(message).last() == 0x03,
        terminated_spec(message).drop_last() == message,
        frame_count_spec(terminated_spec(message).len()) == message.len() / 30 + 1,
{
    assert(terminated_spec(message).drop_last() =~= message);
}

} // verus!
