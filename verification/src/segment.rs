//! The units that travel between the segment store and the fetch loop: a
//! request for a byte range, and the range that comes back.

use vstd::prelude::*;
use vstd::slice::slice_subrange;
use vstd::slice::slice_to_vec;

verus! {

/// Why the segment store could not serve a request.
#[derive(Clone, Copy, Debug, PartialEq, Eq, Structural)]
pub enum FetchError {
    /// The identifier does not resolve to a known file.
    NotFound,
    /// The file could not be opened, positioned or read.
    IoError,
}

/// One pull: at most `max_length` bytes of `identifier`, from `offset` on.
#[derive(Clone, Debug, PartialEq, Eq)]
pub struct SegmentRequest {
    pub identifier: String,
    pub offset: u64,
    pub max_length: u32,
}

/// A contiguous byte range of a file, delivered in one unit.
#[derive(Debug, PartialEq, Eq)]
pub struct Segment {
    pub bytes: Vec<u8>,
    pub start_offset: u64,
    pub length: u32,
    pub is_final: bool,
}

/// A segment as a mathematical value.
pub struct SegmentModel {
    pub bytes: Seq<u8>,
    pub start_offset: nat,
    pub length: nat,
    pub is_final: bool,
}

impl View for Segment {
    type V = SegmentModel;

    open spec fn view(&self) -> SegmentModel {
        SegmentModel {
            bytes: self.bytes@,
            start_offset: self.start_offset as nat,
            length: self.length as nat,
            is_final: self.is_final,
        }
    }
}

impl SegmentModel {
    /// The length is that of the bytes, and the segment ends within the
    /// range of offsets.
    pub open spec fn wf(self) -> bool {
        &&& self.bytes.len() == self.length
        &&& self.start_offset + self.length <= u64::MAX
    }

    /// The offset just behind the segment.
    pub open spec fn end_offset(self) -> nat {
        self.start_offset + self.length
    }
}

/// How many bytes a request is served with: what is left of the file from
/// `offset` on, at most `max_length`, and nothing from the end of the file on.
pub open spec fn segment_length_of(file_size: nat, offset: nat, max_length: nat) -> nat {
    if offset >= file_size {
        0
    } else if file_size - offset < max_length {
        (file_size - offset) as nat
    } else {
        max_length
    }
}

/// The segment that a file's contents give for a request. It is final when
/// it reaches the end of the file, or starts at or behind it.
pub open spec fn segment_of(file: Seq<u8>, offset: nat, max_length: nat) -> SegmentModel {
    let length = segment_length_of(file.len(), offset, max_length);
    SegmentModel {
        bytes: if offset >= file.len() {
            Seq::empty()
        } else {
            file.subrange(offset as int, (offset + length) as int)
        },
        start_offset: offset,
        length,
        is_final: offset + length >= file.len(),
    }
}

/// Within the file a segment holds exactly `min(max_length, size - offset)`
/// bytes, each the file's byte at the same place, and never reaches past
/// the end.
pub proof fn lemma_segment_within_file(file: Seq<u8>, offset: nat, max_length: nat)
    requires
        offset < file.len(),
    ensures
        segment_of(file, offset, max_length).length == vstd::math::min(
            max_length as int,
            file.len() - offset,
        ),
        segment_of(file, offset, max_length).bytes.len() == segment_of(
            file,
            offset,
            max_length,
        ).length,
        segment_of(file, offset, max_length).start_offset == offset,
        offset + segment_of(file, offset, max_length).length <= file.len(),
        forall|i: int|
            0 <= i < segment_of(file, offset, max_length).length ==> #[trigger] segment_of(
                file,
                offset,
                max_length,
            ).bytes[i] == file[offset + i],
        segment_of(file, offset, max_length).is_final <==> offset + segment_of(
            file,
            offset,
            max_length,
        ).length == file.len(),
{
}

/// From the end of the file on a segment is empty and final.
pub proof fn lemma_segment_past_end(file: Seq<u8>, offset: nat, max_length: nat)
    requires
        offset >= file.len(),
    ensures
        segment_of(file, offset, max_length).length == 0,
        segment_of(file, offset, max_length).bytes.len() == 0,
        segment_of(file, offset, max_length).start_offset == offset,
        segment_of(file, offset, max_length).is_final,
{
}

/// The number of bytes to read for a request against a file of `file_size`
/// bytes.
pub fn segment_length(file_size: u64, offset: u64, max_length: u32) -> (n: u32)
    ensures
        n == segment_length_of(file_size as nat, offset as nat, max_length as nat),
        offset as nat + n as nat <= vstd::math::max(file_size as int, offset as int),
{
    if offset >= file_size {
        0
    } else if file_size - offset < max_length as u64 {
        (file_size - offset) as u32
    } else {
        max_length
    }
}

impl Segment {
    /// Makes the segment out of the bytes that were read for a request. A
    /// read that gave another number of bytes than the request is served
    /// with counts as failed.
    pub fn from_read(bytes: Vec<u8>, offset: u64, max_length: u32, file_size: u64) -> (r: Result<
        Segment,
        FetchError,
    >)
        ensures
            match r {
                Ok(seg) => {
                    &&& bytes@.len() == segment_length_of(
                        file_size as nat,
                        offset as nat,
                        max_length as nat,
                    )
                    &&& seg@ == (SegmentModel {
                        bytes: bytes@,
                        start_offset: offset as nat,
                        length: bytes@.len(),
                        is_final: offset + bytes@.len() >= file_size,
                    })
                    &&& seg@.wf()
                },
                Err(e) => {
                    &&& e == FetchError::IoError
                    &&& bytes@.len() != segment_length_of(
                        file_size as nat,
                        offset as nat,
                        max_length as nat,
                    )
                },
            },
    {
        let length = segment_length(file_size, offset, max_length);
        if bytes.len() != length as usize {
            return Err(FetchError::IoError);
        }
        let is_final = offset >= file_size || file_size - offset <= length as u64;
        Ok(Segment { bytes, start_offset: offset, length, is_final })
    }

    /// The offset just behind the segment.
    pub fn end_offset(&self) -> (end: u64)
        requires
            self@.wf(),
        ensures
            end == self@.end_offset(),
    {
        self.start_offset + self.length as u64
    }
}

/// Cuts the segment for a request out of a file's contents.
pub fn read_segment(file: &[u8], offset: u64, max_length: u32) -> (seg: Segment)
    ensures
        seg@ == segment_of(file@, offset as nat, max_length as nat),
        seg@.wf(),
{
    let file_size = file.len() as u64;
    let length = segment_length(file_size, offset, max_length);
    if offset >= file_size {
        Segment { bytes: Vec::new(), start_offset: offset, length: 0, is_final: true }
    } else {
        let start = offset as usize;
        let end = start + length as usize;
        let bytes = slice_to_vec(slice_subrange(file, start, end));
        Segment { bytes, start_offset: offset, length, is_final: end == file.len() }
    }
}

} // verus!
