//! The segment store: resolves a media identifier to a file and serves
//! length-bounded byte ranges of it. Each call stands alone.

use crate::segment::read_segment;
use crate::segment::segment_of;
use crate::segment::FetchError;
use crate::segment::Segment;
use crate::segment::SegmentRequest;
use vstd::prelude::*;

verus! {

/// Where the file of a media identifier lies, for the identifiers that are
/// served.
pub open spec fn video_path_of(video_id: Seq<char>) -> Option<Seq<char>> {
    if video_id == "video1"@ {
        Some("videos/video1.mp4"@)
    } else if video_id == "video2"@ {
        Some("videos/video2.mp4"@)
    } else if video_id == "video3"@ {
        Some("videos/video3.mp4"@)
    } else {
        None
    }
}

/// Looks a media identifier up in the table of served files.
pub fn get_video_path(video_id: &str) -> (path: Option<String>)
    ensures
        match path {
            Some(p) => video_path_of(video_id@) == Some(p@),
            None => video_path_of(video_id@).is_none(),
        },
{
    let id = video_id.to_owned();
    if id == "video1".to_owned() {
        Some("videos/video1.mp4".to_owned())
    } else if id == "video2".to_owned() {
        Some("videos/video2.mp4".to_owned())
    } else if id == "video3".to_owned() {
        Some("videos/video3.mp4".to_owned())
    } else {
        None
    }
}

/// A file that the store knows, with its contents where they can be read.
struct MediaFile {
    identifier: String,
    contents: Option<Vec<u8>>,
}

impl MediaFile {
    spec fn key(&self) -> Seq<char> {
        self.identifier@
    }

    spec fn data(&self) -> Option<Seq<u8>> {
        match self.contents {
            Some(bytes) => Some(bytes@),
            None => None,
        }
    }
}

/// The table that a list of files stands for: a later file replaces an
/// earlier one of the same identifier.
spec fn table_of(files: Seq<MediaFile>) -> Map<Seq<char>, Option<Seq<u8>>>
    decreases files.len(),
{
    if files.len() == 0 {
        Map::empty()
    } else {
        table_of(files.drop_last()).insert(files.last().key(), files.last().data())
    }
}

/// The table shows an identifier with the data of the last file that bears
/// it, and does not show one that no file bears.
proof fn lemma_table_lookup(files: Seq<MediaFile>, id: Seq<char>, k: int)
    requires
        -1 <= k < files.len(),
        forall|j: int| k < j < files.len() ==> (#[trigger] files[j]).key() != id,
        k >= 0 ==> files[k].key() == id,
        k < 0 ==> forall|j: int| 0 <= j < files.len() ==> (#[trigger] files[j]).key() != id,
    ensures
        k >= 0 ==> table_of(files).contains_key(id) && table_of(files)[id] == files[k].data(),
        k < 0 ==> !table_of(files).contains_key(id),
    decreases files.len(),
{
    if files.len() > 0 {
        let front = files.drop_last();
        if k < files.len() - 1 {
            assert(files[files.len() - 1].key() != id);
            assert forall|j: int| k < j < front.len() implies (#[trigger] front[j]).key() != id by {
                assert(front[j] == files[j]);
            }
            if k < 0 {
                assert forall|j: int| 0 <= j < front.len() implies (#[trigger] front[j]).key()
                    != id by {
                    assert(front[j] == files[j]);
                }
            } else {
                assert(front[k] == files[k]);
            }
            lemma_table_lookup(front, id, k);
        }
    }
}

/// A segment store that holds its files in memory.
pub struct SegmentStore {
    files: Vec<MediaFile>,
}

impl View for SegmentStore {
    type V = Map<Seq<char>, Option<Seq<u8>>>;

    /// Each known identifier with the contents of its file, `None` where the
    /// file cannot be read.
    closed spec fn view(&self) -> Map<Seq<char>, Option<Seq<u8>>> {
        table_of(self.files@)
    }
}

impl SegmentStore {
    /// A store that knows no file.
    pub fn new() -> (store: Self)
        ensures
            store@ == Map::<Seq<char>, Option<Seq<u8>>>::empty(),
    {
        SegmentStore { files: Vec::new() }
    }

    /// Makes `contents` the file of `identifier`.
    pub fn insert(&mut self, identifier: String, contents: Vec<u8>)
        ensures
            final(self)@ == old(self)@.insert(identifier@, Some(contents@)),
    {
        let file = MediaFile { identifier, contents: Some(contents) };
        self.files.push(file);
        proof {
            assert(self.files@.drop_last() =~= old(self).files@);
        }
    }

    /// Makes `identifier` known with a file that cannot be read.
    pub fn insert_unreadable(&mut self, identifier: String)
        ensures
            final(self)@ == old(self)@.insert(identifier@, None),
    {
        let file = MediaFile { identifier, contents: None };
        self.files.push(file);
        proof {
            assert(self.files@.drop_last() =~= old(self).files@);
        }
    }

    /// Serves a request: the segment of the identifier's file, `NotFound`
    /// for an identifier that is not known, `IoError` for a file that cannot
    /// be read.
    pub fn fetch(&self, request: &SegmentRequest) -> (r: Result<Segment, FetchError>)
        ensures
            match r {
                Ok(seg) => {
                    &&& self@.contains_key(request.identifier@)
                    &&& self@[request.identifier@] matches Some(file)
                    &&& seg@ == segment_of(file, request.offset as nat, request.max_length as nat)
                    &&& seg@.wf()
                },
                Err(FetchError::NotFound) => !self@.contains_key(request.identifier@),
                Err(FetchError::IoError) => {
                    &&& self@.contains_key(request.identifier@)
                    &&& self@[request.identifier@].is_none()
                },
            },
    {
        let mut i: usize = self.files.len();
        while i > 0
            invariant
                i <= self.files.len(),
                forall|j: int|
                    i <= j < self.files.len() ==> (#[trigger] self.files@[j]).key()
                        != request.identifier@,
            decreases i,
        {
            i -= 1;
            if self.files[i].identifier == request.identifier {
                proof {
                    lemma_table_lookup(self.files@, request.identifier@, i as int);
                }
                return match &self.files[i].contents {
                    Some(bytes) => Ok(
                        read_segment(bytes.as_slice(), request.offset, request.max_length),
                    ),
                    None => Err(FetchError::IoError),
                };
            }
        }
        proof {
            lemma_table_lookup(self.files@, request.identifier@, -1);
        }
        Err(FetchError::NotFound)
    }
}

} // verus!
