//! Progress of a chunked blob upload.
use vstd::prelude::*;

verus! {

/// How much of an upload has arrived: the total length received and the
/// index of the last byte uploaded.
#[derive(Debug, Clone, Copy, PartialEq, Eq)]
pub struct UploadSession {
    pub length: u64,
    pub uploaded: u64,
}

impl UploadSession {
    /// A session before any chunk.
    pub fn new() -> (r: UploadSession)
        ensures
            r.length == 0,
            r.uploaded == 0,
    {
        UploadSession { length: 0, uploaded: 0 }
    }

    /// Takes in a chunk of `length` bytes. While nothing has been uploaded
    /// the last byte index is `length - 1`; after that it advances by
    /// `length`.
    pub fn record_chunk(&mut self, length: u64)
        requires
            old(self).length + length <= u64::MAX,
            old(self).uploaded + length <= u64::MAX,
            old(self).uploaded == 0 ==> length >= 1,
        ensures
            final(self).length == old(self).length + length,
            final(self).uploaded == if old(self).uploaded == 0 {
                (length - 1) as u64
            } else {
                (old(self).uploaded + length) as u64
            },
    {
        self.length = self.length + length;
        if self.uploaded == 0 {
            self.uploaded = self.uploaded + (length - 1);
        } else {
            self.uploaded = self.uploaded + length;
        }
    }
}

} // verus!
