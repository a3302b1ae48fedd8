//! A stream source read from a video file.

use vstd::prelude::*;

verus! {

/// Streams the video stored at a path.
#[derive(Clone, Debug, PartialEq, Eq)]
pub struct VideoStreamer {
    video: String,
}

impl VideoStreamer {
    pub closed spec fn spec_video(&self) -> Seq<char> {
        self.video@
    }

    pub fn new(video: String) -> (s: Self)
        ensures
            s.spec_video() == video@,
    {
        VideoStreamer { video }
    }

    /// The path of the video file.
    pub fn video(&self) -> (p: &String)
        ensures
            p@ == self.spec_video(),
    {
        &self.video
    }
}

} // verus!
