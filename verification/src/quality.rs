use vstd::prelude::*;

verus! {

/// Encoding quality profile of exported clips.
#[derive(Clone, Copy, Debug, PartialEq, Eq, Structural)]
pub enum VideoQuality {
    /// Fast encoding, lower bitrate.
    Low,
    /// Standard balance.
    Medium,
    /// Near visually lossless.
    High,
}

impl VideoQuality {
    /// The constant rate factor of the profile, as FFmpeg takes it on its command line.
    pub open spec fn crf(self) -> Seq<char> {
        match self {
            VideoQuality::Low => "28"@,
            VideoQuality::Medium => "23"@,
            VideoQuality::High => "18"@,
        }
    }

    /// Returns the profile's constant rate factor.
    pub fn to_crf(self) -> (crf: &'static str)
        ensures
            crf@ == self.crf(),
            self is Low ==> crf@ == "28"@,
            self is Medium ==> crf@ == "23"@,
            self is High ==> crf@ == "18"@,
    {
        match self {
            VideoQuality::Low => "28",
            VideoQuality::Medium => "23",
            VideoQuality::High => "18",
        }
    }
}

} // verus!
