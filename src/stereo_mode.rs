use vstd::prelude::*;

verus! {

/// The stereo mode of the audio.
#[derive(PartialEq, Eq, Structural, Clone, Copy, Debug)]
pub enum StereoMode {
    /// Stereo.
    Stereo,
    /// Left channel (main audio).
    Left,
    /// Right channel (second audio).
    Right,
}

impl StereoMode {
    /// The wire value of each variant.
    pub open spec fn spec_value(&self) -> isize {
        match self {
            StereoMode::Stereo => 0,
            StereoMode::Left => 1,
            StereoMode::Right => 2,
        }
    }

    /// The wire value the host uses for this variant.
    #[verifier::when_used_as_spec(spec_value)]
    pub fn value(&self) -> (r: isize)
        ensures
            r == self.spec_value(),
    {
        match self {
            StereoMode::Stereo => 0,
            StereoMode::Left => 1,
            StereoMode::Right => 2,
        }
    }

    /// The variant with a given wire value, if any.
    pub open spec fn spec_from_value(v: isize) -> Option<StereoMode> {
        if v == 0 {
            Some(StereoMode::Stereo)
        } else if v == 1 {
            Some(StereoMode::Left)
        } else if v == 2 {
            Some(StereoMode::Right)
        } else {
            None
        }
    }

    /// Reads a variant from its wire value; a value that names none gives `None`.
    pub fn from_value(v: isize) -> (r: Option<StereoMode>)
        ensures
            r == Self::spec_from_value(v),
            r matches Some(e) ==> e.spec_value() == v,
    {
        if v == 0 {
            Some(StereoMode::Stereo)
        } else if v == 1 {
            Some(StereoMode::Left)
        } else if v == 2 {
            Some(StereoMode::Right)
        } else {
            None
        }
    }
}
} // verus!
