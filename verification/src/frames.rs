//! Frame-set construction and dimension validation.
//!
//! Decoding image files is the caller's job; the caller hands each decoded
//! frame over as a [`FrameImage`]: its file name, its pixel dimensions and
//! its raw pixel buffer. [`FrameSet::new`] validates that at least one frame
//! was supplied and that every frame has exactly the expected dimensions,
//! and only then builds the frame set — a failed validation hands back an
//! error naming the first offending file with the expected and the actual
//! dimensions, and no frame set (and so no partially populated frame list)
//! exists at all.

use vstd::prelude::*;

verus! {

/// One decoded animation frame as the caller supplies it.
pub struct FrameImage {
    /// Name of the file the frame was decoded from.
    pub name: String,
    /// Pixel width of the decoded frame.
    pub width: u32,
    /// Pixel height of the decoded frame.
    pub height: u32,
    /// The decoded pixel buffer.
    pub pixels: Vec<u8>,
}

/// Whether a frame has exactly the expected pixel dimensions.
pub open spec fn dims_ok(img: FrameImage, width: u32, height: u32) -> bool {
    img.width == width && img.height == height
}

/// Why a frame set could not be built.
pub enum LoadError {
    /// No frames were supplied.
    NoFrames,
    /// A frame's decoded dimensions differ from the expected ones. Names
    /// the offending file and carries both dimension pairs.
    DimensionMismatch {
        name: String,
        expected_width: u32,
        expected_height: u32,
        actual_width: u32,
        actual_height: u32,
    },
}

/// An ordered, non-empty list of frames, all validated to share the same
/// pixel dimensions. Only [`FrameSet::new`] constructs one.
pub struct FrameSet {
    frames: Vec<FrameImage>,
    width: u32,
    height: u32,
}

impl View for FrameSet {
    type V = Seq<FrameImage>;

    closed spec fn view(&self) -> Seq<FrameImage> {
        self.frames@
    }
}

/// The index of the first supplied frame whose dimensions differ from the
/// expected ones, if any frame's do.
pub fn first_dimension_mismatch(
    images: &Vec<FrameImage>,
    expected_width: u32,
    expected_height: u32,
) -> (r: Option<usize>)
    ensures
        match r {
            None => forall|i: int|
                0 <= i < images@.len() ==> dims_ok(
                    #[trigger] images@[i],
                    expected_width,
                    expected_height,
                ),
            Some(i) => {
                &&& i < images@.len()
                &&& !dims_ok(images@[i as int], expected_width, expected_height)
                &&& forall|j: int|
                    0 <= j < i ==> dims_ok(#[trigger] images@[j], expected_width, expected_height)
            },
        },
{
    let mut i: usize = 0;
    while i < images.len()
        invariant
            i <= images@.len(),
            forall|j: int|
                0 <= j < i ==> dims_ok(#[trigger] images@[j], expected_width, expected_height),
        decreases images@.len() - i,
    {
        if images[i].width != expected_width || images[i].height != expected_height {
            return Some(i);
        }
        i = i + 1;
    }
    None
}

impl FrameSet {
    /// The common pixel width the frames were validated against.
    pub closed spec fn spec_width(self) -> u32 {
        self.width
    }

    /// The common pixel height the frames were validated against.
    pub closed spec fn spec_height(self) -> u32 {
        self.height
    }

    /// Well-formedness: at least one frame, and every frame has the frame
    /// set's common dimensions.
    pub open spec fn wf(self) -> bool {
        &&& self@.len() >= 1
        &&& forall|i: int|
            0 <= i < self@.len() ==> dims_ok(#[trigger] self@[i], self.spec_width(), self.spec_height())
    }

    /// Validates the supplied frames and builds the frame set.
    ///
    /// Succeeds exactly when at least one frame was supplied and every
    /// frame has the expected dimensions; the frame set then holds exactly
    /// the supplied frames, in order. With no frames the error is
    /// [`LoadError::NoFrames`]; with a mis-sized frame it is
    /// [`LoadError::DimensionMismatch`], naming the first offending file
    /// with the expected and the actual dimensions. On an error no frame
    /// set exists, so no partially populated frame list can escape.
    pub fn new(images: Vec<FrameImage>, expected_width: u32, expected_height: u32) -> (r: Result<
        FrameSet,
        LoadError,
    >)
        ensures
            match r {
                Ok(fs) => {
                    &&& images@.len() >= 1
                    &&& forall|i: int|
                        0 <= i < images@.len() ==> dims_ok(
                            #[trigger] images@[i],
                            expected_width,
                            expected_height,
                        )
                    &&& fs@ == images@
                    &&& fs.spec_width() == expected_width
                    &&& fs.spec_height() == expected_height
                    &&& fs.wf()
                },
                Err(e) => match e {
                    LoadError::NoFrames => images@.len() == 0,
                    LoadError::DimensionMismatch {
                        name,
                        expected_width: ew,
                        expected_height: eh,
                        actual_width: aw,
                        actual_height: ah,
                    } => {
                        &&& ew == expected_width
                        &&& eh == expected_height
                        &&& exists|i: int|
                            {
                                &&& 0 <= i < images@.len()
                                &&& !dims_ok(#[trigger] images@[i], expected_width, expected_height)
                                &&& name@ == images@[i].name@
                                &&& aw == images@[i].width
                                &&& ah == images@[i].height
                                &&& forall|j: int|
                                    0 <= j < i ==> dims_ok(
                                        #[trigger] images@[j],
                                        expected_width,
                                        expected_height,
                                    )
                            }
                    },
                },
            },
    {
        if images.len() == 0 {
            return Err(LoadError::NoFrames);
        }
        match first_dimension_mismatch(&images, expected_width, expected_height) {
            Some(i) => {
                let img = &images[i];
                Err(LoadError::DimensionMismatch {
                    name: img.name.clone(),
                    expected_width,
                    expected_height,
                    actual_width: img.width,
                    actual_height: img.height,
                })
            },
            None => Ok(FrameSet { frames: images, width: expected_width, height: expected_height }),
        }
    }

    /// How many frames the set holds; at least 1.
    pub fn len(&self) -> (r: usize)
        ensures
            r == self@.len(),
    {
        self.frames.len()
    }

    /// The common pixel width of all frames.
    pub fn width(&self) -> (r: u32)
        ensures
            r == self.spec_width(),
    {
        self.width
    }

    /// The common pixel height of all frames.
    pub fn height(&self) -> (r: u32)
        ensures
            r == self.spec_height(),
    {
        self.height
    }

    /// The frame at position `i`.
    pub fn frame(&self, i: usize) -> (r: &FrameImage)
        requires
            i < self@.len(),
        ensures
            *r == self@[i as int],
    {
        &self.frames[i]
    }
}

} // verus!
