//! Bookkeeping of the frame-by-frame image renderer.
//!
//! The renderer proper (drawing trajectories into an image and writing it to
//! disk) is an unverified consumer of the population's state; what it keeps
//! between frames — the image dimensions, the output directory and the
//! running frame number that names each file — is held and advanced here
//! under contract.

use vstd::prelude::*;

use std::path::PathBuf;

verus! {

/// `std::path::PathBuf`, carried opaquely as the renderer's output directory.
#[verifier::external_type_specification]
#[verifier::external_body]
pub struct ExPathBuf(PathBuf);

/// State of the renderer that writes each frame to an image file.
pub struct ImageRenderer {
    width: u32,
    height: u32,
    count: usize,
    base_path: PathBuf,
}

impl ImageRenderer {
    /// The image width in pixels.
    pub closed spec fn spec_width(self) -> u32 {
        self.width
    }

    /// The image height in pixels.
    pub closed spec fn spec_height(self) -> u32 {
        self.height
    }

    /// How many frames have been rendered so far; the next frame's number.
    pub closed spec fn spec_count(self) -> usize {
        self.count
    }

    /// The directory the image files are written into.
    pub closed spec fn spec_base_path(self) -> PathBuf {
        self.base_path
    }

    /// Builds a renderer for the given image dimensions and output
    /// directory, starting at frame zero.
    pub fn new(width: u32, height: u32, base_path: PathBuf) -> (result: ImageRenderer)
        ensures
            result.spec_width() == width,
            result.spec_height() == height,
            result.spec_count() == 0,
            result.spec_base_path() == base_path,
    {
        ImageRenderer { width, height, count: 0, base_path }
    }

    /// The image width in pixels.
    pub fn width(&self) -> (r: u32)
        ensures
            r == self.spec_width(),
    {
        self.width
    }

    /// The image height in pixels.
    pub fn height(&self) -> (r: u32)
        ensures
            r == self.spec_height(),
    {
        self.height
    }

    /// The number of the frame being rendered next.
    pub fn count(&self) -> (r: usize)
        ensures
            r == self.spec_count(),
    {
        self.count
    }

    /// The directory the image files are written into.
    pub fn base_path(&self) -> (r: &PathBuf)
        ensures
            *r == self.spec_base_path(),
    {
        &self.base_path
    }

    /// Advances to the next frame number once a frame has been handed off
    /// for writing; everything else is untouched.
    pub fn advance_frame(&mut self)
        requires
            old(self).spec_count() < usize::MAX,
        ensures
            final(self).spec_count() == old(self).spec_count() + 1,
            final(self).spec_width() == old(self).spec_width(),
            final(self).spec_height() == old(self).spec_height(),
            final(self).spec_base_path() == old(self).spec_base_path(),
    {
        self.count = self.count + 1;
    }
}

} // verus!
