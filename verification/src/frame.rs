//! The output frame: a packed RGB24 buffer of the 256x240 screen,
//! written one pixel at a time by the renderer.

use vstd::prelude::*;

verus! {

/// A packed RGB24 pixel buffer, 256 columns by 240 rows.
pub struct Frame {
    pub data: Vec<u8>,
}

/// A frame buffer of the fixed 256x240 screen dimensions.
pub open spec fn frame_wf(f: Frame) -> bool {
    f.data.len() == 256 * 240 * 3
}

/// The buffer after one pixel write: three bytes at the pixel's base
/// offset when the pixel lies on the 256x240 screen (and inside the
/// buffer); anything else is dropped.
pub open spec fn set_pixel_spec(data: Seq<u8>, x: int, y: int, rgb: (u8, u8, u8)) -> Seq<u8> {
    if 0 <= x < 256 && 0 <= y < 240 {
        let base = y * 3 * 256 + x * 3;
        if base + 2 < data.len() {
            data.update(base, rgb.0).update(base + 1, rgb.1).update(base + 2, rgb.2)
        } else {
            data
        }
    } else {
        data
    }
}

impl Frame {
    /// The width in pixels.
    pub const WIDTH: usize = 256;

    /// The height in pixels.
    pub const HIGHT: usize = 240;

    /// An all-black frame.
    pub fn new() -> (r: Frame)
        ensures
            frame_wf(r),
            forall|i: int| 0 <= i < r.data@.len() ==> r.data@[i] == 0,
    {
        Frame { data: vec![0u8; 256 * 240 * 3] }
    }

    /// Write one pixel; coordinates off the 256x240 screen are ignored.
    pub fn set_pixel(&mut self, x: usize, y: usize, rgb: (u8, u8, u8))
        ensures
            final(self).data@ == set_pixel_spec(old(self).data@, x as int, y as int, rgb),
            final(self).data@.len() == old(self).data@.len(),
    {
        if x < 256 && y < 240 {
            let base: usize = y * 3 * 256 + x * 3;
            if base + 2 < self.data.len() {
                self.data.set(base, rgb.0);
                self.data.set(base + 1, rgb.1);
                self.data.set(base + 2, rgb.2);
            }
        }
    }
}

} // verus!
