use crate::output::image::Image;
use crate::output::output::OutputType;
use vstd::prelude::*;

verus! {

/// The output a render of `w` by `h` pixels writes to, for the requested format; its
/// pixel buffer is not allocated yet.
pub fn get_output(w: u32, h: u32, output_type: &OutputType) -> (r: Image)
    ensures
        r.wf(),
        r.spec_width() == w,
        r.spec_height() == h,
        !r.spec_initialized(),
{
    match output_type {
        OutputType::PNG => Image::new(w, h),
    }
}

} // verus!
