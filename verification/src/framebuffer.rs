use vstd::prelude::*;
use crate::shade::Shade;

verus! {

/// The screen: 144 rows of 160 shades.
pub type Buffer = [[Shade; 160]; 144];

/// The all white screen.
pub open spec fn blank() -> Buffer {
    vstd::array::spec_array_fill_for_copy_type::<[Shade; 160], 144>(
        vstd::array::spec_array_fill_for_copy_type::<Shade, 160>(Shade::White),
    )
}

pub fn new() -> (b: Buffer)
    ensures
        b == blank(),
{
    [[Shade::White; 160]; 144]
}

}
