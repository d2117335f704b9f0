use vstd::prelude::*;

verus! {

/// One of the four grey levels of the screen.
#[derive(Debug, Clone, Copy, PartialEq, Eq, Structural)]
pub enum Shade {
    White,
    LightGrey,
    DarkGrey,
    Black,
}

}
