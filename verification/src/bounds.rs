//! The placement rectangle of an item on the canvas.

use vstd::prelude::*;
use crate::scalar::Scalar;

verus! {

/// Where an item is placed. The four numbers are written into the item's
/// header as they are; nothing is checked of them.
#[derive(Debug)]
pub struct ItemBounds {
    pub left: Scalar,
    pub top: Scalar,
    pub right: Scalar,
    pub bottom: Scalar,
}

impl ItemBounds {
    pub fn new(left: Scalar, top: Scalar, right: Scalar, bottom: Scalar) -> (b: ItemBounds)
        ensures
            b == (ItemBounds { left, top, right, bottom }),
    {
        ItemBounds { left, top, right, bottom }
    }
}

/// What the bounds add to a header keyword: nothing where there are none,
/// else `(left, top, right, bottom)`.
pub open spec fn bounds_text(bounds: Option<ItemBounds>) -> Seq<char> {
    match bounds {
        None => Seq::empty(),
        Some(b) => "("@ + b.left.token() + ", "@ + b.top.token() + ", "@ + b.right.token() + ", "@
            + b.bottom.token() + ")"@,
    }
}

/// Appends what the bounds add to a header keyword.
pub fn push_bounds(out: &mut String, bounds: &Option<ItemBounds>)
    ensures
        final(out)@ == old(out)@ + bounds_text(*bounds),
{
    match bounds {
        None => {
            assert(out@ =~= old(out)@ + bounds_text(*bounds));
        },
        Some(b) => {
            out.append("(");
            out.append(b.left.text.as_str());
            out.append(", ");
            out.append(b.top.text.as_str());
            out.append(", ");
            out.append(b.right.text.as_str());
            out.append(", ");
            out.append(b.bottom.text.as_str());
            out.append(")");
            assert(out@ =~= old(out)@ + bounds_text(*bounds));
        },
    }
}

} // verus!
