//! The two status items as the hiding logic sees them: where they stand on
//! the screen, which symbol the anchor shows and how wide the spacer is.
//!
//! ```text
//! SHOWN:   [ icons ]  [spacer]  [ < ]        the spacer is narrow
//! HIDDEN:  [icons pushed off]<-[ wide spacer ][ v ]
//! ```
//!
//! A horizontal screen position is held as an integer key: keys order
//! positions as the screen does, the key is 0 exactly at the screen's left
//! edge (x = 0, where an item that has not been given a slot sits), positive
//! to the right of it, and negative to the left of it or where the position
//! is not a number.

use vstd::prelude::*;

verus! {

/// Where the two items stand, as far as they are known: `None` for an item
/// whose window does not exist yet.
#[derive(Clone, Copy, Debug, PartialEq, Eq, Structural)]
pub struct ItemPositions {
    pub spacer_x: Option<i64>,
    pub anchor_x: Option<i64>,
}

/// A position that is known and right of the screen's origin.
pub open spec fn is_placed(x: Option<i64>) -> bool {
    x is Some && x->0 > 0
}

impl ItemPositions {
    /// Both items are placed (known and right of the origin): the system has
    /// given each of them a slot.
    pub open spec fn both_right_of_origin(self) -> bool {
        is_placed(self.spacer_x) && is_placed(self.anchor_x)
    }

    /// Both items are placed and the spacer stands strictly left of the
    /// anchor: the only layout in which widening the spacer hides the icons
    /// left of it and leaves the anchor where it is.
    pub open spec fn spacer_left_of_anchor(self) -> bool {
        &&& is_placed(self.spacer_x)
        &&& is_placed(self.anchor_x)
        &&& self.spacer_x->0 < self.anchor_x->0
    }

    /// Whether both items are placed (known and right of the origin).
    pub fn both_placed(&self) -> (r: bool)
        ensures
            r == self.both_right_of_origin(),
    {
        match (self.spacer_x, self.anchor_x) {
            (Some(sx), Some(ax)) => sx > 0 && ax > 0,
            _ => false,
        }
    }

    /// Whether the spacer is known to stand in a slot strictly left of the
    /// anchor's. A position at the origin means "not placed", never "left":
    /// widening a spacer from there would carry the anchor off the screen.
    pub fn spacer_is_left_of_anchor(&self) -> (r: bool)
        ensures
            r == self.spacer_left_of_anchor(),
    {
        match (self.spacer_x, self.anchor_x) {
            (Some(sx), Some(ax)) => {
                let placed = sx > 0 && ax > 0;
                placed && sx < ax
            },
            _ => false,
        }
    }
}

/// The symbol on the anchor's button.
#[derive(Clone, Copy, Debug, PartialEq, Eq, Structural)]
pub enum AnchorSymbol {
    /// Icons are shown; a click hides them.
    Shown,
    /// Icons are hidden; a click shows them.
    Hidden,
    /// Hiding was refused because the items stand in the wrong order.
    Blocked,
}

pub open spec fn anchor_symbol_name(symbol: AnchorSymbol) -> Seq<char> {
    match symbol {
        AnchorSymbol::Shown => "chevron.left"@,
        AnchorSymbol::Hidden => "chevron.down"@,
        AnchorSymbol::Blocked => "exclamationmark.triangle"@,
    }
}

impl AnchorSymbol {
    /// The SF Symbol that stands for this state.
    pub fn name(self) -> (s: &'static str)
        ensures
            s@ == anchor_symbol_name(self),
    {
        match self {
            AnchorSymbol::Shown => "chevron.left",
            AnchorSymbol::Hidden => "chevron.down",
            AnchorSymbol::Blocked => "exclamationmark.triangle",
        }
    }
}

/// The width the spacer is given.
#[derive(Clone, Copy, Debug, PartialEq, Eq, Structural)]
pub enum SpacerLength {
    /// Narrow: the cutter stays visible and clickable.
    Shown,
    /// About the width of the screen: everything left of it leaves the screen.
    Hidden,
}

} // verus!
