//! A shirt giveaway: a customer with a preference gets it; one without
//! gets whichever colour the store has most of.

use vstd::prelude::*;

verus! {

/// The shirt colours the store stocks.
#[derive(Debug, PartialEq, Eq, Structural, Copy, Clone)]
pub enum ShirtColor {
    /// A red shirt.
    Red,
    /// A blue shirt.
    Blue,
}

/// How many shirts of colour `c` the sequence holds.
pub open spec fn color_count(shirts: Seq<ShirtColor>, c: ShirtColor) -> nat
    decreases shirts.len(),
{
    if shirts.len() == 0 {
        0
    } else {
        color_count(shirts.drop_last(), c) + if shirts.last() == c {
            1nat
        } else {
            0nat
        }
    }
}

/// The colour the store stocks most: red wins only by strict majority.
pub open spec fn majority_color(shirts: Seq<ShirtColor>) -> ShirtColor {
    if color_count(shirts, ShirtColor::Red) > color_count(shirts, ShirtColor::Blue) {
        ShirtColor::Red
    } else {
        ShirtColor::Blue
    }
}

/// The store's shirt stock.
pub struct Inventory {
    /// The shirts on hand.
    pub shirts: Vec<ShirtColor>,
}

impl Inventory {
    /// The colour handed out: the customer's preference when they have
    /// one, the best-stocked colour otherwise.
    pub fn giveaway(&self, user_preference: Option<ShirtColor>) -> (c: ShirtColor)
        ensures
            c == match user_preference {
                Some(p) => p,
                None => majority_color(self.shirts@),
            },
    {
        match user_preference {
            Some(p) => p,
            None => self.most_stocked(),
        }
    }

    /// The colour with the strictly larger count; ties go to blue.
    pub fn most_stocked(&self) -> (c: ShirtColor)
        ensures
            c == majority_color(self.shirts@),
    {
        let mut num_red: usize = 0;
        let mut num_blue: usize = 0;
        let mut i: usize = 0;
        while i < self.shirts.len()
            invariant
                i <= self.shirts@.len(),
                num_red == color_count(self.shirts@.take(i as int), ShirtColor::Red),
                num_blue == color_count(self.shirts@.take(i as int), ShirtColor::Blue),
                num_red + num_blue == i,
            decreases self.shirts@.len() - i,
        {
            proof {
                assert(self.shirts@.take(i + 1).drop_last() =~= self.shirts@.take(i as int));
                assert(self.shirts@.take(i + 1).last() == self.shirts@[i as int]);
            }
            match self.shirts[i] {
                ShirtColor::Red => {
                    num_red = num_red + 1;
                },
                ShirtColor::Blue => {
                    num_blue = num_blue + 1;
                },
            }
            i = i + 1;
        }
        proof {
            assert(self.shirts@.take(self.shirts@.len() as int) =~= self.shirts@);
        }
        if num_red > num_blue {
            ShirtColor::Red
        } else {
            ShirtColor::Blue
        }
    }
}

} // verus!
