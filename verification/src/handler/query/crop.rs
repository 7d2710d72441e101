//! The `crop` parameter: the part of the picture that a crop keeps.

use vstd::prelude::*;
use vstd::string::StringExecFns;

use crate::handler::query::error::Error;
use crate::handler::query::text::chars_of;
use crate::handler::query::text::equals;
use crate::handler::query::text::split;
use crate::handler::query::text::split_at;
use crate::handler::query::text::texts;

verus! {

/// The position in the picture that a crop holds on to.
#[derive(Debug, PartialEq, Eq, Clone, Copy, Structural)]
pub enum Crop {
    Top,
    TopLeft,
    TopRight,
    Left,
    Right,
    Bottom,
    BottomLeft,
    BottomRight,
    Center,
}

/// The names that a value lists between its commas, each counted once and in
/// no order.
pub open spec fn names(value: Seq<char>) -> Set<Seq<char>> {
    split(value, ',').to_set()
}

/// Whether a name is one of the five that an anchor is made of.
pub open spec fn is_side(name: Seq<char>) -> bool {
    name == "top"@ || name == "left"@ || name == "right"@ || name == "bottom"@ || name
        == "center"@
}

/// Two sets of side names are the same set if they agree on each of the
/// five names.
proof fn lemma_same_sides(named: Set<Seq<char>>, wanted: Set<Seq<char>>)
    requires
        forall|name: Seq<char>| named.contains(name) ==> is_side(name),
        forall|name: Seq<char>| wanted.contains(name) ==> is_side(name),
    ensures
        named =~= wanted <==> {
            &&& named.contains("top"@) == wanted.contains("top"@)
            &&& named.contains("left"@) == wanted.contains("left"@)
            &&& named.contains("right"@) == wanted.contains("right"@)
            &&& named.contains("bottom"@) == wanted.contains("bottom"@)
            &&& named.contains("center"@) == wanted.contains("center"@)
        },
{
    if {
        &&& named.contains("top"@) == wanted.contains("top"@)
        &&& named.contains("left"@) == wanted.contains("left"@)
        &&& named.contains("right"@) == wanted.contains("right"@)
        &&& named.contains("bottom"@) == wanted.contains("bottom"@)
        &&& named.contains("center"@) == wanted.contains("center"@)
    } {
        assert forall|name: Seq<char>| named.contains(name) == wanted.contains(name) by {
            if named.contains(name) || wanted.contains(name) {
                assert(is_side(name));
            }
        }
        assert(named =~= wanted);
    }
}

/// Of a set of side names, which names it holds decides which of the nine
/// anchors it spells, if any.
proof fn lemma_sides_decide(named: Set<Seq<char>>)
    requires
        forall|name: Seq<char>| named.contains(name) ==> is_side(name),
    ensures
        ({
            let top = named.contains("top"@);
            let left = named.contains("left"@);
            let right = named.contains("right"@);
            let bottom = named.contains("bottom"@);
            let center = named.contains("center"@);
            &&& named =~= set!["top"@] <==> top && !left && !right && !bottom && !center
            &&& named =~= set!["top"@, "left"@] <==> top && left && !right && !bottom && !center
            &&& named =~= set!["top"@, "right"@] <==> top && !left && right && !bottom && !center
            &&& named =~= set!["left"@] <==> !top && left && !right && !bottom && !center
            &&& named =~= set!["right"@] <==> !top && !left && right && !bottom && !center
            &&& named =~= set!["bottom"@] <==> !top && !left && !right && bottom && !center
            &&& named =~= set!["bottom"@, "left"@] <==> !top && left && !right && bottom
                && !center
            &&& named =~= set!["bottom"@, "right"@] <==> !top && !left && right && bottom
                && !center
            &&& named =~= set!["center"@] <==> !top && !left && !right && !bottom && center
        }),
{
    reveal_strlit("top");
    reveal_strlit("left");
    reveal_strlit("right");
    reveal_strlit("bottom");
    reveal_strlit("center");
    assert("top"@.len() == 3 && "left"@.len() == 4 && "right"@.len() == 5);
    assert("bottom"@.len() == 6 && "bottom"@[0] != "center"@[0]);
    lemma_same_sides(named, set!["top"@]);
    lemma_same_sides(named, set!["top"@, "left"@]);
    lemma_same_sides(named, set!["top"@, "right"@]);
    lemma_same_sides(named, set!["left"@]);
    lemma_same_sides(named, set!["right"@]);
    lemma_same_sides(named, set!["bottom"@]);
    lemma_same_sides(named, set!["bottom"@, "left"@]);
    lemma_same_sides(named, set!["bottom"@, "right"@]);
    lemma_same_sides(named, set!["center"@]);
}

impl Crop {
    /// The anchor that `value` names, if it names one: a side, the centre, or
    /// a corner given by its two sides in either order.
    pub open spec fn spec_parse(value: Seq<char>) -> Option<Crop> {
        let named = names(value);
        if named =~= set!["top"@] {
            Some(Crop::Top)
        } else if named =~= set!["top"@, "left"@] {
            Some(Crop::TopLeft)
        } else if named =~= set!["top"@, "right"@] {
            Some(Crop::TopRight)
        } else if named =~= set!["left"@] {
            Some(Crop::Left)
        } else if named =~= set!["right"@] {
            Some(Crop::Right)
        } else if named =~= set!["bottom"@] {
            Some(Crop::Bottom)
        } else if named =~= set!["bottom"@, "left"@] {
            Some(Crop::BottomLeft)
        } else if named =~= set!["bottom"@, "right"@] {
            Some(Crop::BottomRight)
        } else if named =~= set!["center"@] {
            Some(Crop::Center)
        } else {
            None
        }
    }

    /// Reads an anchor: one or two names, separated by a comma. A name that
    /// is repeated counts once. Any value that is no anchor is rejected and
    /// handed back in the error.
    pub fn parse(value: &str) -> (crop: Result<Crop, Error>)
        ensures
            match crop {
                Ok(anchor) => Crop::spec_parse(value@) == Some(anchor),
                Err(error) => error matches Error::InvalidCrop(given) && given@ == value@
                    && Crop::spec_parse(value@) is None,
            },
    {
        let chars = chars_of(value);
        let pieces = split_at(&chars, ',');
        let ghost listed = texts(pieces@);
        let mut top = false;
        let mut left = false;
        let mut right = false;
        let mut bottom = false;
        let mut center = false;
        let mut other = false;
        let mut i: usize = 0;
        while i < pieces.len()
            invariant
                i <= pieces.len(),
                listed == texts(pieces@),
                top <==> exists|j: int| 0 <= j < i && #[trigger] listed[j] == "top"@,
                left <==> exists|j: int| 0 <= j < i && #[trigger] listed[j] == "left"@,
                right <==> exists|j: int| 0 <= j < i && #[trigger] listed[j] == "right"@,
                bottom <==> exists|j: int| 0 <= j < i && #[trigger] listed[j] == "bottom"@,
                center <==> exists|j: int| 0 <= j < i && #[trigger] listed[j] == "center"@,
                other <==> exists|j: int| 0 <= j < i && !is_side(#[trigger] listed[j]),
            decreases pieces.len() - i,
        {
            let piece = &pieces[i];
            proof {
                reveal_strlit("top");
                reveal_strlit("left");
                reveal_strlit("right");
                reveal_strlit("bottom");
                reveal_strlit("center");
                assert(listed[i as int] == piece@);
                assert("bottom"@[0] != "center"@[0]);
            }
            if equals(piece, "top") {
                top = true;
            } else if equals(piece, "left") {
                left = true;
            } else if equals(piece, "right") {
                right = true;
            } else if equals(piece, "bottom") {
                bottom = true;
            } else if equals(piece, "center") {
                center = true;
            } else {
                other = true;
            }
            i += 1;
        }
        proof {
            reveal_strlit("top");
            reveal_strlit("left");
            reveal_strlit("right");
            reveal_strlit("bottom");
            reveal_strlit("center");
            let named = names(value@);
            assert forall|name: Seq<char>| named.contains(name) <==> exists|j: int|
                0 <= j < listed.len() && #[trigger] listed[j] == name by {
                if exists|j: int| 0 <= j < listed.len() && #[trigger] listed[j] == name {
                    let j = choose|j: int| 0 <= j < listed.len() && #[trigger] listed[j] == name;
                    assert(listed.contains(listed[j]));
                }
            }
            assert(named.contains("top"@) == top);
            assert(named.contains("left"@) == left);
            assert(named.contains("right"@) == right);
            assert(named.contains("bottom"@) == bottom);
            assert(named.contains("center"@) == center);
            assert(other <==> exists|name: Seq<char>| named.contains(name) && !is_side(name)) by {
                if other {
                    let j = choose|j: int| 0 <= j < listed.len() && !is_side(#[trigger] listed[j]);
                    assert(named.contains(listed[j]));
                }
            }
            if !other {
                lemma_sides_decide(named);
            }
        }
        if other {
            Err(Error::InvalidCrop(String::from_str(value)))
        } else if top && !left && !right && !bottom && !center {
            Ok(Crop::Top)
        } else if top && left && !right && !bottom && !center {
            Ok(Crop::TopLeft)
        } else if top && !left && right && !bottom && !center {
            Ok(Crop::TopRight)
        } else if !top && left && !right && !bottom && !center {
            Ok(Crop::Left)
        } else if !top && !left && right && !bottom && !center {
            Ok(Crop::Right)
        } else if !top && !left && !right && bottom && !center {
            Ok(Crop::Bottom)
        } else if !top && left && !right && bottom && !center {
            Ok(Crop::BottomLeft)
        } else if !top && !left && right && bottom && !center {
            Ok(Crop::BottomRight)
        } else if !top && !left && !right && !bottom && center {
            Ok(Crop::Center)
        } else {
            Err(Error::InvalidCrop(String::from_str(value)))
        }
    }
}

} // verus!
