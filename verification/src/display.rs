//! Rendering intervals in Wirth interval notation.

use crate::interval::Interval;
use vstd::prelude::*;
use vstd::string::StringExecFns;

verus! {

/// The Wirth-notation text of each shape, around the rendered endpoint
/// texts `left_text` and `right_text`: `[`/`]` mark a closed endpoint,
/// `(`/`)` an open one, and an arrow stands for an unbounded side.
pub open spec fn display_shape<T>(
    i: Interval<T>,
    left_text: Seq<char>,
    right_text: Seq<char>,
) -> Seq<char> {
    match i {
        Interval::Closed { .. } => "["@ + left_text + ".."@ + right_text + "]"@,
        Interval::Open { .. } => "("@ + left_text + ".."@ + right_text + ")"@,
        Interval::LeftHalfOpen { .. } => "("@ + left_text + ".."@ + right_text + "]"@,
        Interval::RightHalfOpen { .. } => "["@ + left_text + ".."@ + right_text + ")"@,
        Interval::UnboundedClosedRight { .. } => "(←.."@ + right_text + "]"@,
        Interval::UnboundedOpenRight { .. } => "(←.."@ + right_text + ")"@,
        Interval::UnboundedClosedLeft { .. } => "["@ + left_text + "..→)"@,
        Interval::UnboundedOpenLeft { .. } => "("@ + left_text + "..→)"@,
        Interval::Singleton { .. } => "["@ + left_text + "]"@,
        Interval::Unbounded => "(←..→)"@,
        Interval::Empty => "Empty"@,
    }
}

/// Relies on std's `format!` with the `Debug` implementation of the
/// domain type, for the text of a single endpoint value alone.
#[verifier::external_body]
fn value_text<T: core::fmt::Debug>(value: &T) -> String {
    format!("{:?}", value)
}

impl<T: Copy + PartialOrd + core::fmt::Debug> Interval<T> {
    /// Render the interval in Wirth interval notation, with each endpoint
    /// value rendered by the domain's own `Debug` formatting: `[1..5]`,
    /// `(1..5]`, `(←..5)`, `[3]`, `(←..→)`, `Empty`.
    pub fn to_display_string(&self) -> (r: String)
        ensures
            self is Empty ==> r@ == "Empty"@,
            self is Unbounded ==> r@ == "(←..→)"@,
            exists|left_text: Seq<char>, right_text: Seq<char>|
                r@ == display_shape(*self, left_text, right_text),
    {
        match self {
            Interval::Closed { bound_pair } => {
                let left_text = value_text(bound_pair.left());
                let right_text = value_text(bound_pair.right());
                let r = String::from_str("[").concat(left_text.as_str()).concat("..").concat(
                    right_text.as_str(),
                ).concat("]");
                proof {
                    assert(r@ == display_shape(*self, left_text@, right_text@));
                }
                r
            },
            Interval::Open { bound_pair } => {
                let left_text = value_text(bound_pair.left());
                let right_text = value_text(bound_pair.right());
                let r = String::from_str("(").concat(left_text.as_str()).concat("..").concat(
                    right_text.as_str(),
                ).concat(")");
                proof {
                    assert(r@ == display_shape(*self, left_text@, right_text@));
                }
                r
            },
            Interval::LeftHalfOpen { bound_pair } => {
                let left_text = value_text(bound_pair.left());
                let right_text = value_text(bound_pair.right());
                let r = String::from_str("(").concat(left_text.as_str()).concat("..").concat(
                    right_text.as_str(),
                ).concat("]");
                proof {
                    assert(r@ == display_shape(*self, left_text@, right_text@));
                }
                r
            },
            Interval::RightHalfOpen { bound_pair } => {
                let left_text = value_text(bound_pair.left());
                let right_text = value_text(bound_pair.right());
                let r = String::from_str("[").concat(left_text.as_str()).concat("..").concat(
                    right_text.as_str(),
                ).concat(")");
                proof {
                    assert(r@ == display_shape(*self, left_text@, right_text@));
                }
                r
            },
            Interval::UnboundedClosedRight { right } => {
                let right_text = value_text(right);
                let r = String::from_str("(←..").concat(right_text.as_str()).concat("]");
                proof {
                    assert(r@ == display_shape(*self, right_text@, right_text@));
                }
                r
            },
            Interval::UnboundedOpenRight { right } => {
                let right_text = value_text(right);
                let r = String::from_str("(←..").concat(right_text.as_str()).concat(")");
                proof {
                    assert(r@ == display_shape(*self, right_text@, right_text@));
                }
                r
            },
            Interval::UnboundedClosedLeft { left } => {
                let left_text = value_text(left);
                let r = String::from_str("[").concat(left_text.as_str()).concat("..→)");
                proof {
                    assert(r@ == display_shape(*self, left_text@, left_text@));
                }
                r
            },
            Interval::UnboundedOpenLeft { left } => {
                let left_text = value_text(left);
                let r = String::from_str("(").concat(left_text.as_str()).concat("..→)");
                proof {
                    assert(r@ == display_shape(*self, left_text@, left_text@));
                }
                r
            },
            Interval::Singleton { at } => {
                let at_text = value_text(at);
                let r = String::from_str("[").concat(at_text.as_str()).concat("]");
                proof {
                    assert(r@ == display_shape(*self, at_text@, at_text@));
                }
                r
            },
            Interval::Unbounded => {
                let r = String::from_str("(←..→)");
                proof {
                    assert(r@ == display_shape(*self, Seq::<char>::empty(), Seq::<char>::empty()));
                }
                r
            },
            Interval::Empty => {
                let r = String::from_str("Empty");
                proof {
                    assert(r@ == display_shape(*self, Seq::<char>::empty(), Seq::<char>::empty()));
                }
                r
            },
        }
    }
}

} // verus!
