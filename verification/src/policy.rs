use vstd::prelude::*;

verus! {

/// How a scrollable widget's content size is determined along one axis.
///
/// The toolkit's scrollable contract offers two choices: size the content to
/// its minimum size, or to its natural size. A fresh widget reports `Minimum`
/// on both axes until the toolkit writes something else.
#[derive(Clone, Copy, Debug, PartialEq, Eq, Structural)]
pub enum ScrollPolicy {
    Minimum,
    Natural,
}

} // verus!
