use vstd::prelude::*;

verus! {

/// Failures that abort a network operation before it mutates any state.
#[derive(Debug, Clone, Copy, PartialEq, Eq, Structural)]
pub enum NetworkError {
    /// A layer was requested with an activation name that is not known.
    UnknownActivation,
    /// A vector's length disagrees with the layer or node it is handed to.
    ShapeMismatch { expected: usize, found: usize },
    /// An operation that needs a weighted node was called on an input node.
    InputNode,
}

/// Checks that a vector of `found` values matches a consumer that expects
/// `expected` of them.
pub fn check_shape(expected: usize, found: usize) -> (r: Result<(), NetworkError>)
    ensures
        expected == found ==> r == Ok::<(), NetworkError>(()),
        expected != found ==> r == Err::<(), NetworkError>(
            NetworkError::ShapeMismatch { expected, found },
        ),
{
    if expected == found {
        Ok(())
    } else {
        Err(NetworkError::ShapeMismatch { expected, found })
    }
}

} // verus!
