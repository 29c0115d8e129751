use vstd::prelude::*;

use crate::error::NetworkError;

verus! {

/// The nonlinearity of a weighted node, paired with its derivative expressed
/// as a function of the node's output.
#[derive(Debug, Clone, Copy, PartialEq, Eq, Structural)]
pub enum Activation {
    /// `1 / (1 + e^-x)`, derivative `o * (1 - o)`.
    Logistic,
    /// Hyperbolic tangent, derivative `1 - o^2`.
    Tanh,
    /// `max(x, 0)`, derivative `signum(o)`.
    Relu,
    /// The identity, derivative `1`.
    Identity,
}

/// The activation that a layer-construction name selects, if any.
pub open spec fn activation_named(name: Seq<char>) -> Option<Activation> {
    if name == "sigmoid"@ || name == "softplus"@ || name == "logistic"@ {
        Some(Activation::Logistic)
    } else if name == "tanh"@ {
        Some(Activation::Tanh)
    } else if name == "relu"@ {
        Some(Activation::Relu)
    } else if name == "none"@ {
        Some(Activation::Identity)
    } else {
        None
    }
}

impl Activation {
    /// Selects the activation pair by name; an unknown name is a
    /// configuration error.
    pub fn from_name(name: &str) -> (r: Result<Activation, NetworkError>)
        ensures
            match activation_named(name@) {
                Some(a) => r == Ok::<Activation, NetworkError>(a),
                None => r == Err::<Activation, NetworkError>(NetworkError::UnknownActivation),
            },
    {
        let n: String = name.to_owned();
        proof {
            reveal_strlit("sigmoid");
            reveal_strlit("softplus");
            reveal_strlit("logistic");
            reveal_strlit("tanh");
            reveal_strlit("relu");
            reveal_strlit("none");
        }
        if n == "sigmoid".to_owned() || n == "softplus".to_owned() || n == "logistic".to_owned() {
            Ok(Activation::Logistic)
        } else if n == "tanh".to_owned() {
            Ok(Activation::Tanh)
        } else if n == "relu".to_owned() {
            Ok(Activation::Relu)
        } else if n == "none".to_owned() {
            Ok(Activation::Identity)
        } else {
            Err(NetworkError::UnknownActivation)
        }
    }
}

} // verus!
