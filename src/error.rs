use vstd::prelude::*;

use crate::layer_lifecycle::LayerLifecycleError;

verus! {

/// An error of a buildpack run: either one of the engine's own, or one that the
/// buildpack's own code reported.
pub enum Error<E> {
    LayerLifecycleError(LayerLifecycleError),
    BuildpackError(E),
}

} // verus!
