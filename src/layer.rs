//! Where a layer lives under the layers directory.

use vstd::prelude::*;
use vstd::string::StringExecFns;

verus! {

/// The name of the file that holds a layer's content metadata, beside the layer's
/// directory: the layer's name followed by `.toml`.
pub fn content_metadata_file_name(layer_name: &str) -> (r: String)
    ensures
        r@ == layer_name@ + ".toml"@,
{
    layer_name.to_owned().concat(".toml")
}

} // verus!
