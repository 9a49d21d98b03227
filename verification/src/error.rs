//! What can go wrong with an asset.

use vstd::prelude::*;
use vstd::string::StringExecFns;

verus! {

/// Why an asset operation did not go through.
#[derive(Clone, Copy, Debug, PartialEq, Eq, Structural)]
pub enum AssetError {
    /// Nothing goes by the name that was asked for.
    NotFound,
    /// The asset is shared with someone, or a loaded material names it.
    StillInUse,
    /// The GPU did not create the object.
    AllocationFailed,
}

/// The three kinds of asset.
#[derive(Clone, Copy, Debug, PartialEq, Eq, Structural)]
pub enum AssetKind {
    Material,
    Texture,
    Shader,
}

/// The kind of asset, as it is written at the start of a message.
pub open spec fn kind_label(kind: AssetKind) -> Seq<char> {
    match kind {
        AssetKind::Material => "Material"@,
        AssetKind::Texture => "Texture"@,
        AssetKind::Shader => "Shader"@,
    }
}

/// What the error says of the asset, as it is written at the end of a
/// message.
pub open spec fn complaint(error: AssetError) -> Seq<char> {
    match error {
        AssetError::NotFound => ", was not found!"@,
        AssetError::StillInUse => ", is still in use!"@,
        AssetError::AllocationFailed => ", could not be created!"@,
    }
}

impl AssetError {
    /// A sentence for the user: the kind, the name, and what went wrong.
    pub fn describe(&self, kind: AssetKind, name: &str) -> (message: String)
        ensures
            message@ == kind_label(kind) + ", "@ + name@ + complaint(*self),
    {
        let label = match kind {
            AssetKind::Material => "Material",
            AssetKind::Texture => "Texture",
            AssetKind::Shader => "Shader",
        };
        let tail = match self {
            AssetError::NotFound => ", was not found!",
            AssetError::StillInUse => ", is still in use!",
            AssetError::AllocationFailed => ", could not be created!",
        };
        let mut message = String::from_str(label);
        message.append(", ");
        message.append(name);
        message.append(tail);
        message
    }
}

} // verus!
