use vstd::prelude::*;

verus! {

/// A token-extension kind carried by a mint, as the lock program
/// classifies it: the three kinds it tolerates, and everything else.
/// The host maps the token program's extension codes onto this type at
/// the boundary.
#[derive(Clone, Copy, Debug, PartialEq, Eq, Structural)]
pub enum MintExtension {
    TransferFeeConfig,
    MetadataPointer,
    TokenMetadata,
    Unsupported,
}

/// Whether the lock program tolerates a mint carrying `extension`.
pub open spec fn extension_allowed(extension: MintExtension) -> bool {
    extension != MintExtension::Unsupported
}

/// Decides whether a mint may be locked: true exactly when every
/// extension it carries is one of the tolerated kinds (transfer-fee
/// configuration, metadata pointer, token metadata).  A mint without
/// extensions is supported.
pub fn is_supported_mint(extensions: &Vec<MintExtension>) -> (result: bool)
    ensures
        result == (forall|i: int|
            0 <= i < extensions@.len() ==> extension_allowed(#[trigger] extensions@[i])),
{
    let mut i: usize = 0;
    while i < extensions.len()
        invariant
            i <= extensions@.len(),
            forall|j: int| 0 <= j < i ==> extension_allowed(#[trigger] extensions@[j]),
        decreases extensions.len() - i,
    {
        if extensions[i] == MintExtension::Unsupported {
            return false;
        }
        i = i + 1;
    }
    true
}

} // verus!
