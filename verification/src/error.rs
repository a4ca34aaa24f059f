use vstd::prelude::*;

verus! {

/// Every way a request can fail validation. Each variant carries the exact
/// message that the service reports in its failure envelope.
#[derive(Clone, Copy, Debug, PartialEq, Eq, Structural)]
pub enum ApiError {
    /// The decimals field of a mint-creation request is outside 0..=255.
    InvalidDecimals,
    /// The mint field is not base58, or does not decode to 32 bytes.
    InvalidMintAddress,
    /// The mint-authority field is not a valid 32-byte base58 address.
    InvalidMintAuthorityAddress,
    /// The destination field is not a valid 32-byte base58 address.
    InvalidDestinationAddress,
    /// The authority field is not a valid 32-byte base58 address.
    InvalidAuthorityAddress,
    /// The from field of a native transfer is not a valid address.
    InvalidFromAddress,
    /// The to field of a native transfer is not a valid address.
    InvalidToAddress,
    /// The owner field of a token transfer is not a valid address.
    InvalidOwnerAddress,
    /// The secret field is not base58, or its bytes are not a keypair.
    InvalidSecretKey,
    /// The signature field is not base64, or does not decode to 64 bytes.
    InvalidSignature,
    /// The pubkey field of a verification request is not a valid address.
    InvalidPubkeyAddress,
}

impl ApiError {
    /// The message placed in the failure envelope for this error.
    pub fn message(&self) -> (r: &'static str)
        ensures
            *self == ApiError::InvalidDecimals ==> r@ == "Invalid decimals: must be between 0 and 255"@,
            *self == ApiError::InvalidMintAddress ==> r@ == "Invalid mint address"@,
            *self == ApiError::InvalidMintAuthorityAddress ==> r@ == "Invalid mintAuthority address"@,
            *self == ApiError::InvalidDestinationAddress ==> r@ == "Invalid destination address"@,
            *self == ApiError::InvalidAuthorityAddress ==> r@ == "Invalid authority address"@,
            *self == ApiError::InvalidFromAddress ==> r@ == "Invalid from address"@,
            *self == ApiError::InvalidToAddress ==> r@ == "Invalid to address"@,
            *self == ApiError::InvalidOwnerAddress ==> r@ == "Invalid owner address"@,
            *self == ApiError::InvalidSecretKey ==> r@ == "Invalid secret key"@,
            *self == ApiError::InvalidSignature ==> r@ == "Invalid signature"@,
            *self == ApiError::InvalidPubkeyAddress ==> r@ == "Invalid pubkey address"@,
    {
        match self {
            ApiError::InvalidDecimals => "Invalid decimals: must be between 0 and 255",
            ApiError::InvalidMintAddress => "Invalid mint address",
            ApiError::InvalidMintAuthorityAddress => "Invalid mintAuthority address",
            ApiError::InvalidDestinationAddress => "Invalid destination address",
            ApiError::InvalidAuthorityAddress => "Invalid authority address",
            ApiError::InvalidFromAddress => "Invalid from address",
            ApiError::InvalidToAddress => "Invalid to address",
            ApiError::InvalidOwnerAddress => "Invalid owner address",
            ApiError::InvalidSecretKey => "Invalid secret key",
            ApiError::InvalidSignature => "Invalid signature",
            ApiError::InvalidPubkeyAddress => "Invalid pubkey address",
        }
    }
}

} // verus!
