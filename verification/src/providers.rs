//! The fact-provider boundary: the categorized failures a provider can
//! report, and the endpoint configuration of the two known RPC
//! providers.
//!
//! The network clients themselves live outside the library; the library
//! receives each category's outcome as a plain `Result` and carries on
//! from there.

use vstd::prelude::*;

verus! {

/// A categorized provider failure for one fact category.
pub enum ProviderError {
    Timeout,
    InvalidResponse,
    NetworkError(String),
    NotFound,
}

/// Ghost view of [`ProviderError`].
pub enum ProviderErrorV {
    Timeout,
    InvalidResponse,
    NetworkError(Seq<char>),
    NotFound,
}

impl View for ProviderError {
    type V = ProviderErrorV;

    open spec fn view(&self) -> ProviderErrorV {
        match self {
            ProviderError::Timeout => ProviderErrorV::Timeout,
            ProviderError::InvalidResponse => ProviderErrorV::InvalidResponse,
            ProviderError::NetworkError(s) => ProviderErrorV::NetworkError(s@),
            ProviderError::NotFound => ProviderErrorV::NotFound,
        }
    }
}

impl Clone for ProviderError {
    fn clone(&self) -> (r: Self)
        ensures
            r == *self,
    {
        match self {
            ProviderError::Timeout => ProviderError::Timeout,
            ProviderError::InvalidResponse => ProviderError::InvalidResponse,
            ProviderError::NetworkError(s) => ProviderError::NetworkError(s.clone()),
            ProviderError::NotFound => ProviderError::NotFound,
        }
    }
}

/// Diagnostic rendering of a provider failure.
pub open spec fn spec_provider_error_text(e: ProviderErrorV) -> Seq<char> {
    match e {
        ProviderErrorV::Timeout => "Timeout"@,
        ProviderErrorV::InvalidResponse => "InvalidResponse"@,
        ProviderErrorV::NetworkError(s) => "NetworkError(\""@ + s + "\")"@,
        ProviderErrorV::NotFound => "NotFound"@,
    }
}

impl ProviderError {
    /// Render the failure for an error list entry.
    pub fn describe(&self) -> (s: String)
        ensures
            s@ == spec_provider_error_text(self@),
    {
        match self {
            ProviderError::Timeout => String::from_str("Timeout"),
            ProviderError::InvalidResponse => String::from_str("InvalidResponse"),
            ProviderError::NetworkError(detail) => {
                let s = String::from_str("NetworkError(\"").concat(detail.as_str()).concat(
                    "\")",
                );
                proof {
                    assert(s@ =~= spec_provider_error_text(self@));
                }
                s
            },
            ProviderError::NotFound => String::from_str("NotFound"),
        }
    }
}

/// Configuration of the solana-family RPC provider: the key and the
/// endpoint URL derived from it.
pub struct HeliusProvider {
    pub api_key: String,
    pub rpc_url: String,
}

impl HeliusProvider {
    /// Build the endpoint configuration for an API key.
    pub fn new(api_key: String) -> (p: Self)
        ensures
            p.api_key == api_key,
            p.rpc_url@ == "https://mainnet.helius-rpc.com/?api-key="@ + api_key@,
    {
        let rpc_url = String::from_str("https://mainnet.helius-rpc.com/?api-key=").concat(
            api_key.as_str(),
        );
        HeliusProvider { api_key, rpc_url }
    }
}

/// Configuration of the evm-family RPC provider: the key and the
/// per-chain endpoint URL derived from it.
pub struct AlchemyProvider {
    pub api_key: String,
    pub rpc_url: String,
}

/// The evm-family endpoint for a chain identifier; chains without a
/// dedicated endpoint fall back to the base-mainnet one.
pub open spec fn spec_alchemy_url(chain: Seq<char>, api_key: Seq<char>) -> Seq<char> {
    if chain == "ethereum"@ {
        "https://eth-mainnet.g.alchemy.com/v2/"@ + api_key
    } else {
        "https://base-mainnet.g.alchemy.com/v2/"@ + api_key
    }
}

impl AlchemyProvider {
    /// Build the endpoint configuration for an API key and chain.
    pub fn new(api_key: String, chain: &String) -> (p: Self)
        ensures
            p.api_key == api_key,
            p.rpc_url@ == spec_alchemy_url(chain@, api_key@),
    {
        let rpc_url = if *chain == String::from_str("ethereum") {
            String::from_str("https://eth-mainnet.g.alchemy.com/v2/").concat(api_key.as_str())
        } else {
            String::from_str("https://base-mainnet.g.alchemy.com/v2/").concat(api_key.as_str())
        };
        AlchemyProvider { api_key, rpc_url }
    }
}

} // verus!
