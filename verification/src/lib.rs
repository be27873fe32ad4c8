//! Structural fairness analysis for fungible tokens.
//!
//! The library inspects on-chain facts about a token (supply-control
//! authorities, holder distribution, ownership, age, interface
//! conformance) and turns them into a set of check results, a weighted
//! 0-100 fairness score with a critical-failure override, a
//! deterministic explanation, and a freshness-aware response cache.
//!
//! Fetching the facts is the caller's business: the library receives
//! each category's outcome as a plain `Result` and owns every decision
//! made from there on, including how fetch failures degrade the
//! verdict.

pub mod types;
pub mod checks;
pub mod scoring;
pub mod textfmt;
pub mod providers;
pub mod explain;
pub mod analysis;
pub mod cache;

pub use types::{
    AgeBand, AuthorityInfo, CheckResult, CheckStatus, CreationInfo, Grade, HolderBalance,
    HolderInfo, Metadata, Severity, SupplyInfo, TokenFacts, TokenStandard,
};
pub use providers::{AlchemyProvider, HeliusProvider, ProviderError};
pub use scoring::{aggregate_score, grade_from_score, ScoreComponent, ScoreResult};
pub use checks::{
    check_freeze_authority_disabled, check_holder_concentration, check_mint_authority_disabled,
    check_ownership_renounced, check_standard_sanity, check_token_age, run_checks,
};
pub use explain::{generate_explanation, ExplainSection, InterpretationSection};
pub use analysis::{
    analyze_gathered, build_token_metadata, gather_facts, AnalysisStatus, AnalyzeOptions,
    AnalyzeRequest, AnalyzeResponse, FetchOutcomes, TokenMetadata,
};
pub use cache::{make_cache_key, ttl_for_response, CacheEntry, SimpleCache};
