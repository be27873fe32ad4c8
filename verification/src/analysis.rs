//! The fact-to-verdict pipeline: assemble the per-category fetch
//! outcomes into a fact bundle with an error list, run the chain's
//! check set, aggregate the score, and build the full response.
//!
//! Fetching itself happens outside the library; every decision made on
//! the outcomes is verified here. The caller supplies the clock
//! readings from which the analysis id and timestamp are derived.

use vstd::prelude::*;

use crate::types::{
    AuthorityInfo, AuthorityInfoV, CheckResultV, CreationInfo, CreationInfoV, HolderInfo,
    HolderInfoV, Metadata, MetadataV, SupplyInfo, SupplyInfoV, TokenFacts, TokenFactsV,
    spec_band_name, spec_standard_name, band_name, standard_name, CheckResult,
};
use crate::providers::{ProviderError, ProviderErrorV, spec_provider_error_text};
use crate::checks::{run_checks, spec_run_checks};
use crate::scoring::{aggregate_score, ScoreResult, ScoreResultV, spec_score_result};
use crate::explain::{generate_explanation, ExplainSection, ExplainSectionV, spec_explanation};
use crate::textfmt::{
    format_analysis_id, format_timestamp, spec_analysis_id, spec_timestamp,
};

verus! {

/// Options of one analysis request.
pub struct AnalyzeOptions {
    pub include_holders: bool,
    pub max_holders: usize,
    pub force_refresh: bool,
}

impl Clone for AnalyzeOptions {
    fn clone(&self) -> (r: Self)
        ensures
            r == *self,
    {
        AnalyzeOptions {
            include_holders: self.include_holders,
            max_holders: self.max_holders,
            force_refresh: self.force_refresh,
        }
    }
}

fn default_true() -> (b: bool)
    ensures
        b,
{
    true
}

fn default_max_holders() -> (n: usize)
    ensures
        n == 10,
{
    10
}

impl Default for AnalyzeOptions {
    /// By default holders are fetched, ten of them, without a forced
    /// refresh.
    fn default() -> (r: Self)
        ensures
            r.include_holders,
            r.max_holders == 10,
            !r.force_refresh,
    {
        AnalyzeOptions {
            include_holders: default_true(),
            max_holders: default_max_holders(),
            force_refresh: false,
        }
    }
}

/// One analysis request: a chain, an address, and options.
pub struct AnalyzeRequest {
    pub chain: String,
    pub address: String,
    pub options: AnalyzeOptions,
}

/// Ghost view of [`AnalyzeRequest`].
pub struct AnalyzeRequestV {
    pub chain: Seq<char>,
    pub address: Seq<char>,
    pub options: AnalyzeOptions,
}

impl View for AnalyzeRequest {
    type V = AnalyzeRequestV;

    open spec fn view(&self) -> AnalyzeRequestV {
        (AnalyzeRequestV { chain: self.chain@, address: self.address@, options: self.options })
    }
}

impl Clone for AnalyzeRequest {
    fn clone(&self) -> (r: Self)
        ensures
            r@ == self@,
    {
        AnalyzeRequest {
            chain: self.chain.clone(),
            address: self.address.clone(),
            options: self.options.clone(),
        }
    }
}

/// Overall data sufficiency of one analysis.
#[derive(Clone, Copy, PartialEq, Eq, Structural, Debug)]
pub enum AnalysisStatus {
    Complete,
    Partial,
    Error,
}

/// Token metadata echoed in a response.
pub struct TokenMetadata {
    pub name: Option<String>,
    pub symbol: Option<String>,
    pub decimals: Option<u8>,
    pub total_supply: Option<u64>,
    pub program_standard: String,
    pub created_at: Option<String>,
    pub age_seconds: Option<u64>,
    pub age_band: String,
}

/// Ghost view of [`TokenMetadata`].
pub struct TokenMetadataV {
    pub name: Option<Seq<char>>,
    pub symbol: Option<Seq<char>>,
    pub decimals: Option<u8>,
    pub total_supply: Option<u64>,
    pub program_standard: Seq<char>,
    pub created_at: Option<Seq<char>>,
    pub age_seconds: Option<u64>,
    pub age_band: Seq<char>,
}

impl View for TokenMetadata {
    type V = TokenMetadataV;

    open spec fn view(&self) -> TokenMetadataV {
        (TokenMetadataV {
            name: match self.name {
                Some(s) => Some(s@),
                None => None,
            },
            symbol: match self.symbol {
                Some(s) => Some(s@),
                None => None,
            },
            decimals: self.decimals,
            total_supply: self.total_supply,
            program_standard: self.program_standard@,
            created_at: match self.created_at {
                Some(s) => Some(s@),
                None => None,
            },
            age_seconds: self.age_seconds,
            age_band: self.age_band@,
        })
    }
}

impl Clone for TokenMetadata {
    fn clone(&self) -> (r: Self)
        ensures
            r@ == self@,
    {
        TokenMetadata {
            name: self.name.clone(),
            symbol: self.symbol.clone(),
            decimals: self.decimals,
            total_supply: self.total_supply,
            program_standard: self.program_standard.clone(),
            created_at: self.created_at.clone(),
            age_seconds: self.age_seconds,
            age_band: self.age_band.clone(),
        }
    }
}

/// One full analysis response.
pub struct AnalyzeResponse {
    pub schema_version: String,
    pub analysis_id: String,
    pub requested_at: String,
    pub chain: String,
    pub address: String,
    pub status: AnalysisStatus,
    pub token: Option<TokenMetadata>,
    pub checks: Vec<CheckResult>,
    pub score: ScoreResult,
    pub explain: ExplainSection,
    pub errors: Vec<String>,
}

/// Ghost view of [`AnalyzeResponse`].
pub struct AnalyzeResponseV {
    pub schema_version: Seq<char>,
    pub analysis_id: Seq<char>,
    pub requested_at: Seq<char>,
    pub chain: Seq<char>,
    pub address: Seq<char>,
    pub status: AnalysisStatus,
    pub token: Option<TokenMetadataV>,
    pub checks: Seq<CheckResultV>,
    pub score: ScoreResultV,
    pub explain: ExplainSectionV,
    pub errors: Seq<Seq<char>>,
}

impl View for AnalyzeResponse {
    type V = AnalyzeResponseV;

    open spec fn view(&self) -> AnalyzeResponseV {
        (AnalyzeResponseV {
            schema_version: self.schema_version@,
            analysis_id: self.analysis_id@,
            requested_at: self.requested_at@,
            chain: self.chain@,
            address: self.address@,
            status: self.status,
            token: match self.token {
                Some(t) => Some(t@),
                None => None,
            },
            checks: self.checks@.map_values(|c: CheckResult| c@),
            score: self.score@,
            explain: self.explain@,
            errors: self.errors@.map_values(|s: String| s@),
        })
    }
}

impl Clone for AnalyzeResponse {
    fn clone(&self) -> (r: Self)
        ensures
            r@ == self@,
    {
        let token = match &self.token {
            Some(t) => Some(t.clone()),
            None => None,
        };
        let checks = self.checks.clone();
        let errors = self.errors.clone();
        proof {
            assert(checks@.map_values(|c: CheckResult| c@) =~= self.checks@.map_values(
                |c: CheckResult| c@,
            ));
            assert(errors@ =~= self.errors@);
        }
        AnalyzeResponse {
            schema_version: self.schema_version.clone(),
            analysis_id: self.analysis_id.clone(),
            requested_at: self.requested_at.clone(),
            chain: self.chain.clone(),
            address: self.address.clone(),
            status: self.status,
            token,
            checks,
            score: self.score.clone(),
            explain: self.explain.clone(),
            errors,
        }
    }
}

// ---------------------------------------------------------------------
// Fact gathering
// ---------------------------------------------------------------------

/// The per-category outcomes of one round of provider fetches. The
/// holders outcome is absent when the request asked to skip holder
/// data.
pub struct FetchOutcomes {
    pub metadata: Result<Metadata, ProviderError>,
    pub supply: Result<SupplyInfo, ProviderError>,
    pub authorities: Result<AuthorityInfo, ProviderError>,
    pub holders: Option<Result<HolderInfo, ProviderError>>,
    pub creation: Result<CreationInfo, ProviderError>,
}

/// Ghost view of [`FetchOutcomes`].
pub struct FetchOutcomesV {
    pub metadata: Result<MetadataV, ProviderErrorV>,
    pub supply: Result<SupplyInfoV, ProviderErrorV>,
    pub authorities: Result<AuthorityInfoV, ProviderErrorV>,
    pub holders: Option<Result<HolderInfoV, ProviderErrorV>>,
    pub creation: Result<CreationInfoV, ProviderErrorV>,
}

impl View for FetchOutcomes {
    type V = FetchOutcomesV;

    open spec fn view(&self) -> FetchOutcomesV {
        (FetchOutcomesV {
            metadata: match &self.metadata {
                Ok(m) => Ok(m@),
                Err(e) => Err(e@),
            },
            supply: match &self.supply {
                Ok(s) => Ok(s@),
                Err(e) => Err(e@),
            },
            authorities: match &self.authorities {
                Ok(a) => Ok(a@),
                Err(e) => Err(e@),
            },
            holders: match &self.holders {
                Some(Ok(h)) => Some(Ok(h@)),
                Some(Err(e)) => Some(Err(e@)),
                None => None,
            },
            creation: match &self.creation {
                Ok(c) => Ok(c@),
                Err(e) => Err(e@),
            },
        })
    }
}

/// The fact bundle assembled from the outcomes: each category present
/// exactly where its fetch succeeded.
pub open spec fn spec_facts_of(o: FetchOutcomesV) -> TokenFactsV {
    (TokenFactsV {
        metadata: match o.metadata {
            Ok(m) => Some(m),
            Err(_) => None,
        },
        supply: match o.supply {
            Ok(s) => Some(s),
            Err(_) => None,
        },
        authorities: match o.authorities {
            Ok(a) => Some(a),
            Err(_) => None,
        },
        holders: match o.holders {
            Some(Ok(h)) => Some(h),
            _ => None,
        },
        creation: match o.creation {
            Ok(c) => Some(c),
            Err(_) => None,
        },
    })
}

/// The error list assembled from the outcomes: one tagged entry per
/// failed category, in the fixed category order.
pub open spec fn spec_fetch_errors(o: FetchOutcomesV) -> Seq<Seq<char>> {
    (match o.metadata {
        Err(e) => seq!["Failed to fetch metadata: "@ + spec_provider_error_text(e)],
        Ok(_) => Seq::<Seq<char>>::empty(),
    }) + (match o.supply {
        Err(e) => seq!["Failed to fetch supply: "@ + spec_provider_error_text(e)],
        Ok(_) => Seq::<Seq<char>>::empty(),
    }) + (match o.authorities {
        Err(e) => seq!["Failed to fetch authorities: "@ + spec_provider_error_text(e)],
        Ok(_) => Seq::<Seq<char>>::empty(),
    }) + (match o.holders {
        Some(Err(e)) => seq!["Failed to fetch holders: "@ + spec_provider_error_text(e)],
        _ => Seq::<Seq<char>>::empty(),
    }) + (match o.creation {
        Err(e) => seq!["Failed to fetch creation time: "@ + spec_provider_error_text(e)],
        Ok(_) => Seq::<Seq<char>>::empty(),
    })
}

/// Assemble the fact bundle and the error list from the per-category
/// outcomes. No category's failure affects another: each failed fetch
/// only leaves its own sub-record absent and adds one tagged error.
pub fn gather_facts(outcomes: FetchOutcomes) -> (r: (TokenFacts, Vec<String>))
    ensures
        r.0@ == spec_facts_of(outcomes@),
        r.1@.map_values(|s: String| s@) == spec_fetch_errors(outcomes@),
{
    let ghost o = outcomes@;
    let mut errors: Vec<String> = Vec::new();

    let metadata = match outcomes.metadata {
        Ok(m) => Some(m),
        Err(e) => {
            errors.push(String::from_str("Failed to fetch metadata: ").concat(
                e.describe().as_str(),
            ));
            None
        },
    };
    let supply = match outcomes.supply {
        Ok(s) => Some(s),
        Err(e) => {
            errors.push(String::from_str("Failed to fetch supply: ").concat(
                e.describe().as_str(),
            ));
            None
        },
    };
    let authorities = match outcomes.authorities {
        Ok(a) => Some(a),
        Err(e) => {
            errors.push(String::from_str("Failed to fetch authorities: ").concat(
                e.describe().as_str(),
            ));
            None
        },
    };
    let holders = match outcomes.holders {
        Some(Ok(h)) => Some(h),
        Some(Err(e)) => {
            errors.push(String::from_str("Failed to fetch holders: ").concat(
                e.describe().as_str(),
            ));
            None
        },
        None => None,
    };
    let creation = match outcomes.creation {
        Ok(c) => Some(c),
        Err(e) => {
            errors.push(String::from_str("Failed to fetch creation time: ").concat(
                e.describe().as_str(),
            ));
            None
        },
    };

    let facts = TokenFacts { metadata, supply, authorities, holders, creation };
    proof {
        assert(facts@ == spec_facts_of(o));
        assert(errors@.map_values(|s: String| s@) =~= spec_fetch_errors(o));
    }
    (facts, errors)
}

// ---------------------------------------------------------------------
// Response assembly
// ---------------------------------------------------------------------

/// Data sufficiency: Ok without errors; Partial when errors occurred
/// but metadata or authorities were still obtained; Error otherwise.
pub open spec fn spec_analysis_status(error_count: int, facts: TokenFactsV) -> AnalysisStatus {
    if error_count == 0 {
        AnalysisStatus::Complete
    } else if facts.metadata is Some || facts.authorities is Some {
        AnalysisStatus::Partial
    } else {
        AnalysisStatus::Error
    }
}

/// The token metadata echoed in a response, drawn from the fact bundle.
pub open spec fn spec_token_metadata(facts: TokenFactsV) -> Option<TokenMetadataV> {
    match facts.metadata {
        None => None,
        Some(m) => Some(
            (TokenMetadataV {
                name: m.name,
                symbol: m.symbol,
                decimals: m.decimals,
                total_supply: match facts.supply {
                    Some(s) => s.total_supply,
                    None => None,
                },
                program_standard: spec_standard_name(m.standard),
                created_at: match facts.creation {
                    Some(c) => c.created_at,
                    None => None,
                },
                age_seconds: match facts.creation {
                    Some(c) => c.age_seconds,
                    None => None,
                },
                age_band: match facts.creation {
                    Some(c) => spec_band_name(c.age_band),
                    None => "Unknown"@,
                },
            }),
        ),
    }
}

/// Build the token metadata section from the fact bundle.
pub fn build_token_metadata(facts: &TokenFacts) -> (t: Option<TokenMetadata>)
    ensures
        (match t {
            Some(tm) => Some(tm@),
            None => None,
        }) == spec_token_metadata(facts@),
{
    let metadata = match &facts.metadata {
        Some(m) => m,
        None => {
            return None;
        },
    };
    let total_supply = match &facts.supply {
        Some(s) => s.total_supply,
        None => None,
    };
    let (created_at, age_seconds): (Option<String>, Option<u64>) = match &facts.creation {
        Some(c) => (c.created_at.clone(), c.age_seconds),
        None => (None, None),
    };
    let age_band = match &facts.creation {
        Some(c) => band_name(c.age_band),
        None => String::from_str("Unknown"),
    };
    Some(TokenMetadata {
        name: metadata.name.clone(),
        symbol: metadata.symbol.clone(),
        decimals: metadata.decimals,
        total_supply,
        program_standard: standard_name(metadata.standard),
        created_at,
        age_seconds,
        age_band,
    })
}

/// Contract of [`analyze_gathered`]: how the whole response relates to
/// the request, the fetch outcomes and the clock readings.
pub open spec fn spec_analysis_response(
    request: AnalyzeRequestV,
    o: FetchOutcomesV,
    now_millis: int,
    now_secs: int,
    r: AnalyzeResponseV,
) -> bool {
    let facts = spec_facts_of(o);
    &&& r.schema_version == "1.0.0"@
    &&& r.analysis_id == spec_analysis_id(now_millis)
    &&& r.requested_at == spec_timestamp(now_secs)
    &&& r.chain == request.chain
    &&& r.address == request.address
    &&& r.errors == spec_fetch_errors(o)
    &&& r.status == spec_analysis_status(spec_fetch_errors(o).len() as int, facts)
    &&& r.token == spec_token_metadata(facts)
    &&& spec_run_checks(facts, request.chain, r.checks)
    &&& spec_score_result(r.checks, r.score)
    &&& spec_explanation(r.checks, r.score.grade, r.explain)
}

/// Run the full fact-to-verdict pipeline over already-fetched
/// outcomes: assemble the facts, derive the status, run the chain's
/// checks, aggregate the score, and generate the explanation.
pub fn analyze_gathered(
    request: &AnalyzeRequest,
    outcomes: FetchOutcomes,
    now_millis: u64,
    now_secs: u64,
) -> (r: AnalyzeResponse)
    ensures
        spec_analysis_response(request@, outcomes@, now_millis as int, now_secs as int, r@),
{
    let ghost o = outcomes@;
    let analysis_id = format_analysis_id(now_millis);
    let requested_at = format_timestamp(now_secs);

    let (facts, errors) = gather_facts(outcomes);

    let status = if errors.len() == 0 {
        AnalysisStatus::Complete
    } else if facts.metadata.is_some() || facts.authorities.is_some() {
        AnalysisStatus::Partial
    } else {
        AnalysisStatus::Error
    };
    proof {
        assert(errors@.len() == spec_fetch_errors(o).len());
    }

    let checks = run_checks(&facts, &request.chain);
    let score = aggregate_score(&checks);
    let token = build_token_metadata(&facts);
    let explain = generate_explanation(&checks, &score);

    AnalyzeResponse {
        schema_version: String::from_str("1.0.0"),
        analysis_id,
        requested_at,
        chain: request.chain.clone(),
        address: request.address.clone(),
        status,
        token,
        checks,
        score,
        explain,
        errors,
    }
}

} // verus!
