//! Core data model: token facts gathered from a provider, evidence
//! documents, check results, and the grading scale.
//!
//! Percentages are carried as integer basis points (hundredths of a
//! percent), so 8.5% is 850 basis points. Normalized supply is carried in
//! whole tokens. Every executable type has a ghost view (`@`) built from
//! `Seq<char>` and plain values; all contracts in this crate speak over
//! those views.

use vstd::prelude::*;

verus! {

/// Declared token interface standard.
#[derive(Clone, Copy, PartialEq, Eq, Structural, Debug)]
pub enum TokenStandard {
    SplToken,
    SplToken2022,
    Erc20,
    Unknown,
}

/// Coarse classification of a token's age.
#[derive(Clone, Copy, PartialEq, Eq, Structural, Debug)]
pub enum AgeBand {
    LessThan24h,
    Day1To7,
    GreaterThan7d,
    Unknown,
}

/// Outcome of a single check.
#[derive(Clone, Copy, PartialEq, Eq, Structural, Debug)]
pub enum CheckStatus {
    Pass,
    Fail,
    Unknown,
}

/// How serious a failing check is.
#[derive(Clone, Copy, PartialEq, Eq, Structural, Debug)]
pub enum Severity {
    Critical,
    High,
    Medium,
    Low,
}

/// Categorical verdict over the whole analysis.
#[derive(Clone, Copy, PartialEq, Eq, Structural, Debug)]
pub enum Grade {
    Strong,
    Mixed,
    Fragile,
    Compromised,
}

/// Grade thresholds on the numeric fairness score.
pub open spec fn spec_grade_from_score(score: int) -> Grade {
    if score >= 80 {
        Grade::Strong
    } else if score >= 60 {
        Grade::Mixed
    } else if score >= 40 {
        Grade::Fragile
    } else {
        Grade::Compromised
    }
}

/// The name of a declared standard, as it appears in responses.
pub open spec fn spec_standard_name(st: TokenStandard) -> Seq<char> {
    match st {
        TokenStandard::SplToken => "SplToken"@,
        TokenStandard::SplToken2022 => "SplToken2022"@,
        TokenStandard::Erc20 => "Erc20"@,
        TokenStandard::Unknown => "Unknown"@,
    }
}

/// Render the name of a declared standard.
pub fn standard_name(st: TokenStandard) -> (s: String)
    ensures
        s@ == spec_standard_name(st),
{
    match st {
        TokenStandard::SplToken => String::from_str("SplToken"),
        TokenStandard::SplToken2022 => String::from_str("SplToken2022"),
        TokenStandard::Erc20 => String::from_str("Erc20"),
        TokenStandard::Unknown => String::from_str("Unknown"),
    }
}

/// The name of an age band, as it appears in responses.
pub open spec fn spec_band_name(b: AgeBand) -> Seq<char> {
    match b {
        AgeBand::LessThan24h => "LessThan24h"@,
        AgeBand::Day1To7 => "Day1To7"@,
        AgeBand::GreaterThan7d => "GreaterThan7d"@,
        AgeBand::Unknown => "Unknown"@,
    }
}

/// Render the name of an age band.
pub fn band_name(b: AgeBand) -> (s: String)
    ensures
        s@ == spec_band_name(b),
{
    match b {
        AgeBand::LessThan24h => String::from_str("LessThan24h"),
        AgeBand::Day1To7 => String::from_str("Day1To7"),
        AgeBand::GreaterThan7d => String::from_str("GreaterThan7d"),
        AgeBand::Unknown => String::from_str("Unknown"),
    }
}

// ---------------------------------------------------------------------
// Token facts
// ---------------------------------------------------------------------

/// Name, symbol, decimals and declared standard of a token.
pub struct Metadata {
    pub name: Option<String>,
    pub symbol: Option<String>,
    pub decimals: Option<u8>,
    pub standard: TokenStandard,
}

/// Ghost view of [`Metadata`].
pub struct MetadataV {
    pub name: Option<Seq<char>>,
    pub symbol: Option<Seq<char>>,
    pub decimals: Option<u8>,
    pub standard: TokenStandard,
}

impl View for Metadata {
    type V = MetadataV;

    open spec fn view(&self) -> MetadataV {
        (MetadataV {
            name: match self.name {
                Some(s) => Some(s@),
                None => None,
            },
            symbol: match self.symbol {
                Some(s) => Some(s@),
                None => None,
            },
            decimals: self.decimals,
            standard: self.standard,
        })
    }
}

/// Raw and normalized total supply. The normalized figure is in whole
/// tokens.
pub struct SupplyInfo {
    pub total_supply_raw: Option<String>,
    pub total_supply: Option<u64>,
}

/// Ghost view of [`SupplyInfo`].
pub struct SupplyInfoV {
    pub total_supply_raw: Option<Seq<char>>,
    pub total_supply: Option<u64>,
}

impl View for SupplyInfo {
    type V = SupplyInfoV;

    open spec fn view(&self) -> SupplyInfoV {
        (SupplyInfoV {
            total_supply_raw: match self.total_supply_raw {
                Some(s) => Some(s@),
                None => None,
            },
            total_supply: self.total_supply,
        })
    }
}

/// Supply-control authorities and ownership of a token.
pub struct AuthorityInfo {
    pub mint_authority: Option<String>,
    pub freeze_authority: Option<String>,
    pub owner: Option<String>,
    pub mint_mutable: Option<bool>,
}

/// Ghost view of [`AuthorityInfo`].
pub struct AuthorityInfoV {
    pub mint_authority: Option<Seq<char>>,
    pub freeze_authority: Option<Seq<char>>,
    pub owner: Option<Seq<char>>,
    pub mint_mutable: Option<bool>,
}

impl View for AuthorityInfo {
    type V = AuthorityInfoV;

    open spec fn view(&self) -> AuthorityInfoV {
        (AuthorityInfoV {
            mint_authority: match self.mint_authority {
                Some(s) => Some(s@),
                None => None,
            },
            freeze_authority: match self.freeze_authority {
                Some(s) => Some(s@),
                None => None,
            },
            owner: match self.owner {
                Some(s) => Some(s@),
                None => None,
            },
            mint_mutable: self.mint_mutable,
        })
    }
}

/// One large holder and its share of the supply, in basis points.
pub struct HolderBalance {
    pub address: String,
    pub balance_raw: String,
    pub balance: Option<u64>,
    pub pct_of_supply_bp: Option<u32>,
}

/// Ghost view of [`HolderBalance`].
pub struct HolderBalanceV {
    pub address: Seq<char>,
    pub balance_raw: Seq<char>,
    pub balance: Option<u64>,
    pub pct_of_supply_bp: Option<u32>,
}

impl View for HolderBalance {
    type V = HolderBalanceV;

    open spec fn view(&self) -> HolderBalanceV {
        (HolderBalanceV {
            address: self.address@,
            balance_raw: self.balance_raw@,
            balance: self.balance,
            pct_of_supply_bp: self.pct_of_supply_bp,
        })
    }
}

/// Holder-distribution facts: top-1% and top-5% concentration in basis
/// points, and an optional per-holder breakdown.
pub struct HolderInfo {
    pub top1_bp: Option<u32>,
    pub top5_bp: Option<u32>,
    pub top_holders: Vec<HolderBalance>,
}

/// Ghost view of [`HolderInfo`].
pub struct HolderInfoV {
    pub top1_bp: Option<u32>,
    pub top5_bp: Option<u32>,
    pub top_holders: Seq<HolderBalanceV>,
}

impl View for HolderInfo {
    type V = HolderInfoV;

    open spec fn view(&self) -> HolderInfoV {
        (HolderInfoV {
            top1_bp: self.top1_bp,
            top5_bp: self.top5_bp,
            top_holders: self.top_holders@.map_values(|h: HolderBalance| h@),
        })
    }
}

/// When the token was created and the derived age band.
pub struct CreationInfo {
    pub created_at: Option<String>,
    pub age_seconds: Option<u64>,
    pub age_band: AgeBand,
}

/// Ghost view of [`CreationInfo`].
pub struct CreationInfoV {
    pub created_at: Option<Seq<char>>,
    pub age_seconds: Option<u64>,
    pub age_band: AgeBand,
}

impl View for CreationInfo {
    type V = CreationInfoV;

    open spec fn view(&self) -> CreationInfoV {
        (CreationInfoV {
            created_at: match self.created_at {
                Some(s) => Some(s@),
                None => None,
            },
            age_seconds: self.age_seconds,
            age_band: self.age_band,
        })
    }
}

/// The fact bundle one analysis works from. Each sub-record is
/// independently present or absent; absence means "unknown", never
/// "zero".
pub struct TokenFacts {
    pub metadata: Option<Metadata>,
    pub supply: Option<SupplyInfo>,
    pub authorities: Option<AuthorityInfo>,
    pub holders: Option<HolderInfo>,
    pub creation: Option<CreationInfo>,
}

/// Ghost view of [`TokenFacts`].
pub struct TokenFactsV {
    pub metadata: Option<MetadataV>,
    pub supply: Option<SupplyInfoV>,
    pub authorities: Option<AuthorityInfoV>,
    pub holders: Option<HolderInfoV>,
    pub creation: Option<CreationInfoV>,
}

impl View for TokenFacts {
    type V = TokenFactsV;

    open spec fn view(&self) -> TokenFactsV {
        (TokenFactsV {
            metadata: match self.metadata {
                Some(m) => Some(m@),
                None => None,
            },
            supply: match self.supply {
                Some(s) => Some(s@),
                None => None,
            },
            authorities: match self.authorities {
                Some(a) => Some(a@),
                None => None,
            },
            holders: match self.holders {
                Some(h) => Some(h@),
                None => None,
            },
            creation: match self.creation {
                Some(c) => Some(c@),
                None => None,
            },
        })
    }
}

// ---------------------------------------------------------------------
// Evidence documents
// ---------------------------------------------------------------------

/// One value of a diagnostic document. Evidence is purely informational:
/// aggregation and grading never read it.
pub enum DocValue {
    Null,
    Bool(bool),
    UInt(u64),
    Text(String),
}

/// Ghost view of [`DocValue`].
pub enum DocValueV {
    Null,
    Bool(bool),
    UInt(u64),
    Text(Seq<char>),
}

impl View for DocValue {
    type V = DocValueV;

    open spec fn view(&self) -> DocValueV {
        match self {
            DocValue::Null => DocValueV::Null,
            DocValue::Bool(b) => DocValueV::Bool(*b),
            DocValue::UInt(n) => DocValueV::UInt(*n),
            DocValue::Text(s) => DocValueV::Text(s@),
        }
    }
}

/// One keyed entry of a diagnostic document.
pub struct DocField {
    pub key: String,
    pub value: DocValue,
}

/// Ghost view of [`DocField`].
pub struct DocFieldV {
    pub key: Seq<char>,
    pub value: DocValueV,
}

impl View for DocField {
    type V = DocFieldV;

    open spec fn view(&self) -> DocFieldV {
        (DocFieldV { key: self.key@, value: self.value@ })
    }
}

// ---------------------------------------------------------------------
// Check results
// ---------------------------------------------------------------------

/// Outcome of one check over the fact bundle.
pub struct CheckResult {
    pub id: String,
    pub label: String,
    pub category: String,
    pub status: CheckStatus,
    pub severity: Severity,
    pub value: DocValue,
    pub evidence: Vec<DocField>,
    pub weight: u8,
    pub score_component: Option<u8>,
}

/// Ghost view of [`CheckResult`].
pub struct CheckResultV {
    pub id: Seq<char>,
    pub label: Seq<char>,
    pub category: Seq<char>,
    pub status: CheckStatus,
    pub severity: Severity,
    pub value: DocValueV,
    pub evidence: Seq<DocFieldV>,
    pub weight: u8,
    pub score_component: Option<u8>,
}

impl View for CheckResult {
    type V = CheckResultV;

    open spec fn view(&self) -> CheckResultV {
        (CheckResultV {
            id: self.id@,
            label: self.label@,
            category: self.category@,
            status: self.status,
            severity: self.severity,
            value: self.value@,
            evidence: self.evidence@.map_values(|f: DocField| f@),
            weight: self.weight,
            score_component: self.score_component,
        })
    }
}

/// Well-formedness of a check result: the sub-score is present exactly
/// when the status is known, it never exceeds 100, and the weight is
/// positive.
pub open spec fn check_wf(c: CheckResultV) -> bool {
    &&& (c.status is Unknown <==> c.score_component is None)
    &&& (c.score_component matches Some(s) ==> s <= 100)
    &&& c.weight >= 1
}

// ---------------------------------------------------------------------
// Clones
//
// Clone is implemented by hand so that each impl can carry a contract;
// a derived Clone would leave the copy unrelated to the original.
// ---------------------------------------------------------------------

impl Clone for Metadata {
    fn clone(&self) -> (r: Self)
        ensures
            r == *self,
    {
        Metadata {
            name: self.name.clone(),
            symbol: self.symbol.clone(),
            decimals: self.decimals,
            standard: self.standard,
        }
    }
}

impl Clone for SupplyInfo {
    fn clone(&self) -> (r: Self)
        ensures
            r == *self,
    {
        SupplyInfo {
            total_supply_raw: self.total_supply_raw.clone(),
            total_supply: self.total_supply,
        }
    }
}

impl Clone for AuthorityInfo {
    fn clone(&self) -> (r: Self)
        ensures
            r == *self,
    {
        AuthorityInfo {
            mint_authority: self.mint_authority.clone(),
            freeze_authority: self.freeze_authority.clone(),
            owner: self.owner.clone(),
            mint_mutable: self.mint_mutable,
        }
    }
}

impl Clone for HolderBalance {
    fn clone(&self) -> (r: Self)
        ensures
            r == *self,
    {
        HolderBalance {
            address: self.address.clone(),
            balance_raw: self.balance_raw.clone(),
            balance: self.balance,
            pct_of_supply_bp: self.pct_of_supply_bp,
        }
    }
}

impl Clone for HolderInfo {
    fn clone(&self) -> (r: Self)
        ensures
            r@ == self@,
    {
        let holders = self.top_holders.clone();
        proof {
            assert(holders@ =~= self.top_holders@);
        }
        HolderInfo {
            top1_bp: self.top1_bp,
            top5_bp: self.top5_bp,
            top_holders: holders,
        }
    }
}

impl Clone for CreationInfo {
    fn clone(&self) -> (r: Self)
        ensures
            r == *self,
    {
        CreationInfo {
            created_at: self.created_at.clone(),
            age_seconds: self.age_seconds,
            age_band: self.age_band,
        }
    }
}

impl Clone for TokenFacts {
    fn clone(&self) -> (r: Self)
        ensures
            r@ == self@,
    {
        let holders = match &self.holders {
            Some(h) => Some(h.clone()),
            None => None,
        };
        TokenFacts {
            metadata: self.metadata.clone(),
            supply: self.supply.clone(),
            authorities: self.authorities.clone(),
            holders,
            creation: self.creation.clone(),
        }
    }
}

impl Clone for DocValue {
    fn clone(&self) -> (r: Self)
        ensures
            r == *self,
    {
        match self {
            DocValue::Null => DocValue::Null,
            DocValue::Bool(b) => DocValue::Bool(*b),
            DocValue::UInt(n) => DocValue::UInt(*n),
            DocValue::Text(s) => DocValue::Text(s.clone()),
        }
    }
}

impl Clone for DocField {
    fn clone(&self) -> (r: Self)
        ensures
            r == *self,
    {
        DocField { key: self.key.clone(), value: self.value.clone() }
    }
}

impl Clone for CheckResult {
    fn clone(&self) -> (r: Self)
        ensures
            r@ == self@,
    {
        let evidence = self.evidence.clone();
        proof {
            assert(evidence@ =~= self.evidence@);
        }
        CheckResult {
            id: self.id.clone(),
            label: self.label.clone(),
            category: self.category.clone(),
            status: self.status,
            severity: self.severity,
            value: self.value.clone(),
            evidence,
            weight: self.weight,
            score_component: self.score_component,
        }
    }
}

} // verus!
