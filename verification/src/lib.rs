//! A static risk scanner for smart-contract source text.
//!
//! A verified-source payload is first brought to one analyzable text
//! ([`extract_true_source_code`]). The text is then held against a fixed
//! catalogue of lexical checks ([`analysis`]), which yields findings, a trust
//! score between 0 and 100 and a coarse label of the contract's kind. What is
//! found is assembled into the answer to a scan request ([`begin_scan`],
//! [`finish_scan`]).

pub mod analysis;
pub mod catalogue;
pub mod json;
pub mod laws;
pub mod narrative;
pub mod pattern;
pub mod structs;
pub mod text;

use crate::analysis::{AnalysisResult, FoundRisk, RiskLevel, RuleCatalogue};
use crate::structs::{
    bundle_files, joined_contents, ContractSources, EtherscanApiResponse, EtherscanApiResult,
    ScanResult,
};
use crate::text::{chars_of, decimal, decimal_string, ends_with, same_text, starts_with};
use vstd::prelude::*;
use vstd::string::StrSliceExecFns;

verus! {

/// The score of a contract whose source is not verified.
pub const UNVERIFIED_CONTRACT_NEUTRAL_SCORE: u8 = 50;

/// The one finding reported for a contract whose source is not verified.
pub const UNVERIFIED_FINDING: &'static str =
    "The contract source code is not verified on Etherscan.";

/// The summary of an answer that reports the provider's failure.
pub const PROVIDER_FAILURE: &'static str = "Etherscan API returned an error.";

/// The summary of an answer that turns an address down.
pub const INVALID_ADDRESS: &'static str = "Error: Invalid Ethereum address format.";

/// `address` begins with `0x` and is 42 bytes long.
pub open spec fn is_plausible_address(address: Seq<char>) -> bool {
    "0x"@.is_prefix_of(address) && vstd::utf8::encode_utf8(address).len() == 42
}

/// Whether `address` can be an Ethereum address.
pub fn is_valid_ethereum_address(address: &str) -> (valid: bool)
    ensures
        valid == is_plausible_address(address@),
{
    let text = chars_of(address);
    let prefix = chars_of("0x");
    starts_with(&text, &prefix) && address.as_bytes().len() == 42
}

/// Turns an implausible address down before anything is fetched: the answer
/// to give, or `None` where the address is plausible.
pub fn screen_address(address: &str) -> (rejection: Option<ScanResult>)
    ensures
        rejection is None <==> is_plausible_address(address@),
        rejection matches Some(result) ==> {
            &&& result.score == 0
            &&& result.summary@ == INVALID_ADDRESS@
            &&& result.risks@.len() == 0
        },
{
    if is_valid_ethereum_address(address) {
        None
    } else {
        Some(ScanResult::new_error(INVALID_ADDRESS, Vec::new()))
    }
}

/// `text` is wrapped in two pairs of braces.
pub open spec fn is_double_encoded(text: Seq<char>) -> bool {
    "{{"@.is_prefix_of(text) && "}}"@.is_suffix_of(text)
}

/// `text` without its first and its last character.
pub open spec fn unwrapped(text: Seq<char>) -> Seq<char> {
    text.subrange(1, text.len() - 1)
}

/// The analyzable text of a verified-source payload. A payload in double
/// braces that holds a bundle once one brace is taken off each end stands
/// for that bundle's contents; else a payload that is itself a bundle stands
/// for its contents; any other payload stands for itself.
pub open spec fn true_source(payload: Seq<char>) -> Seq<char> {
    if is_double_encoded(payload) && bundle_files(unwrapped(payload)) is Some {
        joined_contents(bundle_files(unwrapped(payload)).unwrap())
    } else if bundle_files(payload) is Some {
        joined_contents(bundle_files(payload).unwrap())
    } else {
        payload
    }
}

/// Brings a verified-source payload to one analyzable text.
pub fn extract_true_source_code(etherscan_source: &str) -> (text: String)
    ensures
        text@ == true_source(etherscan_source@),
{
    if is_double_encoded_json(etherscan_source) {
        proof {
            reveal_strlit("{{");
        }
        let count = etherscan_source.unicode_len();
        let inner_json_str = etherscan_source.substring_char(1, count - 1);
        match ContractSources::from_string(inner_json_str) {
            Ok(sources) => {
                return sources.to_string();
            },
            Err(_) => {},
        }
    }
    match ContractSources::from_string(etherscan_source) {
        Ok(sources) => sources.to_string(),
        Err(_) => not_json_to_string(etherscan_source),
    }
}

/// A payload that is no bundle, as it stands.
pub fn not_json_to_string(etherscan_source: &str) -> (text: String)
    ensures
        text@ == etherscan_source@,
{
    String::from_str(etherscan_source)
}

/// Whether a payload is wrapped in two pairs of braces.
pub fn is_double_encoded_json(etherscan_source: &str) -> (wrapped: bool)
    ensures
        wrapped == is_double_encoded(etherscan_source@),
{
    let text = chars_of(etherscan_source);
    let opening = chars_of("{{");
    let closing = chars_of("}}");
    starts_with(&text, &opening) && ends_with(&text, &closing)
}

/// The provider reports success and at least one contract.
pub open spec fn reports_contract(data: &EtherscanApiResponse) -> bool {
    data.status@ == "1"@ && data.result@.len() > 0
}

/// Whether the provider found the contract.
pub fn is_scan_sucessful(etherscan_data: &EtherscanApiResponse) -> (found: bool)
    ensures
        found == reports_contract(etherscan_data),
{
    same_text(etherscan_data.status.as_str(), "1") && etherscan_data.result.len() > 0
}

/// How many of `risks` are of level `level`.
pub open spec fn count_level(risks: Seq<FoundRisk>, level: RiskLevel) -> nat {
    risks.filter(|risk: FoundRisk| risk.risk_level == level).len()
}

/// The sentence that sums an analysis up: the contract's name, the number of
/// findings of each level, and the score.
pub open spec fn summary_text(name: Seq<char>, risks: Seq<FoundRisk>, score: u8) -> Seq<char> {
    "Analysis of '"@ + name + "' complete. Found "@ + decimal(
        count_level(risks, RiskLevel::Critical),
    ) + " critical, "@ + decimal(count_level(risks, RiskLevel::High)) + " high, "@ + decimal(
        count_level(risks, RiskLevel::Medium),
    ) + " medium, "@ + decimal(count_level(risks, RiskLevel::Low)) + " low, and "@ + decimal(
        count_level(risks, RiskLevel::Info),
    ) + " informational risks. Final Score: "@ + decimal(score as nat)
}

/// The notice that stands for a summary where the source is not verified.
pub open spec fn unverified_notice(name: Seq<char>) -> Seq<char> {
    "Contract '"@ + name
        + "' source code is NOT verified on Etherscan. Without verified source code, it's impossible to audit the contract for security vulnerabilities. This is a major red flag for transparency and security."@
}

fn count_of(risks: &Vec<FoundRisk>, level: RiskLevel) -> (count: usize)
    ensures
        count == count_level(risks@, level),
{
    let mut count: usize = 0;
    let mut i: usize = 0;
    proof {
        reveal(Seq::filter);
        assert(risks@.take(0) =~= Seq::<FoundRisk>::empty());
    }
    while i < risks.len()
        invariant
            i <= risks.len(),
            count <= i,
            count == count_level(risks@.take(i as int), level),
        decreases risks.len() - i,
    {
        proof {
            reveal(Seq::filter);
            assert(risks@.take(i + 1).drop_last() =~= risks@.take(i as int));
            assert(risks@.take(i + 1).last() == risks@[i as int]);
        }
        if risks[i].risk_level == level {
            count += 1;
        }
        i += 1;
    }
    assert(risks@.take(i as int) =~= risks@);
    count
}

/// Sums an analysis up in one sentence, from the analysis alone.
pub fn create_summary_for_verified(
    contract_info: &EtherscanApiResult,
    analysis_result: &AnalysisResult,
) -> (summary: String)
    ensures
        summary@ == summary_text(
            contract_info.contract_name@,
            analysis_result.risks@,
            analysis_result.score,
        ),
{
    let critical_risks = count_of(&analysis_result.risks, RiskLevel::Critical);
    let high_risks = count_of(&analysis_result.risks, RiskLevel::High);
    let medium_risks = count_of(&analysis_result.risks, RiskLevel::Medium);
    let low_risks = count_of(&analysis_result.risks, RiskLevel::Low);
    let info_risks = count_of(&analysis_result.risks, RiskLevel::Info);

    let mut summary = String::from_str("Analysis of '");
    summary.append(contract_info.contract_name.as_str());
    summary.append("' complete. Found ");
    summary.append(decimal_string(critical_risks as u64).as_str());
    summary.append(" critical, ");
    summary.append(decimal_string(high_risks as u64).as_str());
    summary.append(" high, ");
    summary.append(decimal_string(medium_risks as u64).as_str());
    summary.append(" medium, ");
    summary.append(decimal_string(low_risks as u64).as_str());
    summary.append(" low, and ");
    summary.append(decimal_string(info_risks as u64).as_str());
    summary.append(" informational risks. Final Score: ");
    summary.append(decimal_string(analysis_result.score as u64).as_str());
    summary
}

/// Where a scan stands once the provider has answered.
#[derive(Debug)]
pub enum ScanProgress {
    /// The provider reported no contract: this answer is final.
    Finished(ScanResult),
    /// The contract was analyzed: the answer waits for a narrative, or for
    /// the news that none is to be had.
    Analyzed(AnalysisResult),
}

/// The text that is scanned for a contract: nothing where the source is not
/// verified, else the analyzable text of the payload.
pub open spec fn scanned_text(contract_info: &EtherscanApiResult) -> Seq<char> {
    if contract_info.source_code@.len() == 0 {
        Seq::empty()
    } else {
        true_source(contract_info.source_code@)
    }
}

/// The first step of a scan. Where the provider reports no contract, the
/// answer says so. Otherwise the first contract is analyzed: as unverified
/// where it has no source text, else on the analyzable text of its payload.
pub fn begin_scan(rules: &RuleCatalogue, etherscan_data: &EtherscanApiResponse) -> (progress:
    ScanProgress)
    ensures
        match progress {
            ScanProgress::Finished(result) => {
                &&& !reports_contract(etherscan_data)
                &&& result.score == 0
                &&& result.summary@ == PROVIDER_FAILURE@
                &&& result.risk_texts() == seq![etherscan_data.message@]
            },
            ScanProgress::Analyzed(analysis) => {
                &&& reports_contract(etherscan_data)
                &&& analysis.describes(
                    scanned_text(&etherscan_data.result@[0]),
                    etherscan_data.result@[0].source_code@.len() > 0,
                )
                &&& analysis.score <= 100
            },
        },
{
    if is_scan_sucessful(etherscan_data) {
        let contract_info = &etherscan_data.result[0];
        if contract_info.source_code.as_str().is_empty() {
            proof {
                reveal_strlit("");
                assert(""@ =~= Seq::<char>::empty());
            }
            ScanProgress::Analyzed(rules.analyze("", false))
        } else {
            let true_source_code = extract_true_source_code(contract_info.source_code.as_str());
            ScanProgress::Analyzed(rules.analyze(true_source_code.as_str(), true))
        }
    } else {
        let details = vec![etherscan_data.message.clone()];
        let result = ScanResult::new_error(PROVIDER_FAILURE, details);
        assert(result.risk_texts() =~= seq![etherscan_data.message@]);
        ScanProgress::Finished(result)
    }
}

/// The findings of an analysis, each as one line.
pub open spec fn risk_lines(risks: Seq<FoundRisk>) -> Seq<Seq<char>> {
    risks.map_values(|risk: FoundRisk| risk.line())
}

/// The summary of the answer: the narrative where one was to be had, else
/// the notice for an unverified contract or the sentence that sums the
/// analysis up.
pub open spec fn summary_of(
    contract_info: &EtherscanApiResult,
    analysis_result: &AnalysisResult,
    narrative: Result<String, String>,
) -> Seq<char> {
    match narrative {
        Ok(text) => text@,
        Err(_) => if contract_info.source_code@.len() == 0 {
            unverified_notice(contract_info.contract_name@)
        } else {
            summary_text(
                contract_info.contract_name@,
                analysis_result.risks@,
                analysis_result.score,
            )
        },
    }
}

/// The last step of a scan: the answer for an analyzed contract, given what
/// the narrative generator returned. An unverified contract gets the neutral
/// score and the one finding that says so; a verified one gets the score and
/// the findings of its analysis.
pub fn finish_scan(
    contract_info: &EtherscanApiResult,
    analysis_result: &AnalysisResult,
    narrative: Result<String, String>,
) -> (result: ScanResult)
    ensures
        result.summary@ == summary_of(contract_info, analysis_result, narrative),
        contract_info.source_code@.len() == 0 ==> {
            &&& result.score == UNVERIFIED_CONTRACT_NEUTRAL_SCORE
            &&& result.risk_texts() == seq![UNVERIFIED_FINDING@]
        },
        contract_info.source_code@.len() > 0 ==> {
            &&& result.score == analysis_result.score
            &&& result.risk_texts() == risk_lines(analysis_result.risks@)
        },
{
    if contract_info.source_code.as_str().is_empty() {
        let summary = match narrative {
            Ok(text) => text,
            Err(_) => unverified_summary(contract_info.contract_name.as_str()),
        };
        let risks = vec![String::from_str(UNVERIFIED_FINDING)];
        let result = ScanResult { score: UNVERIFIED_CONTRACT_NEUTRAL_SCORE, summary, risks };
        assert(result.risk_texts() =~= seq![UNVERIFIED_FINDING@]);
        result
    } else {
        let summary = match narrative {
            Ok(text) => text,
            Err(_) => create_summary_for_verified(contract_info, analysis_result),
        };
        let mut risks: Vec<String> = Vec::new();
        let mut i: usize = 0;
        while i < analysis_result.risks.len()
            invariant
                i <= analysis_result.risks.len(),
                risks@.len() == i,
                forall|j: int| 0 <= j < i ==> (#[trigger] risks@[j])@ == analysis_result.risks@[j].line(),
            decreases analysis_result.risks.len() - i,
        {
            risks.push(analysis_result.risks[i].to_string());
            i += 1;
        }
        let result = ScanResult { score: analysis_result.score, summary, risks };
        assert(result.risk_texts() =~= risk_lines(analysis_result.risks@));
        result
    }
}

fn unverified_summary(contract_name: &str) -> (summary: String)
    ensures
        summary@ == unverified_notice(contract_name@),
{
    let mut summary = String::from_str("Contract '");
    summary.append(contract_name);
    summary.append(
        "' source code is NOT verified on Etherscan. Without verified source code, it's impossible to audit the contract for security vulnerabilities. This is a major red flag for transparency and security.",
    );
    summary
}

} // verus!
