use susbot_backend::analysis::{
    analyze_source_code, AnalysisResult, ContractTraits, FoundRisk, RiskLevel, RuleCatalogue,
};
use susbot_backend::narrative::{first_choice, narrative_prompt};
use susbot_backend::structs::{EtherscanApiResponse, EtherscanApiResult, ScanResult};
use susbot_backend::{
    begin_scan, create_summary_for_verified, finish_scan, is_scan_sucessful, ScanProgress,
};

fn contract(source_code: &str, contract_name: &str) -> EtherscanApiResult {
    EtherscanApiResult {
        source_code: source_code.to_string(),
        contract_name: contract_name.to_string(),
    }
}

fn response(status: &str, message: &str, result: Vec<EtherscanApiResult>) -> EtherscanApiResponse {
    EtherscanApiResponse { status: status.to_string(), message: message.to_string(), result }
}

fn risk(level: RiskLevel) -> FoundRisk {
    FoundRisk { check_name: "Name", description: "About.", risk_level: level }
}

fn analysis(score: u8, risks: Vec<FoundRisk>) -> AnalysisResult {
    AnalysisResult { score, risks, contract_traits: ContractTraits::new(true) }
}

#[test]
fn summary_counts_each_level() {
    let result = analysis(
        7,
        vec![
            risk(RiskLevel::Critical),
            risk(RiskLevel::Low),
            risk(RiskLevel::Critical),
            risk(RiskLevel::Info),
            risk(RiskLevel::High),
            risk(RiskLevel::Critical),
            risk(RiskLevel::Low),
        ],
    );
    assert_eq!(
        create_summary_for_verified(&contract("x", "Vault"), &result),
        "Analysis of 'Vault' complete. Found 3 critical, 1 high, 0 medium, 2 low, and 1 informational risks. Final Score: 7"
    );
}

#[test]
fn summary_is_what_the_sentence_template_gives() {
    let result = analyze_source_code("function mint(uint256 x) public {} x.call(data);");
    let info = contract("x", "Token");
    let expected = format!(
        "Analysis of '{}' complete. Found {} critical, {} high, {} medium, {} low, and {} informational risks. Final Score: {}",
        "Token", 2, 0, 1, 1, 1, 30
    );
    assert_eq!(create_summary_for_verified(&info, &result), expected);
}

#[test]
fn summary_of_a_clean_contract() {
    assert_eq!(
        create_summary_for_verified(&contract("x", ""), &analysis(100, vec![])),
        "Analysis of '' complete. Found 0 critical, 0 high, 0 medium, 0 low, and 0 informational risks. Final Score: 100"
    );
}

#[test]
fn summary_prints_numbers_of_several_digits() {
    let mut risks = Vec::new();
    for _ in 0..120 {
        risks.push(risk(RiskLevel::Medium));
    }
    for _ in 0..10 {
        risks.push(risk(RiskLevel::High));
    }
    assert_eq!(
        create_summary_for_verified(&contract("x", "Big"), &analysis(255, risks)),
        "Analysis of 'Big' complete. Found 0 critical, 10 high, 120 medium, 0 low, and 0 informational risks. Final Score: 255"
    );
}

#[test]
fn provider_success_is_told() {
    assert!(is_scan_sucessful(&response("1", "OK", vec![contract("", "A")])));
    assert!(!is_scan_sucessful(&response("1", "OK", vec![])));
    assert!(!is_scan_sucessful(&response("0", "NOTOK", vec![contract("x", "A")])));
    assert!(!is_scan_sucessful(&response("", "", vec![contract("x", "A")])));
    assert!(!is_scan_sucessful(&response("10", "OK", vec![contract("x", "A")])));
    assert!(!is_scan_sucessful(&response("1 ", "OK", vec![contract("x", "A")])));
}

#[test]
fn error_answer_scores_zero() {
    let result = ScanResult::new_error("It failed.", vec!["why".to_string(), "how".to_string()]);
    assert_eq!(result.score, 0);
    assert_eq!(result.summary, "It failed.");
    assert_eq!(result.risks, vec!["why".to_string(), "how".to_string()]);
    assert!(ScanResult::new_error("", vec![]).risks.is_empty());
}

#[test]
fn provider_failure_ends_the_scan() {
    let rules = RuleCatalogue::compile().expect("a catalogue that compiles");
    let data = response("0", "Invalid API Key", vec![]);
    match begin_scan(&rules, &data) {
        ScanProgress::Finished(result) => {
            assert_eq!(result.score, 0);
            assert_eq!(result.summary, "Etherscan API returned an error.");
            assert_eq!(result.risks, vec!["Invalid API Key".to_string()]);
        }
        ScanProgress::Analyzed(_) => panic!("no contract was reported"),
    }
}

#[test]
fn unverified_contract_is_not_scanned_for_text() {
    let rules = RuleCatalogue::compile().expect("a catalogue that compiles");
    let data = response("1", "OK", vec![contract("", "Hidden")]);
    match begin_scan(&rules, &data) {
        ScanProgress::Analyzed(analysis) => {
            assert!(!analysis.contract_traits.verified);
            assert!(analysis.risks.is_empty());
            assert_eq!(analysis.score, 100);
            assert_eq!(analysis.contract_traits.contract_type, "Unknown");
        }
        ScanProgress::Finished(_) => panic!("a contract was reported"),
    }
}

#[test]
fn verified_contract_is_normalized_and_scanned() {
    let rules = RuleCatalogue::compile().expect("a catalogue that compiles");
    let payload = r#"{{"sources":{"A.sol":{"content":"contract A is Ownable {}"},"B.sol":{"content":"selfdestruct(x);"}}}}"#;
    let data = response("1", "OK", vec![contract(payload, "A"), contract("ignored", "B")]);
    match begin_scan(&rules, &data) {
        ScanProgress::Analyzed(analysis) => {
            assert!(analysis.contract_traits.verified);
            assert_eq!(analysis.score, 75);
            assert_eq!(analysis.risks.len(), 1);
            assert_eq!(analysis.risks[0].check_name, "Self-Destruct");
            assert_eq!(analysis.contract_traits.contract_type, "Ownable Contract");
        }
        ScanProgress::Finished(_) => panic!("a contract was reported"),
    }
}

#[test]
fn unverified_contract_gets_the_neutral_score() {
    let info = contract("", "Hidden");
    let result = finish_scan(&info, &analysis(100, vec![]), Err("no generator".to_string()));
    assert_eq!(result.score, 50);
    assert_eq!(
        result.summary,
        "Contract 'Hidden' source code is NOT verified on Etherscan. Without verified source code, it's impossible to audit the contract for security vulnerabilities. This is a major red flag for transparency and security."
    );
    assert_eq!(
        result.risks,
        vec!["The contract source code is not verified on Etherscan.".to_string()]
    );
}

#[test]
fn unverified_contract_keeps_the_neutral_score_with_a_narrative() {
    let info = contract("", "Hidden");
    let result = finish_scan(&info, &analysis(100, vec![]), Ok("A narrative.".to_string()));
    assert_eq!(result.score, 50);
    assert_eq!(result.summary, "A narrative.");
    assert_eq!(
        result.risks,
        vec!["The contract source code is not verified on Etherscan.".to_string()]
    );
}

#[test]
fn verified_contract_falls_back_to_the_sentence() {
    let source = "function mint(uint256 x) public {}";
    let info = contract(source, "Token");
    let scanned = analyze_source_code(source);
    let result = finish_scan(&info, &scanned, Err("timeout".to_string()));
    assert_eq!(result.score, 75);
    assert_eq!(
        result.summary,
        "Analysis of 'Token' complete. Found 1 critical, 0 high, 0 medium, 0 low, and 1 informational risks. Final Score: 75"
    );
    assert_eq!(
        result.risks,
        vec![
            "[Info] Mint Function: The contract contains a 'mint' function, indicating it can create new tokens.".to_string(),
            "[Critical] Infinite Minting: The contract allows unlimited token minting without proper restrictions, potentially leading to hyperinflation.".to_string(),
        ]
    );
}

#[test]
fn verified_contract_takes_the_narrative() {
    let source = "x.call(data);";
    let info = contract(source, "Caller");
    let scanned = analyze_source_code(source);
    let result = finish_scan(&info, &scanned, Ok("Told by the generator.".to_string()));
    assert_eq!(result.score, 55);
    assert_eq!(result.summary, "Told by the generator.");
    assert_eq!(result.risks.len(), 3);
    assert!(result.risks[0].starts_with("[Low] Low-level Call: "));
    assert!(result.risks[1].starts_with("[Medium] Unchecked Call Return: "));
    assert!(result.risks[2].starts_with("[Critical] Reentrancy Vulnerability: "));
}

#[test]
fn prompt_is_what_the_template_gives() {
    let scanned = analyze_source_code("interface IERC20 {} function mint(uint256 x) public {}");
    let risks_formatted = scanned
        .risks
        .iter()
        .map(|r| format!("{}: {}", r.check_name, r.description))
        .collect::<Vec<String>>()
        .join("\n");
    let expected = format!(
        "You are a Web3 security analyst reviewing smart contract risks.\n\
        Your task is to analyze the given smart contract, explain the security issues in simple terms, and assign a final trust score between 0 and 100. Return your response in strict JSON format.\n\n\
        Input:\n\
        - Contract Name: {}\n\
        - Risks Detected:\n{}\n\n\
        - Contract Traits:\n\
          - Verified Source Code: {}\n\
          - Good Token Distribution: {}\n\
          - Contract Type: {}\n\n\
        Please analyze these risks and provide a comprehensive summary with recommendations in valid JSON format. \
        Focus on explaining technical risks in simple terms for non-technical users.\n\
        The response should include verdict, summary, and recommendations fields.",
        "Token", risks_formatted, true, true, "ERC20 Token"
    );
    assert_eq!(scanned.risks.len(), 2);
    assert_eq!(narrative_prompt(&scanned, "Token"), expected);
}

#[test]
fn prompt_without_findings() {
    let scanned = AnalysisResult {
        score: 100,
        risks: vec![],
        contract_traits: ContractTraits::new(false),
    };
    let prompt = narrative_prompt(&scanned, "Quiet");
    assert!(prompt.contains("- Contract Name: Quiet\n- Risks Detected:\n\n\n- Contract Traits:\n"));
    assert!(prompt.contains("- Verified Source Code: false\n- Good Token Distribution: true\n- Contract Type: Unknown\n\n"));
}

#[test]
fn first_choice_is_taken() {
    assert_eq!(
        first_choice(vec!["one".to_string(), "two".to_string(), "three".to_string()]),
        Ok("one".to_string())
    );
    assert_eq!(first_choice(vec!["only".to_string()]), Ok("only".to_string()));
    assert_eq!(first_choice(vec![]), Err("OpenAI response contained no choices.".to_string()));
}
