use susbot_backend::analysis::{
    analyze_source_code, analyze_source_code_with_verification, checked_analysis,
    determine_contract_type, prevent_negative_scores, record_outcome, AnalysisCheck,
    ContractTraits, FoundRisk, InvalidPattern, RiskLevel, RuleCatalogue,
};
use susbot_backend::catalogue::checks;

fn names(source: &str) -> Vec<&'static str> {
    analyze_source_code(source).risks.iter().map(|risk| risk.check_name).collect()
}

#[test]
fn mint_function_is_found_twice_over() {
    let source = "function mint(uint256 x) public {}";
    let result = analyze_source_code(source);
    assert_eq!(names(source), vec!["Mint Function", "Infinite Minting"]);
    assert_eq!(result.risks[0].risk_level, RiskLevel::Info);
    assert_eq!(result.risks[1].risk_level, RiskLevel::Critical);
    assert_eq!(result.score, 75);
}

#[test]
fn low_level_call_fires_three_checks() {
    let source = "x.call(data);";
    let result = analyze_source_code(source);
    assert_eq!(
        names(source),
        vec!["Low-level Call", "Unchecked Call Return", "Reentrancy Vulnerability"]
    );
    assert_eq!(result.score, 55);
}

#[test]
fn old_pragma_fires_one_check() {
    let source = "pragma solidity ^0.6.0;";
    let result = analyze_source_code(source);
    assert_eq!(names(source), vec!["Outdated Compiler Version"]);
    assert_eq!(result.score, 95);
}

#[test]
fn recent_pragma_fires_nothing() {
    let result = analyze_source_code("pragma solidity ^0.8.20;");
    assert!(result.risks.is_empty());
    assert_eq!(result.score, 100);
}

#[test]
fn empty_text_scores_full() {
    let result = analyze_source_code("");
    assert!(result.risks.is_empty());
    assert_eq!(result.score, 100);
    assert!(!result.contract_traits.verified);
    assert!(result.contract_traits.good_distribution);
    assert_eq!(result.contract_traits.contract_type, "Unknown");
}

#[test]
fn empty_text_unverified_scores_full_in_the_scanner() {
    let result = analyze_source_code_with_verification("", false);
    assert!(result.risks.is_empty());
    assert_eq!(result.score, 100);
    assert!(!result.contract_traits.verified);
    assert!(result.contract_traits.good_distribution);
}

#[test]
fn verification_flag_is_carried() {
    assert!(analyze_source_code_with_verification("contract A {}", true).contract_traits.verified);
    assert!(!analyze_source_code_with_verification("contract A {}", false).contract_traits.verified);
    assert!(analyze_source_code("contract A {}").contract_traits.verified);
}

#[test]
fn each_check_fires_alone_with_its_impact() {
    let cases: Vec<(&str, &str, RiskLevel, u8)> = vec![
        ("selfdestruct (owner);", "Self-Destruct", RiskLevel::Critical, 75),
        ("suicide(owner);", "Self-Destruct", RiskLevel::Critical, 75),
        ("target.delegatecall", "Delegate Call", RiskLevel::Critical, 60),
        ("require(tx.origin == owner)", "tx.origin Authentication", RiskLevel::High, 70),
        ("now = block.timestamp + 1", "Block Timestamp Dependency", RiskLevel::Medium, 85),
        ("assembly { }", "Inline Assembly", RiskLevel::Medium, 95),
        ("target.call", "Low-level Call", RiskLevel::Low, 95),
        ("pragma solidity >=0.4.22;", "Outdated Compiler Version", RiskLevel::Low, 95),
        ("payee.transfer(amount)", "Unprotected Ether Withdrawal", RiskLevel::High, 75),
        ("can mint tokens", "Mint Function", RiskLevel::Info, 100),
        ("is blacklisted", "Owner Can Blacklist Users", RiskLevel::High, 85),
        ("funds are frozen", "Owner Can Blacklist Users", RiskLevel::High, 85),
        ("modifier whenNotPaused", "Pausable Contract", RiskLevel::Medium, 90),
        ("_unpause ();", "Pausable Contract", RiskLevel::Medium, 90),
        ("function transfer(address to) public", "Missing Event Emits", RiskLevel::Low, 97),
        ("x.gas( 2300 )", "Hardcoded Gas Limits", RiskLevel::Low, 98),
    ];
    for (source, name, level, score) in cases {
        let result = analyze_source_code(source);
        assert_eq!(result.risks.len(), 1, "{}", source);
        assert_eq!(result.risks[0].check_name, name);
        assert_eq!(result.risks[0].risk_level, level);
        assert_eq!(result.score, score, "{}", source);
    }
}

#[test]
fn repeated_matches_do_not_stack() {
    let once = analyze_source_code("selfdestruct(a);");
    let thrice = analyze_source_code("selfdestruct(a); selfdestruct(b); suicide(c);");
    assert_eq!(once.score, 75);
    assert_eq!(thrice.score, 75);
    assert_eq!(thrice.risks.len(), 1);
}

#[test]
fn patterns_are_case_sensitive() {
    assert!(analyze_source_code("SELFDESTRUCT(a); Assembly { }").risks.is_empty());
}

#[test]
fn word_boundaries_are_honoured() {
    assert!(analyze_source_code("minting is over").risks.is_empty());
    assert!(analyze_source_code("x.callback").risks.is_empty());
}

const EVERYTHING: &str = "pragma solidity ^0.4.0;\n\
    contract Everything is Pausable {\n\
    function mint(uint256 x) public {}\n\
    function transfer(address to) public { to.transfer(1); }\n\
    function f() public { require(tx.origin == owner); uint t = block.timestamp;\n\
    assembly { } target.delegatecall(data); target.call(data); target.call.gas(2300)(data);\n\
    x.gas(5)(); blacklist[to] = true; selfdestruct(owner); } }";

#[test]
fn score_is_clamped_at_zero() {
    let result = analyze_source_code(EVERYTHING);
    assert_eq!(result.risks.len(), 16);
    assert_eq!(result.score, 0);
}

#[test]
fn findings_come_in_catalogue_order() {
    let result = analyze_source_code(EVERYTHING);
    let found: Vec<&str> = result.risks.iter().map(|risk| risk.check_name).collect();
    let listed: Vec<&str> = checks().iter().map(|check| check.name).collect();
    assert_eq!(found, listed);
    assert_eq!(
        listed,
        vec![
            "Self-Destruct",
            "Delegate Call",
            "tx.origin Authentication",
            "Block Timestamp Dependency",
            "Inline Assembly",
            "Low-level Call",
            "Outdated Compiler Version",
            "Unprotected Ether Withdrawal",
            "Mint Function",
            "Infinite Minting",
            "Owner Can Blacklist Users",
            "Pausable Contract",
            "Missing Event Emits",
            "Hardcoded Gas Limits",
            "Unchecked Call Return",
            "Reentrancy Vulnerability",
        ]
    );
}

#[test]
fn findings_carry_the_checks_description() {
    let result = analyze_source_code(EVERYTHING);
    let listed = checks();
    for (risk, check) in result.risks.iter().zip(listed.iter()) {
        assert_eq!(risk.description, check.description);
        assert_eq!(risk.risk_level, check.risk_level);
    }
}

#[test]
fn no_two_findings_share_a_name() {
    let result = analyze_source_code(EVERYTHING);
    for i in 0..result.risks.len() {
        for j in (i + 1)..result.risks.len() {
            assert_ne!(result.risks[i].check_name, result.risks[j].check_name);
        }
    }
}

#[test]
fn catalogue_holds_the_listed_impacts() {
    let expected: Vec<(&str, RiskLevel, i32)> = vec![
        ("Self-Destruct", RiskLevel::Critical, 25),
        ("Delegate Call", RiskLevel::Critical, 40),
        ("Reentrancy Vulnerability", RiskLevel::Critical, 30),
        ("Infinite Minting", RiskLevel::Critical, 25),
        ("tx.origin Authentication", RiskLevel::High, 30),
        ("Unprotected Ether Withdrawal", RiskLevel::High, 25),
        ("Owner Can Blacklist Users", RiskLevel::High, 15),
        ("Block Timestamp Dependency", RiskLevel::Medium, 15),
        ("Pausable Contract", RiskLevel::Medium, 10),
        ("Unchecked Call Return", RiskLevel::Medium, 10),
        ("Inline Assembly", RiskLevel::Medium, 5),
        ("Low-level Call", RiskLevel::Low, 5),
        ("Outdated Compiler Version", RiskLevel::Low, 5),
        ("Missing Event Emits", RiskLevel::Low, 3),
        ("Hardcoded Gas Limits", RiskLevel::Low, 2),
        ("Mint Function", RiskLevel::Info, 0),
    ];
    let listed = checks();
    assert_eq!(listed.len(), expected.len());
    for (name, level, impact) in expected {
        let check: &AnalysisCheck =
            listed.iter().find(|check| check.name == name).expect("a listed check");
        assert_eq!(check.risk_level, level);
        assert_eq!(check.score_impact, impact);
    }
}

#[test]
fn scanning_twice_gives_the_same() {
    let first = analyze_source_code(EVERYTHING);
    let second = analyze_source_code(EVERYTHING);
    assert_eq!(first.score, second.score);
    assert_eq!(first.risks.len(), second.risks.len());
    for (a, b) in first.risks.iter().zip(second.risks.iter()) {
        assert_eq!(a.check_name, b.check_name);
        assert_eq!(a.description, b.description);
        assert_eq!(a.risk_level, b.risk_level);
    }
    assert_eq!(first.contract_traits.contract_type, second.contract_traits.contract_type);
}

#[test]
fn score_stays_in_range() {
    for source in ["", "x", EVERYTHING, "x.call(data);", "contract A {}"] {
        assert!(analyze_source_code(source).score <= 100);
    }
}

#[test]
fn catalogue_compiles() {
    assert!(RuleCatalogue::compile().is_ok());
}

#[test]
fn compiled_catalogue_scans_like_the_plain_function() {
    let rules = RuleCatalogue::compile().expect("a catalogue that compiles");
    let result = rules.analyze("x.call(data);", false);
    assert_eq!(result.score, 55);
    assert_eq!(result.risks.len(), 3);
    assert!(!result.contract_traits.verified);
}

#[test]
fn examine_checks_deducts_and_appends() {
    let rules = RuleCatalogue::compile().expect("a catalogue that compiles");
    let mut score: i32 = 10;
    let mut risks = vec![FoundRisk {
        check_name: "Earlier",
        description: "kept",
        risk_level: RiskLevel::Info,
    }];
    rules.examine_checks("x.call(data);", &mut score, &mut risks);
    assert_eq!(score, -35);
    assert_eq!(risks.len(), 4);
    assert_eq!(risks[0].check_name, "Earlier");
    assert_eq!(risks[1].check_name, "Low-level Call");
}

#[test]
fn checked_analysis_scans() {
    let result = checked_analysis("pragma solidity ^0.6.0;", true).expect("a catalogue that compiles");
    assert_eq!(result.score, 95);
}

#[test]
fn negative_scores_are_raised_to_zero() {
    let mut score: i32 = -145;
    prevent_negative_scores(&mut score);
    assert_eq!(score, 0);
    let mut score: i32 = 0;
    prevent_negative_scores(&mut score);
    assert_eq!(score, 0);
    let mut score: i32 = 37;
    prevent_negative_scores(&mut score);
    assert_eq!(score, 37);
}

#[test]
fn interface_marker_wins_over_later_markers() {
    assert_eq!(
        determine_contract_type("interface IERC20 { } contract N is ERC721, Ownable { }"),
        "ERC20 Token"
    );
    assert_eq!(
        analyze_source_code("interface IERC20 { } ERC721").contract_traits.contract_type,
        "ERC20 Token"
    );
}

#[test]
fn markers_are_tried_in_order() {
    assert_eq!(determine_contract_type("ERC721 before ERC20"), "ERC20 Token");
    assert_eq!(determine_contract_type("contract N is ERC721, ERC1155"), "NFT (ERC721)");
    assert_eq!(determine_contract_type("import IERC721"), "NFT (ERC721)");
    assert_eq!(determine_contract_type("contract M is ERC1155, Ownable"), "Multi-Token (ERC1155)");
    assert_eq!(determine_contract_type("contract O is Ownable"), "Ownable Contract");
    assert_eq!(determine_contract_type("contract P {}"), "Smart Contract");
    assert_eq!(determine_contract_type("library Q {}"), "Unknown");
    assert_eq!(determine_contract_type(""), "Unknown");
    assert_eq!(determine_contract_type("erc20 ownable Contract"), "Unknown");
}

#[test]
fn marker_at_the_very_end_is_seen() {
    assert_eq!(determine_contract_type("x Ownable"), "Ownable Contract");
    assert_eq!(determine_contract_type("Ownabl"), "Unknown");
    assert_eq!(determine_contract_type("\u{e9}\u{4e2d}contract"), "Smart Contract");
}

#[test]
fn traits_start_unknown() {
    let traits = ContractTraits::new(false);
    assert!(!traits.verified);
    assert!(traits.good_distribution);
    assert_eq!(traits.contract_type, "Unknown");
    assert!(ContractTraits::new(true).verified);
}

#[test]
fn finding_prints_as_one_line() {
    let risk = FoundRisk {
        check_name: "Mint Function",
        description: "The contract contains a 'mint' function, indicating it can create new tokens.",
        risk_level: RiskLevel::Info,
    };
    assert_eq!(
        risk.to_string(),
        "[Info] Mint Function: The contract contains a 'mint' function, indicating it can create new tokens."
    );
}

#[test]
fn levels_print_by_name() {
    assert_eq!(RiskLevel::Critical.to_string(), "Critical");
    assert_eq!(RiskLevel::High.to_string(), "High");
    assert_eq!(RiskLevel::Medium.to_string(), "Medium");
    assert_eq!(RiskLevel::Low.to_string(), "Low");
    assert_eq!(RiskLevel::Info.to_string(), "Info");
}

#[test]
fn refused_pattern_is_named() {
    let refusal = InvalidPattern { index: 3, pattern: "a(" };
    assert_eq!(refusal.message(), "Invalid regex pattern: a(");
}

#[test]
fn outcome_of_one_check_is_booked() {
    let check = AnalysisCheck::new("Name", "About.", "x+", RiskLevel::High, 30);
    let mut score: i32 = 100;
    let mut risks: Vec<FoundRisk> = Vec::new();
    record_outcome(&check, false, &mut score, &mut risks);
    assert_eq!(score, 100);
    assert!(risks.is_empty());
    record_outcome(&check, true, &mut score, &mut risks);
    assert_eq!(score, 70);
    assert_eq!(risks.len(), 1);
    assert_eq!(risks[0].check_name, "Name");
    assert_eq!(risks[0].description, "About.");
    assert_eq!(risks[0].risk_level, RiskLevel::High);
    record_outcome(&check, true, &mut score, &mut risks);
    record_outcome(&check, true, &mut score, &mut risks);
    record_outcome(&check, true, &mut score, &mut risks);
    assert_eq!(score, -20);
    assert_eq!(risks.len(), 4);
}

#[test]
fn examine_checks_works_at_the_lowest_score() {
    let rules = RuleCatalogue::compile().expect("a catalogue that compiles");
    let mut score: i32 = i32::MIN + 245;
    let mut risks: Vec<FoundRisk> = Vec::new();
    rules.examine_checks(EVERYTHING, &mut score, &mut risks);
    assert_eq!(score, i32::MIN);
    assert_eq!(risks.len(), 16);
}

#[test]
fn impacts_sum_to_the_total() {
    let sum: i32 = checks().iter().map(|check| check.score_impact).sum();
    assert_eq!(sum, 245);
    assert_eq!(susbot_backend::catalogue::TOTAL_IMPACT, 245);
}

#[test]
fn text_counts_as_verified_when_there_is_some() {
    assert!(!analyze_source_code("").contract_traits.verified);
    assert!(analyze_source_code(" ").contract_traits.verified);
    assert!(analyze_source_code("contract A {}").contract_traits.verified);
}

#[test]
fn call_checks_fire_whatever_else_the_text_holds() {
    let source = "pragma solidity ^0.8.0;\ncontract C is Ownable { function f() public { x.call(data); selfdestruct(o); } }";
    let result = analyze_source_code(source);
    for name in ["Low-level Call", "Unchecked Call Return", "Reentrancy Vulnerability"] {
        assert_eq!(result.risks.iter().filter(|risk| risk.check_name == name).count(), 1);
    }
    assert!(result.score <= 55);
    assert_eq!(result.score, 30);
}
