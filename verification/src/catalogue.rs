//! The rule catalogue: sixteen lexical checks in the order in which findings
//! are reported.

use crate::analysis::{AnalysisCheck, RiskLevel};
use vstd::prelude::*;

verus! {

pub const SELF_DESTRUCT: &'static str = "Self-Destruct";
pub const SELF_DESTRUCT_ABOUT: &'static str =
    "The contract can be destroyed by its owner, removing it from the blockchain and sending all its funds to a designated address.";
pub const SELF_DESTRUCT_PATTERN: &'static str = r"selfdestruct\s*\(|suicide\s*\(";

pub const DELEGATE_CALL: &'static str = "Delegate Call";
pub const DELEGATE_CALL_ABOUT: &'static str =
    "Unsafe use of 'delegatecall' can lead to unexpected code execution and security vulnerabilities.";
pub const DELEGATE_CALL_PATTERN: &'static str = r"\.delegatecall\b";

pub const TX_ORIGIN_AUTHENTICATION: &'static str = "tx.origin Authentication";
pub const TX_ORIGIN_AUTHENTICATION_ABOUT: &'static str =
    "Using 'tx.origin' for authentication is unsafe and can make the contract vulnerable to phishing attacks.";
pub const TX_ORIGIN_AUTHENTICATION_PATTERN: &'static str = r"\btx\.origin\b";

pub const BLOCK_TIMESTAMP_DEPENDENCY: &'static str = "Block Timestamp Dependency";
pub const BLOCK_TIMESTAMP_DEPENDENCY_ABOUT: &'static str =
    "The contract's logic depends on 'block.timestamp', which can be manipulated by miners.";
pub const BLOCK_TIMESTAMP_DEPENDENCY_PATTERN: &'static str = r"\bblock\.timestamp\b";

pub const INLINE_ASSEMBLY: &'static str = "Inline Assembly";
pub const INLINE_ASSEMBLY_ABOUT: &'static str =
    "Use of inline assembly ('assembly') bypasses compiler safety checks and requires careful review.";
pub const INLINE_ASSEMBLY_PATTERN: &'static str = r"\bassembly\b";

pub const LOW_LEVEL_CALL: &'static str = "Low-level Call";
pub const LOW_LEVEL_CALL_ABOUT: &'static str =
    "Low-level '.call' is used. If the return value is not checked, it can lead to failed external calls being missed.";
pub const LOW_LEVEL_CALL_PATTERN: &'static str = r"\.call\b";

pub const OUTDATED_COMPILER_VERSION: &'static str = "Outdated Compiler Version";
pub const OUTDATED_COMPILER_VERSION_ABOUT: &'static str =
    "An old Solidity version is used (pragma < 0.8.0), which lacks built-in overflow/underflow checks.";
pub const OUTDATED_COMPILER_VERSION_PATTERN: &'static str = r"pragma\s+solidity\s*[\^<>=]*\s*0\.[0-7]\.";

pub const UNPROTECTED_ETHER_WITHDRAWAL: &'static str = "Unprotected Ether Withdrawal";
pub const UNPROTECTED_ETHER_WITHDRAWAL_ABOUT: &'static str =
    "A 'transfer' function is used. If protections like 'require(msg.sender == owner)' are missing, it could be a vulnerability.";
pub const UNPROTECTED_ETHER_WITHDRAWAL_PATTERN: &'static str = r"\.transfer\(";

pub const MINT_FUNCTION: &'static str = "Mint Function";
pub const MINT_FUNCTION_ABOUT: &'static str =
    "The contract contains a 'mint' function, indicating it can create new tokens.";
pub const MINT_FUNCTION_PATTERN: &'static str = r"\bmint\b";

pub const INFINITE_MINTING: &'static str = "Infinite Minting";
pub const INFINITE_MINTING_ABOUT: &'static str =
    "The contract allows unlimited token minting without proper restrictions, potentially leading to hyperinflation.";
pub const INFINITE_MINTING_PATTERN: &'static str = r"function\s+mint\s*\([^)]*\)";

pub const OWNER_CAN_BLACKLIST_USERS: &'static str = "Owner Can Blacklist Users";
pub const OWNER_CAN_BLACKLIST_USERS_ABOUT: &'static str =
    "The contract owner can blacklist or freeze user addresses, giving centralized control over user funds.";
pub const OWNER_CAN_BLACKLIST_USERS_PATTERN: &'static str = r"blacklist|blacklisted|frozen|freeze";

pub const PAUSABLE_CONTRACT: &'static str = "Pausable Contract";
pub const PAUSABLE_CONTRACT_ABOUT: &'static str =
    "The contract can be paused by the owner, potentially stopping all transfers and functionality.";
pub const PAUSABLE_CONTRACT_PATTERN: &'static str = r"Pausable|_pause\s*\(|_unpause\s*\(|whenNotPaused|whenPaused";

pub const MISSING_EVENT_EMITS: &'static str = "Missing Event Emits";
pub const MISSING_EVENT_EMITS_ABOUT: &'static str =
    "Critical functions lack event emissions, reducing transparency and making it harder to track important actions.";
pub const MISSING_EVENT_EMITS_PATTERN: &'static str = r"function\s+transfer\s*\([^)]*\)";

pub const HARDCODED_GAS_LIMITS: &'static str = "Hardcoded Gas Limits";
pub const HARDCODED_GAS_LIMITS_ABOUT: &'static str =
    "The contract uses hardcoded gas values which may cause issues if network conditions change.";
pub const HARDCODED_GAS_LIMITS_PATTERN: &'static str = r"\.gas\s*\(\s*\d+\s*\)";

pub const UNCHECKED_CALL_RETURN: &'static str = "Unchecked Call Return";
pub const UNCHECKED_CALL_RETURN_ABOUT: &'static str =
    "Low-level calls are made without checking their return values, potentially missing failed calls.";
pub const UNCHECKED_CALL_RETURN_PATTERN: &'static str = r"\.call\s*\([^)]*\)\s*;";

pub const REENTRANCY_VULNERABILITY: &'static str = "Reentrancy Vulnerability";
pub const REENTRANCY_VULNERABILITY_ABOUT: &'static str =
    "The contract may be vulnerable to reentrancy attacks due to external calls before state changes.";
pub const REENTRANCY_VULNERABILITY_PATTERN: &'static str = r"\.call\s*\([^)]*\)";

/// The number of checks in the catalogue.
pub const CHECK_COUNT: usize = 16;

/// What all checks deduct together.
pub const TOTAL_IMPACT: i32 = 245;

/// The catalogue as a mathematical sequence.
pub open spec fn catalogue() -> Seq<AnalysisCheck> {
    seq![
        AnalysisCheck::entry(SELF_DESTRUCT, SELF_DESTRUCT_ABOUT, SELF_DESTRUCT_PATTERN, RiskLevel::Critical, 25),
        AnalysisCheck::entry(DELEGATE_CALL, DELEGATE_CALL_ABOUT, DELEGATE_CALL_PATTERN, RiskLevel::Critical, 40),
        AnalysisCheck::entry(TX_ORIGIN_AUTHENTICATION, TX_ORIGIN_AUTHENTICATION_ABOUT, TX_ORIGIN_AUTHENTICATION_PATTERN, RiskLevel::High, 30),
        AnalysisCheck::entry(BLOCK_TIMESTAMP_DEPENDENCY, BLOCK_TIMESTAMP_DEPENDENCY_ABOUT, BLOCK_TIMESTAMP_DEPENDENCY_PATTERN, RiskLevel::Medium, 15),
        AnalysisCheck::entry(INLINE_ASSEMBLY, INLINE_ASSEMBLY_ABOUT, INLINE_ASSEMBLY_PATTERN, RiskLevel::Medium, 5),
        AnalysisCheck::entry(LOW_LEVEL_CALL, LOW_LEVEL_CALL_ABOUT, LOW_LEVEL_CALL_PATTERN, RiskLevel::Low, 5),
        AnalysisCheck::entry(OUTDATED_COMPILER_VERSION, OUTDATED_COMPILER_VERSION_ABOUT, OUTDATED_COMPILER_VERSION_PATTERN, RiskLevel::Low, 5),
        AnalysisCheck::entry(UNPROTECTED_ETHER_WITHDRAWAL, UNPROTECTED_ETHER_WITHDRAWAL_ABOUT, UNPROTECTED_ETHER_WITHDRAWAL_PATTERN, RiskLevel::High, 25),
        AnalysisCheck::entry(MINT_FUNCTION, MINT_FUNCTION_ABOUT, MINT_FUNCTION_PATTERN, RiskLevel::Info, 0),
        AnalysisCheck::entry(INFINITE_MINTING, INFINITE_MINTING_ABOUT, INFINITE_MINTING_PATTERN, RiskLevel::Critical, 25),
        AnalysisCheck::entry(OWNER_CAN_BLACKLIST_USERS, OWNER_CAN_BLACKLIST_USERS_ABOUT, OWNER_CAN_BLACKLIST_USERS_PATTERN, RiskLevel::High, 15),
        AnalysisCheck::entry(PAUSABLE_CONTRACT, PAUSABLE_CONTRACT_ABOUT, PAUSABLE_CONTRACT_PATTERN, RiskLevel::Medium, 10),
        AnalysisCheck::entry(MISSING_EVENT_EMITS, MISSING_EVENT_EMITS_ABOUT, MISSING_EVENT_EMITS_PATTERN, RiskLevel::Low, 3),
        AnalysisCheck::entry(HARDCODED_GAS_LIMITS, HARDCODED_GAS_LIMITS_ABOUT, HARDCODED_GAS_LIMITS_PATTERN, RiskLevel::Low, 2),
        AnalysisCheck::entry(UNCHECKED_CALL_RETURN, UNCHECKED_CALL_RETURN_ABOUT, UNCHECKED_CALL_RETURN_PATTERN, RiskLevel::Medium, 10),
        AnalysisCheck::entry(REENTRANCY_VULNERABILITY, REENTRANCY_VULNERABILITY_ABOUT, REENTRANCY_VULNERABILITY_PATTERN, RiskLevel::Critical, 30),
    ]
}

/// The catalogue as a value.
pub fn checks() -> (list: Vec<AnalysisCheck>)
    ensures
        list@ == catalogue(),
{
    let list = vec![
        AnalysisCheck::new(SELF_DESTRUCT, SELF_DESTRUCT_ABOUT, SELF_DESTRUCT_PATTERN, RiskLevel::Critical, 25),
        AnalysisCheck::new(DELEGATE_CALL, DELEGATE_CALL_ABOUT, DELEGATE_CALL_PATTERN, RiskLevel::Critical, 40),
        AnalysisCheck::new(TX_ORIGIN_AUTHENTICATION, TX_ORIGIN_AUTHENTICATION_ABOUT, TX_ORIGIN_AUTHENTICATION_PATTERN, RiskLevel::High, 30),
        AnalysisCheck::new(BLOCK_TIMESTAMP_DEPENDENCY, BLOCK_TIMESTAMP_DEPENDENCY_ABOUT, BLOCK_TIMESTAMP_DEPENDENCY_PATTERN, RiskLevel::Medium, 15),
        AnalysisCheck::new(INLINE_ASSEMBLY, INLINE_ASSEMBLY_ABOUT, INLINE_ASSEMBLY_PATTERN, RiskLevel::Medium, 5),
        AnalysisCheck::new(LOW_LEVEL_CALL, LOW_LEVEL_CALL_ABOUT, LOW_LEVEL_CALL_PATTERN, RiskLevel::Low, 5),
        AnalysisCheck::new(OUTDATED_COMPILER_VERSION, OUTDATED_COMPILER_VERSION_ABOUT, OUTDATED_COMPILER_VERSION_PATTERN, RiskLevel::Low, 5),
        AnalysisCheck::new(UNPROTECTED_ETHER_WITHDRAWAL, UNPROTECTED_ETHER_WITHDRAWAL_ABOUT, UNPROTECTED_ETHER_WITHDRAWAL_PATTERN, RiskLevel::High, 25),
        AnalysisCheck::new(MINT_FUNCTION, MINT_FUNCTION_ABOUT, MINT_FUNCTION_PATTERN, RiskLevel::Info, 0),
        AnalysisCheck::new(INFINITE_MINTING, INFINITE_MINTING_ABOUT, INFINITE_MINTING_PATTERN, RiskLevel::Critical, 25),
        AnalysisCheck::new(OWNER_CAN_BLACKLIST_USERS, OWNER_CAN_BLACKLIST_USERS_ABOUT, OWNER_CAN_BLACKLIST_USERS_PATTERN, RiskLevel::High, 15),
        AnalysisCheck::new(PAUSABLE_CONTRACT, PAUSABLE_CONTRACT_ABOUT, PAUSABLE_CONTRACT_PATTERN, RiskLevel::Medium, 10),
        AnalysisCheck::new(MISSING_EVENT_EMITS, MISSING_EVENT_EMITS_ABOUT, MISSING_EVENT_EMITS_PATTERN, RiskLevel::Low, 3),
        AnalysisCheck::new(HARDCODED_GAS_LIMITS, HARDCODED_GAS_LIMITS_ABOUT, HARDCODED_GAS_LIMITS_PATTERN, RiskLevel::Low, 2),
        AnalysisCheck::new(UNCHECKED_CALL_RETURN, UNCHECKED_CALL_RETURN_ABOUT, UNCHECKED_CALL_RETURN_PATTERN, RiskLevel::Medium, 10),
        AnalysisCheck::new(REENTRANCY_VULNERABILITY, REENTRANCY_VULNERABILITY_ABOUT, REENTRANCY_VULNERABILITY_PATTERN, RiskLevel::Critical, 30),
    ];
    assert(list@ =~= catalogue());
    list
}

/// What the first `n` checks of the catalogue deduct together.
pub open spec fn impact_of_first(n: int) -> int
    decreases n,
{
    if n <= 0 {
        0
    } else {
        impact_of_first(n - 1) + catalogue()[n - 1].score_impact
    }
}

/// No check deducts less than nothing.
pub proof fn lemma_impacts_not_negative()
    ensures
        catalogue().len() == CHECK_COUNT,
        forall|i: int| 0 <= i < catalogue().len() ==> 0 <= #[trigger] catalogue()[i].score_impact,
{
}

/// The impacts of the first `n` checks sum to no more than `TOTAL_IMPACT`,
/// which is what all sixteen deduct together.
pub proof fn lemma_total_impact(n: int)
    requires
        0 <= n <= catalogue().len(),
    ensures
        0 <= impact_of_first(n) <= impact_of_first(CHECK_COUNT as int) == TOTAL_IMPACT,
{
    lemma_impacts_not_negative();
    reveal_with_fuel(impact_of_first, 17);
}

/// The first and the third character of a check's name: together they tell
/// the checks apart.
pub open spec fn initials(check: AnalysisCheck) -> (char, char) {
    (check.name@[0], check.name@[2])
}

/// No two checks bear the same name.
pub proof fn lemma_names_differ()
    ensures
        forall|i: int, j: int|
            0 <= i < j < catalogue().len() ==> catalogue()[i].name@ != catalogue()[j].name@,
{
    reveal_strlit("Self-Destruct");
    reveal_strlit("Delegate Call");
    reveal_strlit("tx.origin Authentication");
    reveal_strlit("Block Timestamp Dependency");
    reveal_strlit("Inline Assembly");
    reveal_strlit("Low-level Call");
    reveal_strlit("Outdated Compiler Version");
    reveal_strlit("Unprotected Ether Withdrawal");
    reveal_strlit("Mint Function");
    reveal_strlit("Infinite Minting");
    reveal_strlit("Owner Can Blacklist Users");
    reveal_strlit("Pausable Contract");
    reveal_strlit("Missing Event Emits");
    reveal_strlit("Hardcoded Gas Limits");
    reveal_strlit("Unchecked Call Return");
    reveal_strlit("Reentrancy Vulnerability");
    let marks = seq![
        ('S', 'l'),
        ('D', 'l'),
        ('t', '.'),
        ('B', 'o'),
        ('I', 'l'),
        ('L', 'w'),
        ('O', 't'),
        ('U', 'p'),
        ('M', 'n'),
        ('I', 'f'),
        ('O', 'n'),
        ('P', 'u'),
        ('M', 's'),
        ('H', 'r'),
        ('U', 'c'),
        ('R', 'e'),
    ];
    assert forall|i: int| 0 <= i < catalogue().len() implies initials(#[trigger] catalogue()[i])
        == marks[i] by {}
    assert forall|i: int, j: int| 0 <= i < j < marks.len() implies marks[i] != marks[j] by {}
}

} // verus!
