//! The risk engine: the checks, what they find in a text, the score that
//! the findings leave, and the coarse label of the contract's kind.

use crate::catalogue::{
    catalogue, checks, impact_of_first, lemma_impacts_not_negative, lemma_total_impact,
    CHECK_COUNT, TOTAL_IMPACT,
};
use crate::pattern::{compile_pattern, matches_anywhere, pattern_compiles, pattern_occurs, pattern_text};
use crate::text::{chars_of, contains, occurs_in};
use vstd::prelude::*;

verus! {

/// The score of a text in which no check fires.
pub const BASE_SCORE: i32 = 100;

/// How grave a finding is, gravest first.
#[derive(Clone, Copy, Debug, PartialEq, Eq, Structural)]
pub enum RiskLevel {
    Critical,
    High,
    Medium,
    Low,
    Info,
}

impl RiskLevel {
    /// The level's name as it is printed.
    pub open spec fn label(self) -> Seq<char> {
        match self {
            RiskLevel::Critical => "Critical"@,
            RiskLevel::High => "High"@,
            RiskLevel::Medium => "Medium"@,
            RiskLevel::Low => "Low"@,
            RiskLevel::Info => "Info"@,
        }
    }

    /// The level's name.
    pub fn to_string(&self) -> (label: &'static str)
        ensures
            label@ == self.label(),
    {
        match self {
            RiskLevel::Critical => "Critical",
            RiskLevel::High => "High",
            RiskLevel::Medium => "Medium",
            RiskLevel::Low => "Low",
            RiskLevel::Info => "Info",
        }
    }
}

/// One entry of the catalogue: a pattern to look for, and what a match
/// means and costs.
#[derive(Clone, Copy, Debug)]
pub struct AnalysisCheck {
    pub name: &'static str,
    pub description: &'static str,
    pub pattern: &'static str,
    pub risk_level: RiskLevel,
    pub score_impact: i32,
}

impl AnalysisCheck {
    /// The check with these fields.
    pub open spec fn entry(
        name: &'static str,
        description: &'static str,
        pattern: &'static str,
        risk_level: RiskLevel,
        score_impact: i32,
    ) -> AnalysisCheck {
        AnalysisCheck { name, description, pattern, risk_level, score_impact }
    }

    /// Makes the check with these fields.
    #[verifier::when_used_as_spec(entry)]
    pub fn new(
        name: &'static str,
        description: &'static str,
        pattern: &'static str,
        risk_level: RiskLevel,
        score_impact: i32,
    ) -> (check: AnalysisCheck)
        ensures
            check == Self::entry(name, description, pattern, risk_level, score_impact),
    {
        AnalysisCheck { name, description, pattern, risk_level, score_impact }
    }

    /// The check fires on `text`: the text is not empty and the pattern
    /// matches somewhere in it. How often it matches does not count.
    pub open spec fn fires(self, text: Seq<char>) -> bool {
        text.len() > 0 && pattern_occurs(self.pattern@, text)
    }

    /// What is reported when the check fires.
    pub open spec fn finding(self) -> FoundRisk {
        FoundRisk {
            check_name: self.name,
            description: self.description,
            risk_level: self.risk_level,
        }
    }
}

/// One check's match against a text.
#[derive(Clone, Copy, Debug)]
pub struct FoundRisk {
    pub check_name: &'static str,
    pub description: &'static str,
    pub risk_level: RiskLevel,
}

impl FoundRisk {
    /// The finding as one line: the level in square brackets, the check's
    /// name, a colon and the description.
    pub open spec fn line(self) -> Seq<char> {
        "["@ + self.risk_level.label() + "] "@ + self.check_name@ + ": "@ + self.description@
    }

    /// The finding as one line.
    pub fn to_string(&self) -> (line: String)
        ensures
            line@ == self.line(),
    {
        let mut line = String::from_str("[");
        line.append(self.risk_level.to_string());
        line.append("] ");
        line.append(self.check_name);
        line.append(": ");
        line.append(self.description);
        line
    }
}

/// Coarse traits of a contract. `good_distribution` stands for on-chain
/// data that no scan of the source can supply, and is always `true`.
#[derive(Debug)]
pub struct ContractTraits {
    pub verified: bool,
    pub good_distribution: bool,
    pub contract_type: String,
}

impl ContractTraits {
    /// The traits of a contract of which nothing but `verified` is known.
    pub fn new(verified: bool) -> (traits: Self)
        ensures
            traits.verified == verified,
            traits.good_distribution,
            traits.contract_type@ == "Unknown"@,
    {
        Self { verified, good_distribution: true, contract_type: String::from_str("Unknown") }
    }
}

/// The outcome of one scan.
#[derive(Debug)]
pub struct AnalysisResult {
    pub score: u8,
    pub risks: Vec<FoundRisk>,
    pub contract_traits: ContractTraits,
}

/// Those of `checks` that fire on `text`, in their order.
pub open spec fn fired_among(checks: Seq<AnalysisCheck>, text: Seq<char>) -> Seq<AnalysisCheck> {
    checks.filter(|check: AnalysisCheck| check.fires(text))
}

/// The findings of `checks` on `text`: one for each check that fires.
pub open spec fn findings_among(checks: Seq<AnalysisCheck>, text: Seq<char>) -> Seq<FoundRisk> {
    fired_among(checks, text).map_values(|check: AnalysisCheck| check.finding())
}

/// What the checks of `checks` that fire on `text` deduct together.
pub open spec fn deduction_among(checks: Seq<AnalysisCheck>, text: Seq<char>) -> int {
    fired_among(checks, text).fold_left(
        0int,
        |sum: int, check: AnalysisCheck| sum + check.score_impact,
    )
}

/// The findings of the catalogue on `text`, in catalogue order.
pub open spec fn findings(text: Seq<char>) -> Seq<FoundRisk> {
    findings_among(catalogue(), text)
}

/// What the findings on `text` deduct together.
pub open spec fn deduction(text: Seq<char>) -> int {
    deduction_among(catalogue(), text)
}

/// The trust score of `text`: the base score less the deduction, and zero
/// where the deduction is larger than the base score.
pub open spec fn score_for(text: Seq<char>) -> int {
    if deduction(text) >= BASE_SCORE {
        0
    } else {
        BASE_SCORE - deduction(text)
    }
}

/// The label of the first marker, in a fixed order of priority, that stands
/// in `text`.
pub open spec fn contract_type_of(text: Seq<char>) -> Seq<char> {
    if occurs_in("ERC20"@, text) || occurs_in("IERC20"@, text) {
        "ERC20 Token"@
    } else if occurs_in("ERC721"@, text) || occurs_in("IERC721"@, text) {
        "NFT (ERC721)"@
    } else if occurs_in("ERC1155"@, text) || occurs_in("IERC1155"@, text) {
        "Multi-Token (ERC1155)"@
    } else if occurs_in("Ownable"@, text) {
        "Ownable Contract"@
    } else if occurs_in("contract"@, text) {
        "Smart Contract"@
    } else {
        "Unknown"@
    }
}

impl AnalysisResult {
    /// `self` is what a scan of `text` reports, `verified` saying whether
    /// source text was to be had.
    pub open spec fn describes(&self, text: Seq<char>, verified: bool) -> bool {
        &&& self.score == score_for(text)
        &&& self.risks@ == findings(text)
        &&& self.contract_traits.verified == verified
        &&& self.contract_traits.good_distribution
        &&& self.contract_traits.contract_type@ == contract_type_of(text)
    }
}

/// Every pattern of the catalogue is one that the pattern engine accepts.
pub open spec fn catalogue_compiles() -> bool {
    forall|i: int|
        0 <= i < catalogue().len() ==> pattern_compiles((#[trigger] catalogue()[i]).pattern@)
}

/// How one more check changes the findings and the deduction.
pub proof fn lemma_next_check(checks: Seq<AnalysisCheck>, text: Seq<char>, i: int)
    requires
        0 <= i < checks.len(),
    ensures
        checks[i].fires(text) ==> {
            &&& findings_among(checks.take(i + 1), text) == findings_among(
                checks.take(i),
                text,
            ).push(checks[i].finding())
            &&& deduction_among(checks.take(i + 1), text) == deduction_among(checks.take(i), text)
                + checks[i].score_impact
        },
        !checks[i].fires(text) ==> {
            &&& findings_among(checks.take(i + 1), text) == findings_among(checks.take(i), text)
            &&& deduction_among(checks.take(i + 1), text) == deduction_among(checks.take(i), text)
        },
{
    let longer = checks.take(i + 1);
    assert(longer.drop_last() =~= checks.take(i));
    assert(longer.last() == checks[i]);
    reveal(Seq::filter);
    if checks[i].fires(text) {
        let before = fired_among(checks.take(i), text);
        assert(fired_among(longer, text) == before.push(checks[i]));
        assert(before.push(checks[i]).drop_last() =~= before);
        assert(findings_among(longer, text) =~= findings_among(checks.take(i), text).push(
            checks[i].finding(),
        ));
    }
}

/// Those of the first `n` checks that fire deduct nothing negative, and no
/// more than the first `n` checks deduct together.
pub proof fn lemma_deduction_bounds(text: Seq<char>, n: int)
    requires
        0 <= n <= catalogue().len(),
    ensures
        0 <= deduction_among(catalogue().take(n), text) <= impact_of_first(n) <= TOTAL_IMPACT,
    decreases n,
{
    lemma_impacts_not_negative();
    lemma_total_impact(n);
    if n == 0 {
        reveal(Seq::filter);
        assert(catalogue().take(0) =~= Seq::<AnalysisCheck>::empty());
    } else {
        lemma_next_check(catalogue(), text, n - 1);
        lemma_deduction_bounds(text, n - 1);
    }
}

/// A longer stretch of the catalogue deducts no less than a shorter one.
pub proof fn lemma_deduction_grows(text: Seq<char>, shorter: int, longer: int)
    requires
        0 <= shorter <= longer <= catalogue().len(),
    ensures
        deduction_among(catalogue().take(shorter), text) <= deduction_among(
            catalogue().take(longer),
            text,
        ),
    decreases longer - shorter,
{
    if shorter < longer {
        lemma_impacts_not_negative();
        lemma_next_check(catalogue(), text, longer - 1);
        lemma_deduction_grows(text, shorter, longer - 1);
    }
}

/// The label of the contract's kind.
pub fn determine_contract_type(source_code: &str) -> (label: String)
    ensures
        label@ == contract_type_of(source_code@),
{
    let text = chars_of(source_code);
    if mentions(&text, "ERC20") || mentions(&text, "IERC20") {
        String::from_str("ERC20 Token")
    } else if mentions(&text, "ERC721") || mentions(&text, "IERC721") {
        String::from_str("NFT (ERC721)")
    } else if mentions(&text, "ERC1155") || mentions(&text, "IERC1155") {
        String::from_str("Multi-Token (ERC1155)")
    } else if mentions(&text, "Ownable") {
        String::from_str("Ownable Contract")
    } else if mentions(&text, "contract") {
        String::from_str("Smart Contract")
    } else {
        String::from_str("Unknown")
    }
}

fn mentions(text: &Vec<char>, marker: &str) -> (found: bool)
    ensures
        found == occurs_in(marker@, text@),
{
    let needle = chars_of(marker);
    contains(text, &needle)
}

/// Books the outcome of one check. Where the check fired, its impact comes
/// off `score` and its finding is added at the end of `risks`; where it did
/// not, nothing changes.
pub fn record_outcome(
    check: &AnalysisCheck,
    fired: bool,
    score: &mut i32,
    risks: &mut Vec<FoundRisk>,
)
    requires
        fired ==> i32::MIN <= *old(score) - check.score_impact <= i32::MAX,
    ensures
        *final(score) == if fired {
            *old(score) - check.score_impact
        } else {
            *old(score) as int
        },
        final(risks)@ == if fired {
            old(risks)@.push(check.finding())
        } else {
            old(risks)@
        },
{
    if fired {
        *score -= check.score_impact;
        risks.push(
            FoundRisk {
                check_name: check.name,
                description: check.description,
                risk_level: check.risk_level,
            },
        );
    }
}

/// Raises a negative score to zero.
pub fn prevent_negative_scores(score: &mut i32)
    ensures
        *final(score) == if *old(score) < 0 {
            0
        } else {
            *old(score)
        },
{
    if *score < 0 {
        *score = 0;
    }
}

/// The first pattern of the catalogue that the pattern engine refuses.
#[derive(Clone, Copy, Debug)]
pub struct InvalidPattern {
    pub index: usize,
    pub pattern: &'static str,
}

impl InvalidPattern {
    /// The pattern stands at `index` in the catalogue and is refused, and
    /// every pattern before it is accepted.
    pub open spec fn is_first_refusal(self) -> bool {
        &&& self.index < catalogue().len()
        &&& self.pattern == catalogue()[self.index as int].pattern
        &&& !pattern_compiles(self.pattern@)
        &&& forall|j: int|
            0 <= j < self.index ==> pattern_compiles((#[trigger] catalogue()[j]).pattern@)
    }

    /// The complaint in words.
    pub open spec fn text(self) -> Seq<char> {
        "Invalid regex pattern: "@ + self.pattern@
    }

    /// The complaint as text.
    pub fn message(&self) -> (message: String)
        ensures
            message@ == self.text(),
    {
        let mut message = String::from_str("Invalid regex pattern: ");
        message.append(self.pattern);
        message
    }
}

/// The catalogue with every pattern compiled: made once, then only read.
pub struct RuleCatalogue {
    checks: Vec<AnalysisCheck>,
    regexes: Vec<regex::Regex>,
}

impl RuleCatalogue {
    #[verifier::type_invariant]
    spec fn well_formed(&self) -> bool {
        &&& self.checks@ == catalogue()
        &&& self.regexes@.len() == self.checks@.len()
        &&& forall|i: int|
            0 <= i < self.regexes@.len() ==> pattern_text(#[trigger] self.regexes@[i])
                == catalogue()[i].pattern@
    }

    /// Compiles the patterns in catalogue order and stops at the first that
    /// is refused.
    pub fn compile() -> (compiled: Result<RuleCatalogue, InvalidPattern>)
        ensures
            match compiled {
                Ok(_) => catalogue_compiles(),
                Err(refusal) => refusal.is_first_refusal(),
            },
    {
        let checks = checks();
        let mut regexes: Vec<regex::Regex> = Vec::new();
        let mut i: usize = 0;
        while i < checks.len()
            invariant
                checks@ == catalogue(),
                i <= checks.len(),
                regexes@.len() == i,
                forall|j: int|
                    0 <= j < i ==> pattern_compiles((#[trigger] catalogue()[j]).pattern@),
                forall|j: int|
                    0 <= j < i ==> pattern_text(#[trigger] regexes@[j]) == catalogue()[j].pattern@,
            decreases checks.len() - i,
        {
            match compile_pattern(checks[i].pattern) {
                Ok(regex) => {
                    regexes.push(regex);
                },
                Err(_) => {
                    return Err(InvalidPattern { index: i, pattern: checks[i].pattern });
                },
            }
            i += 1;
        }
        Ok(RuleCatalogue { checks, regexes })
    }

    /// Tries every check on `source_code`: each one that fires takes its
    /// impact off `score` and adds its finding to `risks`.
    pub fn examine_checks(&self, source_code: &str, score: &mut i32, risks: &mut Vec<FoundRisk>)
        requires
            i32::MIN + TOTAL_IMPACT <= *old(score),
        ensures
            *final(score) == *old(score) - deduction(source_code@),
            final(risks)@ == old(risks)@ + findings(source_code@),
            0 <= deduction(source_code@) <= TOTAL_IMPACT,
    {
        proof {
            use_type_invariant(self);
            lemma_impacts_not_negative();
            lemma_deduction_bounds(source_code@, 0);
            reveal(Seq::filter);
            assert(catalogue().take(0) =~= Seq::<AnalysisCheck>::empty());
            assert(findings_among(catalogue().take(0), source_code@) =~= Seq::<FoundRisk>::empty());
            assert(old(risks)@ + Seq::<FoundRisk>::empty() =~= old(risks)@);
        }
        let blank = source_code.is_empty();
        let mut i: usize = 0;
        while i < self.checks.len()
            invariant
                self.well_formed(),
                catalogue().len() == CHECK_COUNT,
                blank == (source_code@.len() == 0),
                i <= self.checks.len(),
                i32::MIN + TOTAL_IMPACT <= *old(score),
                0 <= deduction_among(catalogue().take(i as int), source_code@) <= TOTAL_IMPACT,
                *score == *old(score) - deduction_among(catalogue().take(i as int), source_code@),
                risks@ == old(risks)@ + findings_among(catalogue().take(i as int), source_code@),
            decreases self.checks.len() - i,
        {
            let check = self.checks[i];
            proof {
                lemma_impacts_not_negative();
                lemma_next_check(catalogue(), source_code@, i as int);
                lemma_deduction_bounds(source_code@, i + 1);
            }
            let fired = !blank && matches_anywhere(&self.regexes[i], source_code);
            record_outcome(&check, fired, score, risks);
            assert(risks@ =~= old(risks)@ + findings_among(catalogue().take(i + 1), source_code@));
            i += 1;
        }
        assert(catalogue().take(i as int) =~= catalogue());
    }

    /// Scans `source_code` and assembles the result.
    pub fn analyze(&self, source_code: &str, verified: bool) -> (result: AnalysisResult)
        ensures
            result.describes(source_code@, verified),
            result.score <= 100,
            source_code@.len() == 0 ==> result.risks@.len() == 0 && result.score == 100,
    {
        let mut score: i32 = BASE_SCORE;
        let mut risks: Vec<FoundRisk> = Vec::new();
        self.examine_checks(source_code, &mut score, &mut risks);
        prevent_negative_scores(&mut score);
        let contract_type = determine_contract_type(source_code);
        proof {
            if source_code@.len() == 0 {
                lemma_blank_text(source_code@);
            }
        }
        AnalysisResult {
            score: score as u8,
            risks,
            contract_traits: ContractTraits { verified, good_distribution: true, contract_type },
        }
    }
}

/// On the empty text no check fires, so nothing is found and nothing is
/// deducted.
pub proof fn lemma_blank_text(text: Seq<char>)
    requires
        text.len() == 0,
    ensures
        findings(text).len() == 0,
        deduction(text) == 0,
        score_for(text) == BASE_SCORE,
{
    lemma_none_fires(catalogue(), text);
}

proof fn lemma_none_fires(checks: Seq<AnalysisCheck>, text: Seq<char>)
    requires
        text.len() == 0,
    ensures
        fired_among(checks, text).len() == 0,
    decreases checks.len(),
{
    reveal(Seq::filter);
    if checks.len() > 0 {
        lemma_none_fires(checks.drop_last(), text);
    }
}

/// Scans a source text. The contract counts as verified exactly when there
/// is source text to scan.
pub fn analyze_source_code(source_code: &str) -> (result: AnalysisResult)
    requires
        catalogue_compiles(),
    ensures
        result.describes(source_code@, source_code@.len() > 0),
        result.score <= 100,
        source_code@.len() == 0 ==> result.risks@.len() == 0 && result.score == 100,
{
    analyze_source_code_with_verification(source_code, !source_code.is_empty())
}

/// Scans a source text, `verified` saying whether source text was to be had.
pub fn analyze_source_code_with_verification(source_code: &str, verified: bool) -> (result:
    AnalysisResult)
    requires
        catalogue_compiles(),
    ensures
        result.describes(source_code@, verified),
        result.score <= 100,
        source_code@.len() == 0 ==> result.risks@.len() == 0 && result.score == 100,
{
    match RuleCatalogue::compile() {
        Ok(rules) => rules.analyze(source_code, verified),
        Err(_) => vstd::pervasive::unreached(),
    }
}

/// Scans a source text where every pattern of the catalogue compiles, and
/// names the first refused pattern where one does not.
pub fn checked_analysis(source_code: &str, verified: bool) -> (outcome: Result<
    AnalysisResult,
    InvalidPattern,
>)
    ensures
        match outcome {
            Ok(result) => {
                &&& catalogue_compiles()
                &&& result.describes(source_code@, verified)
                &&& result.score <= 100
            },
            Err(refusal) => refusal.is_first_refusal(),
        },
{
    match RuleCatalogue::compile() {
        Ok(_) => Ok(analyze_source_code_with_verification(source_code, verified)),
        Err(refusal) => Err(refusal),
    }
}

} // verus!
