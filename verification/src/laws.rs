//! What holds of every scan, whatever the text.

use crate::analysis::{
    contract_type_of, deduction, deduction_among, fired_among, findings, lemma_deduction_bounds,
    lemma_deduction_grows, lemma_next_check, score_for, AnalysisCheck, AnalysisResult, FoundRisk,
    BASE_SCORE,
};
use crate::analysis::RiskLevel;
use crate::catalogue::{
    catalogue, lemma_names_differ, LOW_LEVEL_CALL, LOW_LEVEL_CALL_ABOUT, LOW_LEVEL_CALL_PATTERN,
    REENTRANCY_VULNERABILITY, REENTRANCY_VULNERABILITY_ABOUT, REENTRANCY_VULNERABILITY_PATTERN,
    UNCHECKED_CALL_RETURN, UNCHECKED_CALL_RETURN_ABOUT, UNCHECKED_CALL_RETURN_PATTERN,
};
use crate::pattern::pattern_occurs;
use crate::json::json_parse;
use crate::structs::bundle_files;
use crate::text::{lemma_occurs_in_part, occurs_at, occurs_in};
use crate::{is_double_encoded, true_source, unwrapped};
use vstd::prelude::*;

verus! {

/// Whatever the text, its score lies between 0 and 100, and the findings
/// deduct nothing below zero.
pub proof fn lemma_score_in_range(text: Seq<char>)
    ensures
        0 <= score_for(text) <= BASE_SCORE,
        deduction(text) >= 0,
{
    lemma_deduction_bounds(text, catalogue().len() as int);
    assert(catalogue().take(catalogue().len() as int) =~= catalogue());
}

/// Two scans of one text agree: the same score, the same findings in the
/// same order, the same label.
pub proof fn lemma_scan_repeatable(
    first: AnalysisResult,
    second: AnalysisResult,
    text: Seq<char>,
    verified: bool,
)
    requires
        first.describes(text, verified),
        second.describes(text, verified),
    ensures
        first.score == second.score,
        first.risks@ == second.risks@,
        first.contract_traits.verified == second.contract_traits.verified,
        first.contract_traits.good_distribution == second.contract_traits.good_distribution,
        first.contract_traits.contract_type@ == second.contract_traits.contract_type@,
{
}

/// A check's finding is reported exactly when the check fires.
pub proof fn lemma_reported_iff_fires(text: Seq<char>, k: int)
    requires
        0 <= k < catalogue().len(),
    ensures
        catalogue()[k].fires(text) <==> findings(text).contains(catalogue()[k].finding()),
{
    let fires = |check: AnalysisCheck| check.fires(text);
    let fired = fired_among(catalogue(), text);
    assert(fired == catalogue().filter(fires));
    if catalogue()[k].fires(text) {
        catalogue().lemma_filter_contains(fires, k);
        let at = choose|at: int| 0 <= at < fired.len() && fired[at] == catalogue()[k];
        assert(findings(text)[at] == catalogue()[k].finding());
    }
    if findings(text).contains(catalogue()[k].finding()) {
        let at = choose|at: int|
            0 <= at < findings(text).len() && findings(text)[at] == catalogue()[k].finding();
        catalogue().lemma_filter_pred(fires, at);
        assert(fired.contains(fired[at]));
        catalogue().lemma_filter_contains_rev(fires, fired[at]);
        let m = choose|m: int| 0 <= m < catalogue().len() && catalogue()[m] == fired[at];
        assert(catalogue()[m].name@ == catalogue()[k].name@);
        lemma_names_differ();
    }
}

/// No two findings of one scan bear the same check's name.
pub proof fn lemma_findings_differ(text: Seq<char>, i: int, j: int)
    requires
        0 <= i < j < findings(text).len(),
    ensures
        findings(text)[i].check_name@ != findings(text)[j].check_name@,
{
    lemma_names_differ();
    lemma_fired_keep_names_apart(catalogue(), text);
}

proof fn lemma_fired_keep_names_apart(checks: Seq<AnalysisCheck>, text: Seq<char>)
    requires
        forall|a: int, b: int| 0 <= a < b < checks.len() ==> checks[a].name@ != checks[b].name@,
    ensures
        forall|a: int, b: int|
            0 <= a < b < fired_among(checks, text).len() ==> fired_among(checks, text)[a].name@
                != fired_among(checks, text)[b].name@,
        forall|a: int|
            0 <= a < fired_among(checks, text).len() ==> checks.contains(
                #[trigger] fired_among(checks, text)[a],
            ),
    decreases checks.len(),
{
    reveal(Seq::filter);
    if checks.len() > 0 {
        let before = checks.drop_last();
        lemma_fired_keep_names_apart(before, text);
        let kept = fired_among(before, text);
        assert forall|a: int| 0 <= a < kept.len() implies checks.contains(#[trigger] kept[a])
            && kept[a].name@ != checks.last().name@ by {
            let at = choose|at: int| 0 <= at < before.len() && before[at] == kept[a];
            assert(checks[at] == kept[a]);
        }
        if checks.last().fires(text) {
            assert(fired_among(checks, text) == kept.push(checks.last()));
            assert(checks[checks.len() - 1] == checks.last());
        }
    }
}

/// `finding` stands at place `at` among the findings on `text`, and no
/// finding at another place bears its name.
pub open spec fn reported_once_at(text: Seq<char>, finding: FoundRisk, at: int) -> bool {
    &&& 0 <= at < findings(text).len()
    &&& findings(text)[at] == finding
    &&& forall|other: int|
        0 <= other < findings(text).len() && findings(text)[other].check_name@
            == finding.check_name@ ==> other == at
}

/// `finding` is among the findings on `text`, once.
pub open spec fn reported_once(text: Seq<char>, finding: FoundRisk) -> bool {
    exists|at: int| reported_once_at(text, finding, at)
}

/// The finding of a check that fires is reported once.
pub proof fn lemma_fired_is_reported_once(text: Seq<char>, k: int)
    requires
        0 <= k < catalogue().len(),
        catalogue()[k].fires(text),
    ensures
        reported_once(text, catalogue()[k].finding()),
{
    lemma_reported_iff_fires(text, k);
    let finding = catalogue()[k].finding();
    let at = choose|at: int| 0 <= at < findings(text).len() && findings(text)[at] == finding;
    assert forall|other: int|
        0 <= other < findings(text).len() && findings(text)[other].check_name@
            == finding.check_name@ implies other == at by {
        if other < at {
            lemma_findings_differ(text, other, at);
        } else if at < other {
            lemma_findings_differ(text, at, other);
        }
    }
    assert(reported_once_at(text, finding, at));
}

/// A text on which the three checks for a low-level call fire, as they do
/// on `x.call(data);`, has each of their findings once, whatever else
/// stands in it, and a score of 55 at most. Whether a pattern matches a
/// given text is the pattern engine's to say.
pub proof fn lemma_call_checks_stack(text: Seq<char>)
    requires
        text.len() > 0,
        pattern_occurs(LOW_LEVEL_CALL_PATTERN@, text),
        pattern_occurs(UNCHECKED_CALL_RETURN_PATTERN@, text),
        pattern_occurs(REENTRANCY_VULNERABILITY_PATTERN@, text),
    ensures
        reported_once(
            text,
            FoundRisk {
                check_name: LOW_LEVEL_CALL,
                description: LOW_LEVEL_CALL_ABOUT,
                risk_level: RiskLevel::Low,
            },
        ),
        reported_once(
            text,
            FoundRisk {
                check_name: UNCHECKED_CALL_RETURN,
                description: UNCHECKED_CALL_RETURN_ABOUT,
                risk_level: RiskLevel::Medium,
            },
        ),
        reported_once(
            text,
            FoundRisk {
                check_name: REENTRANCY_VULNERABILITY,
                description: REENTRANCY_VULNERABILITY_ABOUT,
                risk_level: RiskLevel::Critical,
            },
        ),
        score_for(text) <= 55,
{
    let all = catalogue();
    assert(all[5].pattern == LOW_LEVEL_CALL_PATTERN && all[5].score_impact == 5);
    assert(all[14].pattern == UNCHECKED_CALL_RETURN_PATTERN && all[14].score_impact == 10);
    assert(all[15].pattern == REENTRANCY_VULNERABILITY_PATTERN && all[15].score_impact == 30);
    lemma_fired_is_reported_once(text, 5);
    lemma_fired_is_reported_once(text, 14);
    lemma_fired_is_reported_once(text, 15);
    lemma_deduction_bounds(text, 5);
    lemma_next_check(all, text, 5);
    lemma_deduction_grows(text, 6, 14);
    lemma_next_check(all, text, 14);
    lemma_next_check(all, text, 15);
    assert(all.take(16) =~= all);
    assert(deduction(text) == deduction_among(all.take(16), text));
}

/// A payload that is no JSON, and that is not wrapped in double braces
/// round a bundle either, is taken as flat text: it stands for itself.
pub proof fn lemma_flat_fallback(payload: Seq<char>)
    requires
        json_parse(payload) is None,
        !is_double_encoded(payload) || bundle_files(unwrapped(payload)) is None,
    ensures
        true_source(payload) == payload,
{
}

/// A text in which `interface IERC20` stands is labelled as an ERC20 token,
/// whatever other markers stand in it.
pub proof fn lemma_erc20_marker_wins(text: Seq<char>)
    requires
        occurs_in("interface IERC20"@, text),
    ensures
        contract_type_of(text) == "ERC20 Token"@,
{
    reveal_strlit("interface IERC20");
    reveal_strlit("ERC20");
    assert("interface IERC20"@.subrange(11, 16) =~= "ERC20"@);
    assert(occurs_at("ERC20"@, "interface IERC20"@, 11));
    lemma_occurs_in_part("ERC20"@, "interface IERC20"@, text);
}

} // verus!
