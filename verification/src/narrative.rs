//! What is handed to a narrative generator, and what is taken from its
//! answer. The generator itself is no part of the library.

use crate::analysis::{AnalysisResult, FoundRisk};
use crate::text::join_lines;
use vstd::prelude::*;

verus! {

/// The complaint about an answer that offers no narrative.
pub const NO_CHOICES: &'static str = "OpenAI response contained no choices.";

/// `true` or `false`, as it is printed.
pub open spec fn bool_text(flag: bool) -> Seq<char> {
    if flag {
        "true"@
    } else {
        "false"@
    }
}

/// One finding as the request lists it: the check's name, a colon and the
/// description.
pub open spec fn risk_entry(risk: FoundRisk) -> Seq<char> {
    risk.check_name@ + ": "@ + risk.description@
}

/// The findings as the request lists them, one on each line.
pub open spec fn risks_listed(risks: Seq<FoundRisk>) -> Seq<char> {
    join_lines(risks.map_values(|risk: FoundRisk| risk_entry(risk)))
}

/// The request for a narrative: the task, the contract's name, the findings
/// and the traits.
pub open spec fn prompt_text(
    contract_name: Seq<char>,
    risks: Seq<FoundRisk>,
    verified: bool,
    good_distribution: bool,
    contract_type: Seq<char>,
) -> Seq<char> {
    "You are a Web3 security analyst reviewing smart contract risks.\nYour task is to analyze the given smart contract, explain the security issues in simple terms, and assign a final trust score between 0 and 100. Return your response in strict JSON format.\n\nInput:\n- Contract Name: "@
        + contract_name + "\n- Risks Detected:\n"@ + risks_listed(risks)
        + "\n\n- Contract Traits:\n- Verified Source Code: "@ + bool_text(verified)
        + "\n- Good Token Distribution: "@ + bool_text(good_distribution) + "\n- Contract Type: "@
        + contract_type
        + "\n\nPlease analyze these risks and provide a comprehensive summary with recommendations in valid JSON format. Focus on explaining technical risks in simple terms for non-technical users.\nThe response should include verdict, summary, and recommendations fields."@
}

fn bool_str(flag: bool) -> (text: &'static str)
    ensures
        text@ == bool_text(flag),
{
    if flag {
        "true"
    } else {
        "false"
    }
}

fn list_risks(risks: &Vec<FoundRisk>) -> (listed: String)
    ensures
        listed@ == risks_listed(risks@),
{
    let ghost entries = risks@.map_values(|risk: FoundRisk| risk_entry(risk));
    let mut listed = String::new();
    let mut i: usize = 0;
    while i < risks.len()
        invariant
            i <= risks.len(),
            entries == risks@.map_values(|risk: FoundRisk| risk_entry(risk)),
            listed@ == join_lines(entries.take(i as int)),
        decreases risks.len() - i,
    {
        proof {
            assert(entries.take(i + 1).drop_last() =~= entries.take(i as int));
            assert(entries.take(i + 1).last() == risk_entry(risks@[i as int]));
        }
        if i > 0 {
            listed.append("\n");
            proof {
                reveal_strlit("\n");
                assert("\n"@ =~= seq!['\n']);
            }
        }
        let ghost before = listed@;
        listed.append(risks[i].check_name);
        listed.append(": ");
        listed.append(risks[i].description);
        assert(listed@ =~= before + risk_entry(risks@[i as int]));
        i += 1;
    }
    assert(entries.take(i as int) =~= entries);
    listed
}

/// Words the request for a narrative of `analysis_result`.
pub fn narrative_prompt(analysis_result: &AnalysisResult, contract_name: &str) -> (prompt: String)
    ensures
        prompt@ == prompt_text(
            contract_name@,
            analysis_result.risks@,
            analysis_result.contract_traits.verified,
            analysis_result.contract_traits.good_distribution,
            analysis_result.contract_traits.contract_type@,
        ),
{
    let risks_formatted = list_risks(&analysis_result.risks);
    let mut prompt = String::from_str(
        "You are a Web3 security analyst reviewing smart contract risks.\nYour task is to analyze the given smart contract, explain the security issues in simple terms, and assign a final trust score between 0 and 100. Return your response in strict JSON format.\n\nInput:\n- Contract Name: ",
    );
    prompt.append(contract_name);
    prompt.append("\n- Risks Detected:\n");
    prompt.append(risks_formatted.as_str());
    prompt.append("\n\n- Contract Traits:\n- Verified Source Code: ");
    prompt.append(bool_str(analysis_result.contract_traits.verified));
    prompt.append("\n- Good Token Distribution: ");
    prompt.append(bool_str(analysis_result.contract_traits.good_distribution));
    prompt.append("\n- Contract Type: ");
    prompt.append(analysis_result.contract_traits.contract_type.as_str());
    prompt.append(
        "\n\nPlease analyze these risks and provide a comprehensive summary with recommendations in valid JSON format. Focus on explaining technical risks in simple terms for non-technical users.\nThe response should include verdict, summary, and recommendations fields.",
    );
    prompt
}

/// Takes the narrative from the generator's answer: the first of the
/// choices it offers, and a complaint where it offers none.
pub fn first_choice(choices: Vec<String>) -> (narrative: Result<String, String>)
    ensures
        match narrative {
            Ok(text) => choices@.len() > 0 && text == choices@[0],
            Err(complaint) => choices@.len() == 0 && complaint@ == NO_CHOICES@,
        },
{
    let mut choices = choices;
    if choices.len() > 0 {
        Ok(choices.swap_remove(0))
    } else {
        Err(String::from_str(NO_CHOICES))
    }
}

} // verus!
