//! The values that pass between the scanner and the service around it, and
//! the bundle of source files that a verified-source payload may hold.

use crate::json::{
    distinct_names, find_member, json_parse, lemma_member_is_listed, lemma_object_view, member,
    members_model, names_distinct_throughout, Json, JsonValue,
};
use crate::text::join_lines;
use vstd::prelude::*;

verus! {

/// What a scan request is answered with.
#[derive(Clone, Debug)]
pub struct ScanResult {
    pub score: u8,
    pub summary: String,
    pub risks: Vec<String>,
}

impl ScanResult {
    /// The reported findings, each as text.
    pub open spec fn risk_texts(&self) -> Seq<Seq<char>> {
        self.risks@.map_values(|risk: String| risk@)
    }

    /// An answer that reports a failure: score zero, the given summary and
    /// the given details.
    pub fn new_error(summary: &str, risks: Vec<String>) -> (result: Self)
        ensures
            result.score == 0,
            result.summary@ == summary@,
            result.risks == risks,
            result.risk_texts() == risks@.map_values(|risk: String| risk@),
    {
        Self { score: 0, summary: String::from_str(summary), risks }
    }
}

/// What the source provider reports for one address.
#[derive(Debug)]
pub struct EtherscanApiResponse {
    pub status: String,
    pub message: String,
    pub result: Vec<EtherscanApiResult>,
}

/// One contract as the source provider reports it. An empty `source_code`
/// means that the source is not verified.
#[derive(Debug)]
pub struct EtherscanApiResult {
    pub source_code: String,
    pub contract_name: String,
}

/// One file of a source bundle.
#[derive(Debug)]
pub struct SourceFile {
    pub content: String,
}

/// A bundle of source files, each under its name, in the order in which the
/// payload lists them.
#[derive(Debug)]
pub struct ContractSources {
    pub sources: Vec<(String, SourceFile)>,
}

/// Why a text is no source bundle.
#[derive(Clone, Copy, Debug, PartialEq, Eq, Structural)]
pub enum BundleError {
    /// The text is not JSON.
    Syntax,
    /// The text is JSON, but not of the shape of a bundle.
    Shape,
}

/// The content of a file entry: the text of its member `content`.
pub open spec fn file_content(file: Json) -> Option<Seq<char>> {
    match file {
        Json::Object(members) => match member(members, "content"@) {
            Some(Json::Text(content)) => Some(content),
            _ => None,
        },
        _ => None,
    }
}

/// The files of a bundle document, as pairs of name and content: the
/// document is an object whose member `sources` is an object, and each
/// member of that is a file entry.
pub open spec fn source_files(document: Json) -> Option<Seq<(Seq<char>, Seq<char>)>> {
    match document {
        Json::Object(members) => match member(members, "sources"@) {
            Some(Json::Object(files)) => if forall|i: int|
                0 <= i < files.len() ==> file_content((#[trigger] files[i]).1) is Some {
                Some(
                    files.map_values(
                        |file: (Seq<char>, Json)| (file.0, file_content(file.1).unwrap()),
                    ),
                )
            } else {
                None
            },
            _ => None,
        },
        _ => None,
    }
}

/// The files of the bundle that `text` holds, if it holds one.
pub open spec fn bundle_files(text: Seq<char>) -> Option<Seq<(Seq<char>, Seq<char>)>> {
    match json_parse(text) {
        Some(document) => source_files(document),
        None => None,
    }
}

/// The contents of `files`, joined by line feeds.
pub open spec fn joined_contents(files: Seq<(Seq<char>, Seq<char>)>) -> Seq<char> {
    join_lines(files.map_values(|file: (Seq<char>, Seq<char>)| file.1))
}

impl ContractSources {
    /// The files as pairs of name and content.
    pub open spec fn files(&self) -> Seq<(Seq<char>, Seq<char>)> {
        self.sources@.map_values(|entry: (String, SourceFile)| (entry.0@, entry.1.content@))
    }

    /// No two files share a name.
    pub open spec fn well_formed(&self) -> bool {
        forall|i: int, j: int|
            0 <= i < j < self.sources@.len() ==> self.sources@[i].0@ != self.sources@[j].0@
    }

    /// The contents of all files, one after the other, with a line feed
    /// between neighbours.
    pub fn to_string(&self) -> (text: String)
        ensures
            text@ == joined_contents(self.files()),
    {
        let ghost parts = self.files().map_values(|file: (Seq<char>, Seq<char>)| file.1);
        let mut text = String::new();
        let mut i: usize = 0;
        while i < self.sources.len()
            invariant
                i <= self.sources.len(),
                parts == self.files().map_values(|file: (Seq<char>, Seq<char>)| file.1),
                parts.len() == self.sources@.len(),
                text@ == join_lines(parts.take(i as int)),
            decreases self.sources.len() - i,
        {
            proof {
                assert(parts.take(i + 1).drop_last() =~= parts.take(i as int));
                assert(parts.take(i + 1).last() == self.sources@[i as int].1.content@);
            }
            if i > 0 {
                text.append("\n");
                proof {
                    reveal_strlit("\n");
                    assert("\n"@ =~= seq!['\n']);
                }
            }
            text.append(self.sources[i].1.content.as_str());
            i += 1;
        }
        assert(parts.take(i as int) =~= parts);
        text
    }

    /// Reads a bundle from a JSON document. Where no object of the document
    /// holds a name twice, no two files of the bundle share a name.
    #[verifier::loop_isolation(false)]
    pub fn from_json(document: &JsonValue) -> (bundle: Option<Self>)
        ensures
            match bundle {
                Some(sources) => {
                    &&& source_files(document@) == Some(sources.files())
                    &&& names_distinct_throughout(document@) ==> sources.well_formed()
                },
                None => source_files(document@) is None,
            },
    {
        let members = match document {
            JsonValue::Object(members) => members,
            _ => {
                return None;
            },
        };
        proof {
            lemma_object_view(*members);
        }
        let files = match find_member(members, "sources") {
            Some(JsonValue::Object(files)) => files,
            _ => {
                return None;
            },
        };
        proof {
            lemma_object_view(*files);
        }
        let ghost entries = members_model(files@);
        let mut sources: Vec<(String, SourceFile)> = Vec::new();
        let mut i: usize = 0;
        while i < files.len()
            invariant
                i <= files.len(),
                sources@.len() == i,
                forall|j: int|
                    0 <= j < i ==> {
                        &&& (#[trigger] sources@[j]).0@ == entries[j].0
                        &&& file_content(entries[j].1) == Some(sources@[j].1.content@)
                    },
            decreases files.len() - i,
        {
            assert(entries[i as int] == (files@[i as int].0@, files@[i as int].1@));
            match read_content(&files[i].1) {
                Some(content) => {
                    sources.push((files[i].0.clone(), SourceFile { content }));
                },
                None => {
                    return None;
                },
            }
            i += 1;
        }
        let bundle = ContractSources { sources };
        proof {
            assert forall|j: int| 0 <= j < entries.len() implies file_content(
                (#[trigger] entries[j]).1,
            ) is Some by {
                assert(bundle.sources@[j].0@ == entries[j].0);
            }
            assert(bundle.files() =~= entries.map_values(
                |file: (Seq<char>, Json)| (file.0, file_content(file.1).unwrap()),
            ));
            if names_distinct_throughout(document@) {
                reveal_with_fuel(names_distinct_throughout, 2);
                lemma_member_is_listed(members_model(members@), "sources"@);
                assert(distinct_names(entries));
                assert forall|i: int, j: int|
                    0 <= i < j < bundle.sources@.len() implies bundle.sources@[i].0@
                    != bundle.sources@[j].0@ by {
                    assert(entries[i].0 != entries[j].0);
                }
            }
        }
        Some(bundle)
    }

    /// Reads a bundle from JSON text.
    pub fn from_string(string: &str) -> (bundle: Result<Self, BundleError>)
        ensures
            match bundle {
                Ok(sources) => {
                    &&& bundle_files(string@) == Some(sources.files())
                    &&& sources.well_formed()
                },
                Err(BundleError::Syntax) => json_parse(string@) is None,
                Err(BundleError::Shape) => json_parse(string@) is Some && bundle_files(string@)
                    is None,
            },
    {
        match JsonValue::parse(string) {
            Some(document) => match Self::from_json(&document) {
                Some(sources) => Ok(sources),
                None => Err(BundleError::Shape),
            },
            None => Err(BundleError::Syntax),
        }
    }
}

fn read_content(file: &JsonValue) -> (content: Option<String>)
    ensures
        match content {
            Some(text) => file_content(file@) == Some(text@),
            None => file_content(file@) is None,
        },
{
    let members = match file {
        JsonValue::Object(members) => members,
        _ => {
            return None;
        },
    };
    proof {
        lemma_object_view(*members);
    }
    match find_member(members, "content") {
        Some(JsonValue::Text(text)) => Some(text.clone()),
        _ => None,
    }
}

} // verus!
