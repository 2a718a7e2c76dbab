//! Skill files: what a website can be asked to do, and where its file lies.

use std::collections::HashMap;
use vstd::prelude::*;

verus! {

/// The skills of one website.
#[derive(Debug)]
pub struct WebsiteSkills {
    pub domain: String,
    pub skills: Vec<SkillDefinition>,
}

/// One skill: a named sequence of steps.
#[derive(Debug)]
pub struct SkillDefinition {
    pub name: String,
    pub description: String,
    pub input: Option<HashMap<String, String>>,
    pub output: Option<String>,
    pub steps: Vec<SkillStep>,
}

/// One step of a skill.
#[derive(Debug)]
pub struct SkillStep {
    pub action: String,
    pub selector: Option<String>,
    pub input_key: Option<String>,
    pub index: Option<u32>,
    pub output_key: Option<String>,
}

/// A text, or its default.
pub open spec fn text_or(given: Option<Seq<char>>, default: Seq<char>) -> Seq<char> {
    match given {
        Some(t) => t,
        None => default,
    }
}

/// The address of the skill file of a domain. The company defaults to
/// `runtime-pro` and the repository to `sk`.
pub open spec fn skill_url(
    domain: Seq<char>,
    company: Option<Seq<char>>,
    repo: Option<Seq<char>>,
    branch: Seq<char>,
) -> Seq<char> {
    "https://raw.githubusercontent.com/"@ + text_or(company, "runtime-pro"@) + "/"@ + text_or(
        repo,
        "sk"@,
    ) + "/"@ + branch + "/skills/"@ + domain + ".json"@
}

/// The address from which the skill file of a domain is fetched.
pub fn skill_file_url(domain: &str, company: Option<&str>, repo: Option<&str>, branch: &str) -> (url:
    String)
    ensures
        url@ == skill_url(
            domain@,
            match company {
                Some(c) => Some(c@),
                None => None,
            },
            match repo {
                Some(r) => Some(r@),
                None => None,
            },
            branch@,
        ),
{
    let mut url = String::from_str("https://raw.githubusercontent.com/");
    match company {
        Some(c) => url.append(c),
        None => url.append("runtime-pro"),
    }
    url.append("/");
    match repo {
        Some(r) => url.append(r),
        None => url.append("sk"),
    }
    url.append("/");
    url.append(branch);
    url.append("/skills/");
    url.append(domain);
    url.append(".json");
    url
}

} // verus!
