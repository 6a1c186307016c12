use vstd::prelude::*;

use crate::class::{class_named, Class};
use crate::yaml::{find, lookup, parse_document, yaml_document, Node};

verus! {

/// A skill attached to a job.
#[derive(Debug)]
pub struct Skill {
    pub name: String,
    pub src: String,
    pub modifier: String,
    pub tag: Option<Vec<String>>,
}

/// A playable job of one class.
#[derive(Debug)]
pub struct Job {
    pub name: String,
    /// Names the job's image: `assets/jobs/<src>.png`.
    pub src: String,
    pub class: Class,
    pub branch: String,
    pub skills: Option<Vec<Skill>>,
}

/// Why a catalog text was refused.
#[derive(Clone, Copy, Debug, PartialEq, Eq, Structural)]
pub enum SchemaError {
    /// The text is not a YAML document.
    NotYaml,
    /// The document is not a list of job records.
    NotAList,
    /// The record at this position breaks the schema; it is the first such record.
    BadRecord(usize),
}

/// The string held by a text node.
pub open spec fn text_of(n: Option<Node>) -> Option<String> {
    match n {
        Some(Node::Text(s)) => Some(s),
        _ => None,
    }
}

/// Whether `n` is absent or null, as an optional field may be.
pub open spec fn absent(n: Option<Node>) -> bool {
    match n {
        None => true,
        Some(Node::Null) => true,
        _ => false,
    }
}

/// An optional list of strings.
pub open spec fn tags_valid(n: Option<Node>) -> bool {
    absent(n) || match n {
        Some(Node::List(xs)) => forall|i: int| 0 <= i < xs@.len() ==> (#[trigger] xs@[i]) is Text,
        _ => false,
    }
}

/// `t` holds what `n` holds.
pub open spec fn tags_match(t: Option<Vec<String>>, n: Option<Node>) -> bool {
    if absent(n) {
        t is None
    } else {
        match n {
            Some(Node::List(xs)) => t is Some && t->0@.len() == xs@.len() && forall|i: int|
                0 <= i < xs@.len() ==> (#[trigger] xs@[i]) == Node::Text(t->0@[i]),
            _ => false,
        }
    }
}

/// A skill record: `name`, `src` and `modifier` as text, `tag` optional.
pub open spec fn skill_valid(n: Node) -> bool {
    match n {
        Node::Dict(es) => {
            &&& text_of(lookup(es@, "name"@)) is Some
            &&& text_of(lookup(es@, "src"@)) is Some
            &&& text_of(lookup(es@, "modifier"@)) is Some
            &&& tags_valid(lookup(es@, "tag"@))
        },
        _ => false,
    }
}

/// `s` holds what the skill record `n` holds.
pub open spec fn skill_matches(s: Skill, n: Node) -> bool {
    match n {
        Node::Dict(es) => {
            &&& text_of(lookup(es@, "name"@)) == Some(s.name)
            &&& text_of(lookup(es@, "src"@)) == Some(s.src)
            &&& text_of(lookup(es@, "modifier"@)) == Some(s.modifier)
            &&& tags_match(s.tag, lookup(es@, "tag"@))
        },
        _ => false,
    }
}

/// An optional list of skill records.
pub open spec fn skills_valid(n: Option<Node>) -> bool {
    if absent(n) {
        true
    } else {
        match n {
            Some(Node::List(xs)) => forall|i: int| 0 <= i < xs@.len() ==> #[trigger] skill_valid(xs@[i]),
            _ => false,
        }
    }
}

/// `s` holds what `n` holds.
pub open spec fn skills_match(s: Option<Vec<Skill>>, n: Option<Node>) -> bool {
    if absent(n) {
        s is None
    } else {
        match n {
            Some(Node::List(xs)) => s is Some && s->0@.len() == xs@.len() && forall|i: int|
                0 <= i < xs@.len() ==> skill_matches(s->0@[i], #[trigger] xs@[i]),
            _ => false,
        }
    }
}

/// The class that the text field `class` of a record names.
pub open spec fn class_field(es: Seq<(Node, Node)>) -> Option<Class> {
    match text_of(lookup(es, "class"@)) {
        Some(c) => class_named(c@),
        None => None,
    }
}

/// A job record: `name`, `src` and `branch` as text, `class` naming a class,
/// `skills` optional.
pub open spec fn job_valid(n: Node) -> bool {
    match n {
        Node::Dict(es) => {
            &&& text_of(lookup(es@, "name"@)) is Some
            &&& text_of(lookup(es@, "src"@)) is Some
            &&& class_field(es@) is Some
            &&& text_of(lookup(es@, "branch"@)) is Some
            &&& skills_valid(lookup(es@, "skills"@))
        },
        _ => false,
    }
}

/// `j` holds what the job record `n` holds.
pub open spec fn job_matches(j: Job, n: Node) -> bool {
    match n {
        Node::Dict(es) => {
            &&& text_of(lookup(es@, "name"@)) == Some(j.name)
            &&& text_of(lookup(es@, "src"@)) == Some(j.src)
            &&& class_field(es@) == Some(j.class)
            &&& text_of(lookup(es@, "branch"@)) == Some(j.branch)
            &&& skills_match(j.skills, lookup(es@, "skills"@))
        },
        _ => false,
    }
}

/// What loading the document `doc` gives: its jobs in order where every record
/// is valid, else the first error.
pub open spec fn loaded(doc: Node, r: Result<Vec<Job>, SchemaError>) -> bool {
    match doc {
        Node::List(xs) => match r {
            Ok(jobs) => {
                &&& forall|i: int| 0 <= i < xs@.len() ==> job_valid(#[trigger] xs@[i])
                &&& jobs@.len() == xs@.len()
                &&& forall|i: int| 0 <= i < xs@.len() ==> job_matches(jobs@[i], #[trigger] xs@[i])
            },
            Err(SchemaError::BadRecord(k)) => {
                &&& k < xs@.len()
                &&& !job_valid(xs@[k as int])
                &&& forall|i: int| 0 <= i < k ==> job_valid(#[trigger] xs@[i])
            },
            Err(_) => false,
        },
        _ => r == Err::<Vec<Job>, SchemaError>(SchemaError::NotAList),
    }
}

fn text_field(entries: &Vec<(Node, Node)>, key: &str) -> (r: Option<String>)
    ensures
        r == text_of(lookup(entries@, key@)),
{
    match find(entries, key) {
        Some(Node::Text(s)) => Some(s.clone()),
        _ => None,
    }
}

fn read_tags(entries: &Vec<(Node, Node)>) -> (r: Option<Option<Vec<String>>>)
    ensures
        r is Some <==> tags_valid(lookup(entries@, "tag"@)),
        r matches Some(t) ==> tags_match(t, lookup(entries@, "tag"@)),
{
    match find(entries, "tag") {
        None => Some(None),
        Some(Node::Null) => Some(None),
        Some(Node::List(xs)) => {
            let mut tags: Vec<String> = Vec::new();
            let mut i: usize = 0;
            while i < xs.len()
                invariant
                    lookup(entries@, "tag"@) == Some(Node::List(*xs)),
                    i <= xs@.len(),
                    tags@.len() == i,
                    forall|j: int| 0 <= j < i ==> (#[trigger] xs@[j]) == Node::Text(tags@[j]),
                decreases xs.len() - i,
            {
                match &xs[i] {
                    Node::Text(s) => tags.push(s.clone()),
                    _ => {
                        assert(!(xs@[i as int] is Text));
                        return None;
                    },
                }
                i = i + 1;
            }
            Some(Some(tags))
        },
        _ => None,
    }
}

/// Reads one skill record; `None` where it breaks the schema.
pub fn read_skill(n: &Node) -> (r: Option<Skill>)
    ensures
        r is Some <==> skill_valid(*n),
        r matches Some(s) ==> skill_matches(s, *n),
{
    match n {
        Node::Dict(es) => {
            let name = text_field(es, "name");
            let src = text_field(es, "src");
            let modifier = text_field(es, "modifier");
            let tag = read_tags(es);
            match (name, src, modifier, tag) {
                (Some(name), Some(src), Some(modifier), Some(tag)) => Some(Skill { name, src, modifier, tag }),
                _ => None,
            }
        },
        _ => None,
    }
}

proof fn lemma_bad_skill(xs: Vec<Node>, i: int)
    requires
        0 <= i < xs@.len(),
        !skill_valid(xs@[i]),
    ensures
        !skills_valid(Some(Node::List(xs))),
{
    let n = Some(Node::List(xs));
    assert(!absent(n));
    assert(n->0->List_0 == xs);
}

fn read_skills(entries: &Vec<(Node, Node)>) -> (r: Option<Option<Vec<Skill>>>)
    ensures
        r is Some <==> skills_valid(lookup(entries@, "skills"@)),
        r matches Some(s) ==> skills_match(s, lookup(entries@, "skills"@)),
{
    match find(entries, "skills") {
        None => Some(None),
        Some(Node::Null) => Some(None),
        Some(Node::List(xs)) => {
            let mut skills: Vec<Skill> = Vec::new();
            let mut i: usize = 0;
            while i < xs.len()
                invariant
                    lookup(entries@, "skills"@) == Some(Node::List(*xs)),
                    i <= xs@.len(),
                    skills@.len() == i,
                    forall|j: int| 0 <= j < i ==> skill_matches(skills@[j], #[trigger] xs@[j]),
                    forall|j: int| 0 <= j < i ==> skill_valid(#[trigger] xs@[j]),
                decreases xs.len() - i,
            {
                match read_skill(&xs[i]) {
                    Some(s) => skills.push(s),
                    None => {
                        proof {
                            lemma_bad_skill(*xs, i as int);
                        }
                        return None;
                    },
                }
                i = i + 1;
            }
            Some(Some(skills))
        },
        _ => None,
    }
}

/// Reads one job record; `None` where it breaks the schema.
pub fn read_job(n: &Node) -> (r: Option<Job>)
    ensures
        r is Some <==> job_valid(*n),
        r matches Some(j) ==> job_matches(j, *n),
{
    match n {
        Node::Dict(es) => {
            let name = text_field(es, "name");
            let src = text_field(es, "src");
            let class = match text_field(es, "class") {
                Some(c) => Class::from_name(c.as_str()),
                None => None,
            };
            let branch = text_field(es, "branch");
            let skills = read_skills(es);
            match (name, src, class, branch, skills) {
                (Some(name), Some(src), Some(class), Some(branch), Some(skills)) => Some(
                    Job { name, src, class, branch, skills },
                ),
                _ => None,
            }
        },
        _ => None,
    }
}

/// Reads a parsed catalog document: a list of job records.
pub fn load_document(doc: &Node) -> (r: Result<Vec<Job>, SchemaError>)
    ensures
        loaded(*doc, r),
{
    match doc {
        Node::List(xs) => {
            let mut jobs: Vec<Job> = Vec::new();
            let mut i: usize = 0;
            while i < xs.len()
                invariant
                    *doc == Node::List(*xs),
                    i <= xs@.len(),
                    jobs@.len() == i,
                    forall|j: int| 0 <= j < i ==> job_matches(jobs@[j], #[trigger] xs@[j]),
                    forall|j: int| 0 <= j < i ==> job_valid(#[trigger] xs@[j]),
                decreases xs.len() - i,
            {
                match read_job(&xs[i]) {
                    Some(j) => jobs.push(j),
                    None => {
                        assert(!job_valid(xs@[i as int]));
                        return Err(SchemaError::BadRecord(i));
                    },
                }
                i = i + 1;
            }
            Ok(jobs)
        },
        _ => Err(SchemaError::NotAList),
    }
}

/// Loads the catalog from its YAML text.
pub fn load(text: &str) -> (r: Result<Vec<Job>, SchemaError>)
    ensures
        match yaml_document(text@) {
            None => r == Err::<Vec<Job>, SchemaError>(SchemaError::NotYaml),
            Some(doc) => loaded(doc, r),
        },
{
    match parse_document(text) {
        None => Err(SchemaError::NotYaml),
        Some(doc) => load_document(&doc),
    }
}

} // verus!
