//! The template registry: a read-only table from template key to template
//! record, and the rules that pick and check a template.
use vstd::prelude::*;

use crate::text::{
    cat3, compare_keys, contains, is_infix, key_lt, lemma_key_lt_irreflexive, lemma_key_lt_total,
    lemma_key_lt_transitive, starts_with, str_eq,
};

verus! {

/// A template that projects can be generated from.
#[derive(Debug, Clone)]
pub struct TemplateInfo {
    /// Display name.
    pub name: String,
    /// What the template provides.
    pub description: String,
    /// Git repository that holds the template.
    pub repository: String,
    /// Folder of the template inside the repository.
    pub subfolder: String,
    /// Frameworks the template is built on.
    pub frameworks: Vec<String>,
    /// Revision the template is pinned to, if any.
    pub revision: Option<String>,
}

/// The templates by key, kept in ascending order of key, each key once.
#[derive(Debug)]
pub struct TemplateRegistry {
    templates: Vec<(String, TemplateInfo)>,
}

/// Keys strictly ascend, so each occurs once.
pub open spec fn keys_ascending(entries: Seq<(String, TemplateInfo)>) -> bool {
    forall|i: int, j: int|
        0 <= i < j < entries.len() ==> #[trigger] key_lt(entries[i].0@, entries[j].0@)
}

impl View for TemplateRegistry {
    type V = Seq<(String, TemplateInfo)>;

    closed spec fn view(&self) -> Seq<(String, TemplateInfo)> {
        self.templates@
    }
}

/// Why a template could not be picked or used.
#[derive(Debug, Clone)]
pub enum TemplateError {
    /// No template was named and none is configured as the default.
    NoTemplateSpecified,
    /// The registry has no template under this key.
    TemplateNotFound(String),
    /// The template names no repository.
    RepositoryEmpty,
    /// The template names no subfolder.
    SubfolderEmpty,
    /// The repository is not a git URL.
    InvalidRepository,
}

/// Some entry has key `k`.
pub open spec fn has_key(entries: Seq<(String, TemplateInfo)>, k: Seq<char>) -> bool {
    exists|i: int| 0 <= i < entries.len() && #[trigger] entries[i].0@ == k
}

/// Entry `i` is the first with key `k`.
pub open spec fn first_match(entries: Seq<(String, TemplateInfo)>, k: Seq<char>, i: int) -> bool {
    &&& 0 <= i < entries.len()
    &&& entries[i].0@ == k
    &&& forall|j: int| 0 <= j < i ==> #[trigger] entries[j].0@ != k
}

/// The key a run uses: the one named on the command line, else the configured default.
pub open spec fn chosen_key(cli: Option<String>, configured: Option<String>) -> Option<Seq<char>> {
    match cli {
        Some(k) => Some(k@),
        None => match configured {
            Some(k) => Some(k@),
            None => None,
        },
    }
}

/// The repository looks like a git URL.
pub open spec fn git_url(r: Seq<char>) -> bool {
    is_infix(r, "github.com"@) || "git@"@.is_prefix_of(r) || "https://"@.is_prefix_of(r)
}

/// What is wrong with a template record, checked in order: an empty repository,
/// an empty subfolder, a repository that is no git URL.
pub open spec fn template_problem(t: TemplateInfo) -> Option<TemplateError> {
    if t.repository@.len() == 0 {
        Some(TemplateError::RepositoryEmpty)
    } else if t.subfolder@.len() == 0 {
        Some(TemplateError::SubfolderEmpty)
    } else if !git_url(t.repository@) {
        Some(TemplateError::InvalidRepository)
    } else {
        None
    }
}

/// The sentence that describes a template error.
pub open spec fn template_message(e: TemplateError) -> Seq<char> {
    match e {
        TemplateError::NoTemplateSpecified => "No template specified and no default_template configured. Use 'cza config set user.default_template <template>' to set a default, or specify a template: 'cza new <project_name> --template <template>'"@,
        TemplateError::TemplateNotFound(k) => "Template '"@ + k@
            + "' not found. Use 'cza list' to see available templates."@,
        TemplateError::RepositoryEmpty => "Template repository URL cannot be empty"@,
        TemplateError::SubfolderEmpty => "Template subfolder cannot be empty"@,
        TemplateError::InvalidRepository => "Template repository must be a valid git URL"@,
    }
}

impl TemplateError {
    /// A sentence that describes the error and what to do about it.
    pub fn message(&self) -> (r: String)
        ensures
            r@ == template_message(*self),
    {
        match self {
            TemplateError::NoTemplateSpecified => String::from_str(
                "No template specified and no default_template configured. Use 'cza config set user.default_template <template>' to set a default, or specify a template: 'cza new <project_name> --template <template>'",
            ),
            TemplateError::TemplateNotFound(k) => cat3(
                "Template '",
                k.as_str(),
                "' not found. Use 'cza list' to see available templates.",
            ),
            TemplateError::RepositoryEmpty => String::from_str(
                "Template repository URL cannot be empty",
            ),
            TemplateError::SubfolderEmpty => String::from_str("Template subfolder cannot be empty"),
            TemplateError::InvalidRepository => String::from_str(
                "Template repository must be a valid git URL",
            ),
        }
    }
}

/// Checks that a template names a subfolder and a repository that looks like a git URL.
pub fn validate_template(template_info: &TemplateInfo) -> (r: Result<(), TemplateError>)
    ensures
        match template_problem(*template_info) {
            None => r is Ok,
            Some(e) => r == Err::<(), TemplateError>(e),
        },
{
    if template_info.repository.as_str().unicode_len() == 0 {
        return Err(TemplateError::RepositoryEmpty);
    }
    if template_info.subfolder.as_str().unicode_len() == 0 {
        return Err(TemplateError::SubfolderEmpty);
    }
    let repo = template_info.repository.as_str();
    if !contains(repo, "github.com") && !starts_with(repo, "git@") && !starts_with(
        repo,
        "https://",
    ) {
        return Err(TemplateError::InvalidRepository);
    }
    Ok(())
}

impl TemplateRegistry {
    #[verifier::type_invariant]
    spec fn keys_in_order(&self) -> bool {
        keys_ascending(self@)
    }

    /// A registry with no templates.
    pub fn new() -> (r: TemplateRegistry)
        ensures
            r@.len() == 0,
    {
        TemplateRegistry { templates: Vec::new() }
    }

    /// The templates with their keys, in ascending order of key.
    pub fn templates(&self) -> (r: &Vec<(String, TemplateInfo)>)
        ensures
            r@ == self@,
            keys_ascending(self@),
    {
        proof {
            use_type_invariant(self);
        }
        &self.templates
    }

    /// Where the template with this key stands.
    pub fn position(&self, key: &str) -> (r: Option<usize>)
        ensures
            match r {
                Some(i) => first_match(self@, key@, i as int),
                None => !has_key(self@, key@),
            },
    {
        let mut i: usize = 0;
        while i < self.templates.len()
            invariant
                i <= self@.len(),
                self.templates@ == self@,
                forall|j: int| 0 <= j < i ==> #[trigger] self@[j].0@ != key@,
            decreases self@.len() - i,
        {
            if str_eq(self.templates[i].0.as_str(), key) {
                return Some(i);
            }
            i = i + 1;
        }
        None
    }

    /// The template under a key; exact, case-sensitive match.
    pub fn get(&self, key: &str) -> (r: Option<&TemplateInfo>)
        ensures
            r is Some <==> has_key(self@, key@),
            r is Some ==> exists|i: int|
                first_match(self@, key@, i) && *r->0 == #[trigger] self@[i].1,
    {
        match self.position(key) {
            Some(i) => Some(&self.templates[i].1),
            None => None,
        }
    }

    /// Adds a template under a key at its place in key order, replacing the
    /// template already under that key.
    pub fn insert(&mut self, key: String, info: TemplateInfo)
        ensures
            keys_ascending(final(self)@),
            has_key(old(self)@, key@) ==> exists|i: int|
                first_match(old(self)@, key@, i) && final(self)@ == #[trigger] old(self)@.update(
                    i,
                    (key, info),
                ),
            !has_key(old(self)@, key@) ==> exists|i: int|
                0 <= i <= old(self)@.len() && final(self)@ == #[trigger] old(self)@.insert(
                    i,
                    (key, info),
                ),
    {
        proof {
            use_type_invariant(&*self);
        }
        let ghost before = self@;
        let mut taken = TemplateRegistry::new();
        core::mem::swap(self, &mut taken);
        let mut v = taken.templates;
        let n = v.len();
        let mut i: usize = 0;
        while i < n && compare_keys(v[i].0.as_str(), key.as_str()) < 0
            invariant
                n == v@.len(),
                i <= n,
                v@ == before,
                keys_ascending(before),
                forall|j: int| 0 <= j < i ==> #[trigger] key_lt(before[j].0@, key@),
            decreases n - i,
        {
            i = i + 1;
        }
        proof {
            lemma_key_lt_irreflexive(key@);
            assert forall|j: int| 0 <= j < i implies #[trigger] before[j].0@ != key@ by {
                if before[j].0@ == key@ {
                    lemma_key_lt_irreflexive(key@);
                }
            }
        }
        if i < n && compare_keys(v[i].0.as_str(), key.as_str()) == 0 {
            v.set(i, (key, info));
            proof {
                assert(first_match(before, key@, i as int));
                assert forall|p: int, q: int| 0 <= p < q < v@.len() implies #[trigger] key_lt(
                    v@[p].0@,
                    v@[q].0@,
                ) by {
                    assert(v@[p].0@ == before[p].0@);
                    assert(v@[q].0@ == before[q].0@);
                }
            }
        } else {
            proof {
                if i < n {
                    lemma_key_lt_total(before[i as int].0@, key@);
                    assert(key_lt(key@, before[i as int].0@));
                }
                assert forall|j: int| i <= j < n implies key_lt(key@, #[trigger] before[j].0@) by {
                    if j > i {
                        lemma_key_lt_transitive(key@, before[i as int].0@, before[j].0@);
                    }
                }
                assert forall|j: int| 0 <= j < n implies #[trigger] before[j].0@ != key@ by {
                    if j >= i {
                        lemma_key_lt_irreflexive(key@);
                    }
                }
            }
            v.insert(i, (key, info));
            proof {
                assert forall|p: int, q: int| 0 <= p < q < v@.len() implies #[trigger] key_lt(
                    v@[p].0@,
                    v@[q].0@,
                ) by {
                    if q < i {
                        assert(v@[p] == before[p] && v@[q] == before[q]);
                    } else if q == i {
                        assert(v@[p] == before[p]);
                    } else if p < i {
                        assert(v@[p] == before[p] && v@[q] == before[q - 1]);
                        lemma_key_lt_transitive(before[p].0@, key@, before[q - 1].0@);
                    } else if p == i {
                        assert(v@[q] == before[q - 1]);
                    } else {
                        assert(v@[p] == before[p - 1] && v@[q] == before[q - 1]);
                    }
                }
            }
        }
        *self = TemplateRegistry { templates: v };
    }

    /// Picks the template for a run: the key named on the command line wins,
    /// else the configured default; the key must then be in the registry.
    pub fn resolve(&self, cli: &Option<String>, configured: &Option<String>) -> (r: Result<
        (String, &TemplateInfo),
        TemplateError,
    >)
        ensures
            chosen_key(*cli, *configured) is None ==> r == Err::<(String, &TemplateInfo), TemplateError>(
                TemplateError::NoTemplateSpecified,
            ),
            chosen_key(*cli, *configured) is Some ==> {
                let k = chosen_key(*cli, *configured)->0;
                &&& (r is Ok <==> has_key(self@, k))
                &&& r is Ok ==> r->Ok_0.0@ == k && exists|i: int|
                    first_match(self@, k, i) && *r->Ok_0.1 == #[trigger] self@[i].1
                &&& r is Err ==> (match r {
                    Err(TemplateError::TemplateNotFound(n)) => n@ == k,
                    _ => false,
                })
            },
    {
        let key: &String = match cli {
            Some(k) => k,
            None => match configured {
                Some(k) => k,
                None => {
                    return Err(TemplateError::NoTemplateSpecified);
                },
            },
        };
        match self.get(key.as_str()) {
            Some(info) => Ok((key.clone(), info)),
            None => Err(TemplateError::TemplateNotFound(key.clone())),
        }
    }
}

} // verus!
