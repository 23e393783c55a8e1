//! Creating a project: the name rules, author resolution, template choice and
//! the generation request, up to the call that materializes the template.
use vstd::prelude::*;

use crate::config::{opt_view, Config};
use crate::output::{header, info, lines_view, push_line, step, success, Line, LineView};
use crate::pipeline::{wf_view, Pipeline, PipelineSettings};
use crate::template::{chosen_key, first_match, has_key, TemplateError, TemplateInfo, TemplateRegistry};
use crate::text::{cat, cat3, join, join_spec, views};

verus! {

/// The arguments of `new`.
#[derive(Debug, Clone)]
pub struct NewArgs {
    /// Name of the project, and of its directory.
    pub project_name: String,
    /// Template key; the configured default when absent.
    pub template: Option<String>,
    /// Author; from the settings or the version-control identity when absent.
    pub author: Option<String>,
    /// Skip git initialization, whatever the settings say.
    pub no_git: bool,
    /// Show what would be generated, and generate nothing.
    pub dry_run: bool,
}

/// The `new` command.
#[derive(Debug, Clone, Copy)]
pub struct NewCommand;

/// Why a project name is refused.
#[derive(Debug, Clone)]
pub enum NameError {
    /// The name is empty.
    Empty,
    /// The name does not start with a letter.
    BadStart,
    /// The name holds a character other than letters, digits, `-` and `_`.
    BadCharacter,
    /// A directory of that name exists, and overwriting is not allowed.
    AlreadyExists(String),
}

/// A name that passed the rules.
#[derive(Debug, Clone, Copy, PartialEq, Eq, Structural)]
pub enum NameCheck {
    /// Nothing stands at that name yet.
    Available,
    /// Something stands there; generation goes ahead, with a warning.
    ExistsProceeding,
}

/// Why `new` stops before generating.
#[derive(Debug, Clone)]
pub enum NewError {
    Template(TemplateError),
    Name(NameError),
    /// The template could not be materialized; the cause, as text.
    Materialize(String),
}

/// What `char::is_alphanumeric` says of a character.
pub uninterp spec fn alphanumeric(c: char) -> bool;

/// An ASCII letter.
pub open spec fn ascii_alpha(c: char) -> bool {
    ('a' as u32 <= c as u32 && c as u32 <= 'z' as u32) || ('A' as u32 <= c as u32 && c as u32
        <= 'Z' as u32)
}

/// An ASCII letter or digit.
pub open spec fn ascii_alnum(c: char) -> bool {
    ('a' as int <= c as int <= 'z' as int) || ('A' as int <= c as int <= 'Z' as int) || ('0' as int
        <= c as int <= '9' as int)
}

/// Relies on `char::is_alphanumeric`: letters and digits in the Unicode sense;
/// the result depends on the character alone, and on ASCII it agrees with
/// `char::is_ascii_alphanumeric`.
#[verifier::external_body]
fn is_alphanumeric(c: char) -> (r: bool)
    ensures
        r == alphanumeric(c),
        (c as int) < 128 ==> r == ascii_alnum(c),
{
    c.is_alphanumeric()
}

/// A character allowed in a project name: a letter or digit, `-` or `_`.
/// Within ASCII the letters and digits are `a`-`z`, `A`-`Z` and `0`-`9`.
pub open spec fn name_char(c: char) -> bool {
    if (c as int) < 128 {
        ascii_alnum(c) || c == '-' || c == '_'
    } else {
        alphanumeric(c)
    }
}

/// The first rule a name breaks: empty, not starting with an ASCII letter,
/// holding a character other than a letter, digit, `-` or `_`.
pub open spec fn name_problem(name: Seq<char>) -> Option<NameError> {
    if name.len() == 0 {
        Some(NameError::Empty)
    } else if !ascii_alpha(name[0]) {
        Some(NameError::BadStart)
    } else if exists|i: int| 0 <= i < name.len() && !name_char(#[trigger] name[i]) {
        Some(NameError::BadCharacter)
    } else {
        None
    }
}

/// `r` is what checking `name` gives: the first rule it breaks, else, when
/// something stands at that name, a refusal if overwrites need confirming and
/// a warning otherwise.
pub open spec fn name_verdict(
    name: Seq<char>,
    confirm_overwrite: bool,
    target_exists: bool,
    r: Result<NameCheck, NameError>,
) -> bool {
    match name_problem(name) {
        Some(e) => match (e, r) {
            (NameError::Empty, Err(NameError::Empty)) => true,
            (NameError::BadStart, Err(NameError::BadStart)) => true,
            (NameError::BadCharacter, Err(NameError::BadCharacter)) => true,
            _ => false,
        },
        None => match r {
            Ok(NameCheck::Available) => !target_exists,
            Ok(NameCheck::ExistsProceeding) => target_exists && !confirm_overwrite,
            Err(NameError::AlreadyExists(n)) => target_exists && confirm_overwrite && n@ == name,
            Err(_) => false,
        },
    }
}

/// A text that is there and not empty.
pub open spec fn present(o: Option<String>) -> Option<Seq<char>> {
    match o {
        Some(s) => if s@.len() > 0 {
            Some(s@)
        } else {
            None
        },
        None => None,
    }
}

/// The author: the first present of the command line, the settings and the
/// version-control identity, else `Developer`.
pub open spec fn author_spec(cli: Option<String>, configured: Option<String>, vcs: Option<String>) -> Seq<char> {
    if present(cli) is Some {
        present(cli)->0
    } else if present(configured) is Some {
        present(configured)->0
    } else if present(vcs) is Some {
        present(vcs)->0
    } else {
        "Developer"@
    }
}

/// The template variables of a project.
pub open spec fn defines_spec(name: Seq<char>, author: Seq<char>, email: Option<String>) -> Seq<Seq<char>> {
    let base = seq!["project_name="@ + name, "author="@ + author];
    match present(email) {
        Some(e) => base.push("author_email="@ + e),
        None => base,
    }
}

/// The sentence that describes a name error.
pub open spec fn name_message(e: NameError) -> Seq<char> {
    match e {
        NameError::Empty => "Project name cannot be empty"@,
        NameError::BadStart => "Project name must start with a letter"@,
        NameError::BadCharacter => "Project name can only contain alphanumeric characters, hyphens, and underscores"@,
        NameError::AlreadyExists(n) => "Directory '"@ + n@
            + "' already exists. Remove it first or choose a different name."@,
    }
}

impl NameError {
    /// A sentence that describes the error.
    pub fn message(&self) -> (r: String)
        ensures
            r@ == name_message(*self),
    {
        match self {
            NameError::Empty => String::from_str("Project name cannot be empty"),
            NameError::BadStart => String::from_str("Project name must start with a letter"),
            NameError::BadCharacter => String::from_str(
                "Project name can only contain alphanumeric characters, hyphens, and underscores",
            ),
            NameError::AlreadyExists(n) => cat3(
                "Directory '",
                n.as_str(),
                "' already exists. Remove it first or choose a different name.",
            ),
        }
    }
}

impl NewError {
    /// A sentence that describes the error.
    pub fn message(&self) -> (r: String)
        ensures
            r@ == match self {
                NewError::Template(e) => crate::template::template_message(*e),
                NewError::Name(e) => name_message(*e),
                NewError::Materialize(c) => "Failed to generate project: "@ + c@,
            },
    {
        match self {
            NewError::Template(e) => e.message(),
            NewError::Name(e) => e.message(),
            NewError::Materialize(cause) => cat("Failed to generate project: ", cause.as_str()),
        }
    }
}

/// A text that is there and not empty, copied.
fn present_text(o: &Option<String>) -> (r: Option<String>)
    ensures
        opt_view(r) == present(*o),
{
    match o {
        Some(s) => if s.as_str().unicode_len() > 0 {
            Some(s.clone())
        } else {
            None
        },
        None => None,
    }
}

/// Whether every character of a name is allowed.
fn all_name_chars(name: &str) -> (r: bool)
    ensures
        r == (forall|i: int| 0 <= i < name@.len() ==> name_char(#[trigger] name@[i])),
{
    let chars = crate::text::chars_of(name);
    let mut i: usize = 0;
    while i < chars.len()
        invariant
            chars@ == name@,
            i <= chars@.len(),
            forall|j: int| 0 <= j < i ==> name_char(#[trigger] name@[j]),
        decreases chars@.len() - i,
    {
        let c = chars[i];
        let allowed = if c <= '~' {
            ('a' <= c && c <= 'z') || ('A' <= c && c <= 'Z') || ('0' <= c && c <= '9') || c == '-'
                || c == '_'
        } else {
            is_alphanumeric(c)
        };
        if !allowed {
            assert(!name_char(name@[i as int]));
            return false;
        }
        i = i + 1;
    }
    true
}

/// The text `Directory '<name>' already exists, proceeding anyway`.
pub open spec fn proceeding_text(name: Seq<char>) -> Seq<char> {
    "Directory '"@ + name + "' already exists, proceeding anyway"@
}

/// The lines of a dry-run preview.
pub open spec fn preview_view(name: Seq<char>, key: Seq<char>, t: TemplateInfo) -> Seq<LineView> {
    seq![
        crate::output::blank_view(),
        crate::output::out_line(
            None,
            seq![("Dry Run Preview"@, crate::output::st(crate::output::Color::Default, true, false, true))],
        ),
        crate::output::blank_view(),
        crate::output::info_view("Project name: "@ + name),
        crate::output::info_view("Template: "@ + key),
        crate::output::info_view("Repository: "@ + t.repository@),
        crate::output::info_view("Subfolder: "@ + t.subfolder@),
        crate::output::info_view("Frameworks: "@ + join_spec(views(t.frameworks@), ", "@)),
        crate::output::step_view("What would be created:"@),
        crate::output::info_view("  \u{1f4c1} ./"@ + name + "/"@),
        crate::output::info_view("    \u{251c}\u{2500}\u{2500} Cargo.toml (ZK framework dependencies)"@),
        crate::output::info_view("    \u{251c}\u{2500}\u{2500} mise.toml (development tools)"@),
        crate::output::info_view("    \u{251c}\u{2500}\u{2500} package.json (frontend dependencies)"@),
        crate::output::info_view("    \u{251c}\u{2500}\u{2500} src/ (ZK circuit code)"@),
        crate::output::info_view("    \u{2514}\u{2500}\u{2500} web/ (frontend application)"@),
        crate::output::step_view("Post-generation setup that would run:"@),
        crate::output::info_view("  1. git init (if enabled in config)"@),
        crate::output::info_view("  2. mise install (if auto_install_deps enabled)"@),
        crate::output::info_view("  3. hk install (if auto_setup_hooks enabled)"@),
        crate::output::success_view("Preview complete! Remove --dry-run to create the project."@),
    ]
}

/// `r` is the request for `args`, the settings, the template and the looked-up identity.
pub open spec fn is_request(
    r: GenerationRequest,
    args: NewArgs,
    config: Config,
    template: TemplateInfo,
    vcs_author: Option<String>,
) -> bool {
    &&& r.project_name@ == args.project_name@
    &&& r.repository@ == template.repository@
    &&& r.subfolder@ == template.subfolder@
    &&& r.author@ == author_spec(args.author, config.user.author, vcs_author)
    &&& views(r.defines@) == defines_spec(args.project_name@, r.author@, config.user.email)
}

/// What `new` asks the caller to do once the template and the name are settled.
#[derive(Debug)]
pub enum NewStep<'a> {
    /// Dry run: print these lines. Nothing is materialized and no setup step runs.
    Preview(Vec<Line>),
    /// Look up the version-control identity, then build the request.
    LookUpAuthor(Prepared<'a>),
    /// Materialize this request.
    Generate(GenerationRequest),
}

/// What `new` found before generating: the template and how the name stands.
#[derive(Debug)]
pub struct Prepared<'a> {
    pub template_key: String,
    pub template: &'a TemplateInfo,
    pub name_check: NameCheck,
}

/// What the materializer is asked for.
#[derive(Debug, Clone)]
pub struct GenerationRequest {
    pub project_name: String,
    pub repository: String,
    pub subfolder: String,
    pub author: String,
    /// The template variables, each written `name=value`.
    pub defines: Vec<String>,
}

impl NewCommand {
    /// Checks a project name, in order: not empty, starts with a letter, holds
    /// only letters, digits, `-` and `_`. Then, if something already stands at
    /// that name (`target_exists`), refuses it when the settings ask to confirm
    /// overwrites and lets it through with a warning otherwise.
    pub fn validate_project_name(&self, name: &str, config: &Config, target_exists: bool) -> (r:
        Result<NameCheck, NameError>)
        ensures
            name_verdict(name@, config@.confirm_overwrite, target_exists, r),
    {
        let n = name.unicode_len();
        if n == 0 {
            return Err(NameError::Empty);
        }
        let first = name.get_char(0);
        let u = first as u32;
        if !((97 <= u && u <= 122) || (65 <= u && u <= 90)) {
            return Err(NameError::BadStart);
        }
        if !all_name_chars(name) {
            return Err(NameError::BadCharacter);
        }
        if target_exists {
            if config.development.confirm_overwrite {
                return Err(NameError::AlreadyExists(String::from_str(name)));
            }
            return Ok(NameCheck::ExistsProceeding);
        }
        Ok(NameCheck::Available)
    }

    /// The warning shown when generation goes ahead over an existing directory.
    pub fn overwrite_warning(&self, name: &str) -> (r: Line)
        ensures
            r@ == crate::output::warning_view(proceeding_text(name@)),
    {
        crate::output::warning(
            cat3("Directory '", name, "' already exists, proceeding anyway").as_str(),
        )
    }

    /// Whether the version-control identity is needed: only when neither the
    /// command line nor the settings give an author.
    pub fn needs_git_author(&self, cli: &Option<String>, configured: &Option<String>) -> (r: bool)
        ensures
            r == (present(*cli) is None && present(*configured) is None),
    {
        present_text(cli).is_none() && present_text(configured).is_none()
    }

    /// The version-control identity from how `git config user.name` ran:
    /// `None` if it failed or printed only white space.
    pub fn get_git_author(&self, succeeded: bool, printed: &str) -> (r: Option<String>)
        ensures
            (r is Some) <==> (succeeded && crate::utils::trimmed_of(printed@).len() > 0),
            r is Some ==> r->0@ == crate::utils::trimmed_of(printed@),
    {
        crate::utils::git_config_value(succeeded, printed)
    }

    /// The author: the first present of the command line, the settings and the
    /// version-control identity, else `Developer`.
    pub fn resolve_author(
        &self,
        cli: &Option<String>,
        configured: &Option<String>,
        vcs: &Option<String>,
    ) -> (r: String)
        ensures
            r@ == author_spec(*cli, *configured, *vcs),
    {
        if let Some(a) = present_text(cli) {
            return a;
        }
        if let Some(a) = present_text(configured) {
            return a;
        }
        if let Some(a) = present_text(vcs) {
            return a;
        }
        String::from_str("Developer")
    }

    /// Picks the template and checks the project name, in that order.
    pub fn prepare<'a>(
        &self,
        args: &NewArgs,
        config: &Config,
        registry: &'a TemplateRegistry,
        target_exists: bool,
    ) -> (r: Result<Prepared<'a>, NewError>)
        ensures
            match chosen_key(args.template, config.user.default_template) {
                None => r matches Err(NewError::Template(TemplateError::NoTemplateSpecified)),
                Some(k) => if !has_key(registry@, k) {
                    match r {
                        Err(NewError::Template(TemplateError::TemplateNotFound(n))) => n@ == k,
                        _ => false,
                    }
                } else {
                    match r {
                        Ok(p) => {
                            &&& p.template_key@ == k
                            &&& exists|i: int|
                                first_match(registry@, k, i) && *p.template
                                    == #[trigger] registry@[i].1
                            &&& name_verdict(
                                args.project_name@,
                                config@.confirm_overwrite,
                                target_exists,
                                Ok(p.name_check),
                            )
                        },
                        Err(NewError::Name(e)) => name_verdict(
                            args.project_name@,
                            config@.confirm_overwrite,
                            target_exists,
                            Err(e),
                        ),
                        _ => false,
                    }
                },
            },
    {
        let (key, template) = match registry.resolve(&args.template, &config.user.default_template) {
            Ok(found) => found,
            Err(e) => {
                return Err(NewError::Template(e));
            },
        };
        match self.validate_project_name(args.project_name.as_str(), config, target_exists) {
            Ok(name_check) => Ok(Prepared { template_key: key, template, name_check }),
            Err(e) => Err(NewError::Name(e)),
        }
    }

    /// The request for the materializer: the template's source, the project
    /// name, the resolved author, and the template variables, the email only
    /// when the settings hold one.
    pub fn request(
        &self,
        args: &NewArgs,
        config: &Config,
        template: &TemplateInfo,
        vcs_author: &Option<String>,
    ) -> (r: GenerationRequest)
        ensures
            is_request(r, *args, *config, *template, *vcs_author),
    {
        let author = self.resolve_author(&args.author, &config.user.author, vcs_author);
        let mut defines: Vec<String> = Vec::new();
        defines.push(cat("project_name=", args.project_name.as_str()));
        defines.push(cat("author=", author.as_str()));
        if let Some(email) = present_text(&config.user.email) {
            defines.push(cat("author_email=", email.as_str()));
        }
        assert(views(defines@) =~= defines_spec(args.project_name@, author@, config.user.email));
        GenerationRequest {
            project_name: args.project_name.clone(),
            repository: template.repository.clone(),
            subfolder: template.subfolder.clone(),
            author,
            defines,
        }
    }

    /// The dry-run preview: the project, the template's source and frameworks,
    /// what would be created and which setup steps would run.
    pub fn preview_template(&self, args: &NewArgs, template_name: &str, template_info: &TemplateInfo) -> (r:
        Vec<Line>)
        ensures
            lines_view(r@) == preview_view(args.project_name@, template_name@, *template_info),
    {
        let name = args.project_name.as_str();
        let mut r = header("Dry Run Preview");
        push_line(&mut r, info(cat("Project name: ", name).as_str()));
        push_line(&mut r, info(cat("Template: ", template_name).as_str()));
        push_line(&mut r, info(cat("Repository: ", template_info.repository.as_str()).as_str()));
        push_line(&mut r, info(cat("Subfolder: ", template_info.subfolder.as_str()).as_str()));
        let frameworks = join(&template_info.frameworks, ", ");
        push_line(&mut r, info(cat("Frameworks: ", frameworks.as_str()).as_str()));
        push_line(&mut r, step("What would be created:"));
        push_line(&mut r, info(cat3("  \u{1f4c1} ./", name, "/").as_str()));
        push_line(&mut r, info("    \u{251c}\u{2500}\u{2500} Cargo.toml (ZK framework dependencies)"));
        push_line(&mut r, info("    \u{251c}\u{2500}\u{2500} mise.toml (development tools)"));
        push_line(&mut r, info("    \u{251c}\u{2500}\u{2500} package.json (frontend dependencies)"));
        push_line(&mut r, info("    \u{251c}\u{2500}\u{2500} src/ (ZK circuit code)"));
        push_line(&mut r, info("    \u{2514}\u{2500}\u{2500} web/ (frontend application)"));
        push_line(&mut r, step("Post-generation setup that would run:"));
        push_line(&mut r, info("  1. git init (if enabled in config)"));
        push_line(&mut r, info("  2. mise install (if auto_install_deps enabled)"));
        push_line(&mut r, info("  3. hk install (if auto_setup_hooks enabled)"));
        push_line(&mut r, success("Preview complete! Remove --dry-run to create the project."));
        assert(lines_view(r@) =~= preview_view(args.project_name@, template_name@, *template_info));
        r
    }

    /// The step after preparing: a dry run only previews; otherwise the
    /// version-control identity is looked up first when no author is given,
    /// and the request is built straight away when one is.
    pub fn next_step<'a>(&self, args: &NewArgs, config: &Config, prepared: Prepared<'a>) -> (r:
        NewStep<'a>)
        ensures
            args.dry_run ==> (r matches NewStep::Preview(lines) && lines_view(lines@) == preview_view(
                args.project_name@,
                prepared.template_key@,
                *prepared.template,
            )),
            !args.dry_run && present(args.author) is None && present(config.user.author) is None
                ==> r == NewStep::LookUpAuthor(prepared),
            !args.dry_run && !(present(args.author) is None && present(config.user.author) is None)
                ==> (r matches NewStep::Generate(req) && is_request(
                req,
                *args,
                *config,
                *prepared.template,
                None,
            )),
    {
        if args.dry_run {
            let lines = self.preview_template(args, prepared.template_key.as_str(), prepared.template);
            NewStep::Preview(lines)
        } else if self.needs_git_author(&args.author, &config.user.author) {
            NewStep::LookUpAuthor(prepared)
        } else {
            NewStep::Generate(self.request(args, config, prepared.template, &None))
        }
    }

    /// After materializing: a failure ends the run with its cause; a success
    /// reports where the project is and starts the post-generation pipeline
    /// over that directory, whose failures never end the run.
    pub fn after_generation(
        &self,
        generated: Result<String, String>,
        config: &Config,
        no_git: bool,
    ) -> (r: Result<(Vec<Line>, Pipeline), NewError>)
        ensures
            match generated {
                Ok(dir) => r matches Ok((lines, p)) && lines_view(lines@) == seq![
                    crate::output::success_view("Project created successfully!"@),
                    crate::output::out_line(
                        Some(crate::output::Icon::Directory),
                        seq![
                            ("Location: "@, crate::output::plain_style()),
                            (dir@, crate::output::st(crate::output::Color::Magenta, true, false, false)),
                        ],
                    ),
                ] && p@.stage == 0 && p@.outcomes.len() == 0 && wf_view(p@)
                    && p@.settings.directory@ == dir@ && p@.settings.no_git == no_git && p@.settings.git_init == config@.git_init
                    && p@.settings.auto_install_deps == config@.auto_install_deps
                    && p@.settings.auto_setup_hooks == config@.auto_setup_hooks
                    && p@.settings.open_editor == config.post_generation.open_editor,
                Err(cause) => r matches Err(NewError::Materialize(c)) && c@ == cause@,
            },
    {
        match generated {
            Ok(dir) => {
                let mut lines: Vec<Line> = Vec::new();
                push_line(&mut lines, success("Project created successfully!"));
                push_line(&mut lines, crate::output::directory(dir.as_str()));
                let p = Pipeline::new(PipelineSettings::from_config(config, no_git, dir.as_str()));
                Ok((lines, p))
            },
            Err(cause) => Err(NewError::Materialize(cause)),
        }
    }

    /// What to do once the project exists.
    pub fn next_steps(&self, project_name: &str) -> (r: Vec<Line>)
        ensures
            lines_view(r@) == crate::output::next_steps_view(seq!["cd "@ + project_name@, "mise run dev"@]),
    {
        let cd = cat("cd ", project_name);
        let steps: [&str; 2] = [cd.as_str(), "mise run dev"];
        let r = crate::output::next_steps(&steps);
        assert(steps@.map_values(|s: &str| s@) =~= seq!["cd "@ + project_name@, "mise run dev"@]);
        r
    }
}

/// A name that passes the rules meets an existing directory with a refusal
/// that names it when overwrites need confirming, and goes ahead with a
/// warning otherwise.
pub proof fn lemma_collision_policy(
    name: Seq<char>,
    confirm_overwrite: bool,
    r: Result<NameCheck, NameError>,
)
    requires
        name_problem(name) is None,
        name_verdict(name, confirm_overwrite, true, r),
    ensures
        confirm_overwrite ==> (r matches Err(NameError::AlreadyExists(n)) && n@ == name),
        !confirm_overwrite ==> r == Ok::<NameCheck, NameError>(NameCheck::ExistsProceeding),
{
}

/// The author never depends on the version-control identity when the command
/// line or the settings give one, so the lookup can be left out; and the author
/// is never empty.
pub proof fn lemma_author_lookup_lazy(
    cli: Option<String>,
    configured: Option<String>,
    vcs1: Option<String>,
    vcs2: Option<String>,
)
    ensures
        !(present(cli) is None && present(configured) is None) ==> author_spec(cli, configured, vcs1)
            == author_spec(cli, configured, vcs2),
        author_spec(cli, configured, vcs1).len() > 0,
{
    reveal_strlit("Developer");
}

} // verus!
