//! The persisted settings document and its key-path access.
//!
//! Every field has a default, so a document can always be built even when
//! nothing was persisted. Fields are addressed by dotted key paths such as
//! `user.author`; unknown paths are rejected.
use vstd::prelude::*;

use crate::text::{bool_text, bool_text_spec, copy_opt, parse_bool, parse_bool_spec, str_eq};

verus! {

/// The value that boolean settings default to.
pub fn default_true() -> (r: bool)
    ensures
        r,
{
    true
}

/// User preferences.
#[derive(Debug, Clone)]
pub struct UserConfig {
    /// Default author name for new projects.
    pub author: Option<String>,
    /// Default email for project metadata.
    pub email: Option<String>,
    /// Whether new projects get a git repository.
    pub git_init: bool,
    /// Template used when none is named.
    pub default_template: Option<String>,
}

/// Development settings.
#[derive(Debug, Clone)]
pub struct DevelopmentConfig {
    /// Verbose logging.
    pub verbose: bool,
    /// Colored output.
    pub color: bool,
    /// Refuse to generate into a directory that already exists.
    pub confirm_overwrite: bool,
}

/// What happens after a project has been generated.
#[derive(Debug, Clone)]
pub struct PostGenerationConfig {
    /// Install the project's dependencies.
    pub auto_install_deps: bool,
    /// Install the project's git hooks.
    pub auto_setup_hooks: bool,
    /// Editor to open the new project in.
    pub open_editor: Option<String>,
}

/// The whole settings document.
#[derive(Debug, Clone)]
pub struct Config {
    pub user: UserConfig,
    pub development: DevelopmentConfig,
    pub post_generation: PostGenerationConfig,
}

/// The settings document as a flat record of mathematical values.
pub struct ConfigView {
    pub author: Option<Seq<char>>,
    pub email: Option<Seq<char>>,
    pub git_init: bool,
    pub default_template: Option<Seq<char>>,
    pub verbose: bool,
    pub color: bool,
    pub confirm_overwrite: bool,
    pub auto_install_deps: bool,
    pub auto_setup_hooks: bool,
    pub open_editor: Option<Seq<char>>,
}

/// The characters of an optional string.
pub open spec fn opt_view(o: Option<String>) -> Option<Seq<char>> {
    match o {
        Some(s) => Some(s@),
        None => None,
    }
}

impl View for Config {
    type V = ConfigView;

    open spec fn view(&self) -> ConfigView {
        ConfigView {
            author: opt_view(self.user.author),
            email: opt_view(self.user.email),
            git_init: self.user.git_init,
            default_template: opt_view(self.user.default_template),
            verbose: self.development.verbose,
            color: self.development.color,
            confirm_overwrite: self.development.confirm_overwrite,
            auto_install_deps: self.post_generation.auto_install_deps,
            auto_setup_hooks: self.post_generation.auto_setup_hooks,
            open_editor: opt_view(self.post_generation.open_editor),
        }
    }
}

/// The document that holds every default.
pub open spec fn default_view() -> ConfigView {
    ConfigView {
        author: None,
        email: None,
        git_init: true,
        default_template: None,
        verbose: false,
        color: true,
        confirm_overwrite: true,
        auto_install_deps: true,
        auto_setup_hooks: true,
        open_editor: None,
    }
}

/// What a key path addresses.
pub enum KeyKind {
    /// An optional text field.
    Text,
    /// A boolean flag.
    Flag,
}

/// What `k` addresses, if anything.
pub open spec fn key_kind(k: Seq<char>) -> Option<KeyKind> {
    if k == "user.author"@ {
        Some(KeyKind::Text)
    } else if k == "user.email"@ {
        Some(KeyKind::Text)
    } else if k == "user.git_init"@ {
        Some(KeyKind::Flag)
    } else if k == "user.default_template"@ {
        Some(KeyKind::Text)
    } else if k == "development.verbose"@ {
        Some(KeyKind::Flag)
    } else if k == "development.color"@ {
        Some(KeyKind::Flag)
    } else if k == "development.confirm_overwrite"@ {
        Some(KeyKind::Flag)
    } else if k == "post_generation.auto_install_deps"@ {
        Some(KeyKind::Flag)
    } else if k == "post_generation.auto_setup_hooks"@ {
        Some(KeyKind::Flag)
    } else if k == "post_generation.open_editor"@ {
        Some(KeyKind::Text)
    } else {
        None
    }
}

/// `k` addresses a field of the document.
pub open spec fn is_key(k: Seq<char>) -> bool {
    key_kind(k) is Some
}

/// The text shown for the value at `k`; `None` for an unset field or an unknown key.
pub open spec fn get_view(c: ConfigView, k: Seq<char>) -> Option<Seq<char>> {
    if k == "user.author"@ {
        c.author
    } else if k == "user.email"@ {
        c.email
    } else if k == "user.git_init"@ {
        Some(bool_text_spec(c.git_init))
    } else if k == "user.default_template"@ {
        c.default_template
    } else if k == "development.verbose"@ {
        Some(bool_text_spec(c.verbose))
    } else if k == "development.color"@ {
        Some(bool_text_spec(c.color))
    } else if k == "development.confirm_overwrite"@ {
        Some(bool_text_spec(c.confirm_overwrite))
    } else if k == "post_generation.auto_install_deps"@ {
        Some(bool_text_spec(c.auto_install_deps))
    } else if k == "post_generation.auto_setup_hooks"@ {
        Some(bool_text_spec(c.auto_setup_hooks))
    } else if k == "post_generation.open_editor"@ {
        c.open_editor
    } else {
        None
    }
}

/// `v` can be stored at `k`: any text for a text field, `true` or `false` for a flag.
pub open spec fn accepts(k: Seq<char>, v: Seq<char>) -> bool {
    match key_kind(k) {
        Some(KeyKind::Text) => true,
        Some(KeyKind::Flag) => parse_bool_spec(v) is Some,
        None => false,
    }
}

/// The document after storing `v` at `k`, where `accepts(k, v)`.
pub open spec fn set_view(c: ConfigView, k: Seq<char>, v: Seq<char>) -> ConfigView {
    let b = parse_bool_spec(v)->0;
    if k == "user.author"@ {
        ConfigView { author: Some(v), ..c }
    } else if k == "user.email"@ {
        ConfigView { email: Some(v), ..c }
    } else if k == "user.git_init"@ {
        ConfigView { git_init: b, ..c }
    } else if k == "user.default_template"@ {
        ConfigView { default_template: Some(v), ..c }
    } else if k == "development.verbose"@ {
        ConfigView { verbose: b, ..c }
    } else if k == "development.color"@ {
        ConfigView { color: b, ..c }
    } else if k == "development.confirm_overwrite"@ {
        ConfigView { confirm_overwrite: b, ..c }
    } else if k == "post_generation.auto_install_deps"@ {
        ConfigView { auto_install_deps: b, ..c }
    } else if k == "post_generation.auto_setup_hooks"@ {
        ConfigView { auto_setup_hooks: b, ..c }
    } else {
        ConfigView { open_editor: Some(v), ..c }
    }
}

/// The text listed for an optional field.
pub open spec fn shown(o: Option<Seq<char>>) -> Seq<char> {
    match o {
        Some(s) => s,
        None => "<not set>"@,
    }
}

/// The listing: every key path in order, with the text of its value.
pub open spec fn list_view(c: ConfigView) -> Seq<(Seq<char>, Seq<char>)> {
    seq![
        ("user.author"@, shown(c.author)),
        ("user.email"@, shown(c.email)),
        ("user.git_init"@, bool_text_spec(c.git_init)),
        ("user.default_template"@, shown(c.default_template)),
        ("development.verbose"@, bool_text_spec(c.verbose)),
        ("development.color"@, bool_text_spec(c.color)),
        ("development.confirm_overwrite"@, bool_text_spec(c.confirm_overwrite)),
        ("post_generation.auto_install_deps"@, bool_text_spec(c.auto_install_deps)),
        ("post_generation.auto_setup_hooks"@, bool_text_spec(c.auto_setup_hooks)),
        ("post_generation.open_editor"@, shown(c.open_editor)),
    ]
}

/// The characters of each pair of strings.
pub open spec fn pair_views(v: Seq<(String, String)>) -> Seq<(Seq<char>, Seq<char>)> {
    v.map_values(|p: (String, String)| (p.0@, p.1@))
}

/// Why a setting could not be stored.
#[derive(Debug, Clone)]
pub enum ConfigError {
    /// The key path addresses no field.
    UnknownKey(String),
    /// The value is not a boolean literal, at a flag.
    InvalidValue { key: String, value: String },
}

impl ConfigError {
    /// A sentence that describes the error.
    pub fn message(&self) -> (r: String)
        ensures
            r@ == match self {
                ConfigError::UnknownKey(k) => "Unknown configuration key: "@ + k@,
                ConfigError::InvalidValue { key, value } => "Invalid boolean value for "@ + key@
                    + ": "@ + value@,
            },
    {
        match self {
            ConfigError::UnknownKey(k) => crate::text::cat(
                "Unknown configuration key: ",
                k.as_str(),
            ),
            ConfigError::InvalidValue { key, value } => crate::text::cat3(
                "Invalid boolean value for ",
                key.as_str(),
                &crate::text::cat(": ", value.as_str()),
            ),
        }
    }
}

impl Default for UserConfig {
    fn default() -> (r: Self)
        ensures
            r.author is None,
            r.email is None,
            r.git_init,
            r.default_template is None,
    {
        UserConfig { author: None, email: None, git_init: true, default_template: None }
    }
}

impl Default for DevelopmentConfig {
    fn default() -> (r: Self)
        ensures
            !r.verbose,
            r.color,
            r.confirm_overwrite,
    {
        DevelopmentConfig { verbose: false, color: true, confirm_overwrite: true }
    }
}

impl Default for PostGenerationConfig {
    fn default() -> (r: Self)
        ensures
            r.auto_install_deps,
            r.auto_setup_hooks,
            r.open_editor is None,
    {
        PostGenerationConfig { auto_install_deps: true, auto_setup_hooks: true, open_editor: None }
    }
}

impl Default for Config {
    fn default() -> (r: Self)
        ensures
            r@ == default_view(),
    {
        Config {
            user: UserConfig::default(),
            development: DevelopmentConfig::default(),
            post_generation: PostGenerationConfig::default(),
        }
    }
}

/// Stores a boolean read from `value`, or reports the value as invalid.
fn set_flag(flag: &mut bool, key: &str, value: &str) -> (r: Result<(), ConfigError>)
    ensures
        parse_bool_spec(value@) is Some ==> r is Ok && *final(flag) == parse_bool_spec(
            value@,
        )->0,
        parse_bool_spec(value@) is None ==> r is Err && *final(flag) == *old(flag) && (match r {
            Err(ConfigError::InvalidValue { key: k, value: v }) => k@ == key@ && v@ == value@,
            _ => false,
        }),
{
    match parse_bool(value) {
        Some(b) => {
            *flag = b;
            Ok(())
        },
        None => Err(
            ConfigError::InvalidValue { key: String::from_str(key), value: String::from_str(value) },
        ),
    }
}

/// The text listed for an optional field: its value, or `<not set>`.
fn shown_text(o: &Option<String>) -> (r: String)
    ensures
        r@ == shown(opt_view(*o)),
{
    match o {
        Some(s) => s.clone(),
        None => String::from_str("<not set>"),
    }
}

impl Config {
    /// The text of the value at `key`; `None` for an unset field or an unknown key.
    pub fn get(&self, key: &str) -> (r: Option<String>)
        ensures
            opt_view(r) == get_view(self@, key@),
    {
        if str_eq(key, "user.author") {
            copy_opt(&self.user.author)
        } else if str_eq(key, "user.email") {
            copy_opt(&self.user.email)
        } else if str_eq(key, "user.git_init") {
            Some(bool_text(self.user.git_init))
        } else if str_eq(key, "user.default_template") {
            copy_opt(&self.user.default_template)
        } else if str_eq(key, "development.verbose") {
            Some(bool_text(self.development.verbose))
        } else if str_eq(key, "development.color") {
            Some(bool_text(self.development.color))
        } else if str_eq(key, "development.confirm_overwrite") {
            Some(bool_text(self.development.confirm_overwrite))
        } else if str_eq(key, "post_generation.auto_install_deps") {
            Some(bool_text(self.post_generation.auto_install_deps))
        } else if str_eq(key, "post_generation.auto_setup_hooks") {
            Some(bool_text(self.post_generation.auto_setup_hooks))
        } else if str_eq(key, "post_generation.open_editor") {
            copy_opt(&self.post_generation.open_editor)
        } else {
            None
        }
    }

    /// Stores `value` at `key`. A flag takes exactly `true` or `false`.
    /// On an error the document is left as it was.
    pub fn set(&mut self, key: &str, value: &str) -> (r: Result<(), ConfigError>)
        ensures
            r is Ok <==> accepts(key@, value@),
            r is Ok ==> final(self)@ == set_view(old(self)@, key@, value@),
            r is Err ==> final(self)@ == old(self)@,
            !is_key(key@) <==> (match r {
                Err(ConfigError::UnknownKey(k)) => k@ == key@,
                _ => false,
            }),
            (is_key(key@) && !accepts(key@, value@)) <==> (match r {
                Err(ConfigError::InvalidValue { key: k, value: v }) => k@ == key@ && v@ == value@,
                _ => false,
            }),
    {
        if str_eq(key, "user.author") {
            self.user.author = Some(String::from_str(value));
            Ok(())
        } else if str_eq(key, "user.email") {
            self.user.email = Some(String::from_str(value));
            Ok(())
        } else if str_eq(key, "user.git_init") {
            set_flag(&mut self.user.git_init, key, value)
        } else if str_eq(key, "user.default_template") {
            self.user.default_template = Some(String::from_str(value));
            Ok(())
        } else if str_eq(key, "development.verbose") {
            set_flag(&mut self.development.verbose, key, value)
        } else if str_eq(key, "development.color") {
            set_flag(&mut self.development.color, key, value)
        } else if str_eq(key, "development.confirm_overwrite") {
            set_flag(&mut self.development.confirm_overwrite, key, value)
        } else if str_eq(key, "post_generation.auto_install_deps") {
            set_flag(&mut self.post_generation.auto_install_deps, key, value)
        } else if str_eq(key, "post_generation.auto_setup_hooks") {
            set_flag(&mut self.post_generation.auto_setup_hooks, key, value)
        } else if str_eq(key, "post_generation.open_editor") {
            self.post_generation.open_editor = Some(String::from_str(value));
            Ok(())
        } else {
            Err(ConfigError::UnknownKey(String::from_str(key)))
        }
    }

    /// Every key path in order, with the text of its value; an unset field
    /// shows as `<not set>`.
    pub fn list(&self) -> (r: Vec<(String, String)>)
        ensures
            pair_views(r@) == list_view(self@),
    {
        let mut r: Vec<(String, String)> = Vec::new();
        r.push((String::from_str("user.author"), shown_text(&self.user.author)));
        r.push((String::from_str("user.email"), shown_text(&self.user.email)));
        r.push((String::from_str("user.git_init"), bool_text(self.user.git_init)));
        r.push(
            (String::from_str("user.default_template"), shown_text(&self.user.default_template)),
        );
        r.push((String::from_str("development.verbose"), bool_text(self.development.verbose)));
        r.push((String::from_str("development.color"), bool_text(self.development.color)));
        r.push(
            (
                String::from_str("development.confirm_overwrite"),
                bool_text(self.development.confirm_overwrite),
            ),
        );
        r.push(
            (
                String::from_str("post_generation.auto_install_deps"),
                bool_text(self.post_generation.auto_install_deps),
            ),
        );
        r.push(
            (
                String::from_str("post_generation.auto_setup_hooks"),
                bool_text(self.post_generation.auto_setup_hooks),
            ),
        );
        r.push(
            (
                String::from_str("post_generation.open_editor"),
                shown_text(&self.post_generation.open_editor),
            ),
        );
        assert(pair_views(r@) =~= list_view(self@));
        r
    }

    /// Puts every field back to its default.
    pub fn reset(&mut self)
        ensures
            final(self)@ == default_view(),
    {
        *self = Config::default();
    }
}

/// Once a default template is stored, a run that names no template uses it.
pub proof fn lemma_default_template_used(before: ConfigView, after: Config, key: Seq<char>)
    requires
        after@ == set_view(before, "user.default_template"@, key),
    ensures
        crate::template::chosen_key(None, after.user.default_template) == Some(key),
{
    reveal_strlit("user.default_template");
    reveal_strlit("user.author");
    reveal_strlit("user.email");
    reveal_strlit("user.git_init");
    assert("user.default_template"@[5] != "user.author"@[5]);
    assert("user.default_template"@[5] != "user.email"@[5]);
    assert("user.default_template"@[5] != "user.git_init"@[5]);
}

/// Reading a key path right after storing a value there gives back that value,
/// for every key path and every value that the path accepts; a text that is no
/// key path is never accepted.
pub proof fn lemma_get_after_set(c: ConfigView, k: Seq<char>, v: Seq<char>)
    ensures
        accepts(k, v) ==> get_view(set_view(c, k, v), k) == Some(v),
        !is_key(k) ==> !accepts(k, v),
{
    if parse_bool_spec(v) == Some(true) {
        assert(v == "true"@);
    } else if parse_bool_spec(v) == Some(false) {
        assert(v == "false"@);
    }
}

} // verus!
