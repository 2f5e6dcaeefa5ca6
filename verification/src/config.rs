//! The configuration of the status line: what the user's file may set, and
//! the value every setting falls back to where the file leaves it out.

use vstd::prelude::*;

verus! {

/// How the version-control tool is found and queried.
#[derive(Debug)]
pub struct PerforceConfig {
    /// The name of the workspace file that is looked for in the directories.
    pub p4conf: String,
    /// The flag handed to the status query.
    pub status_flags: String,
}

/// The icons shown for each kind of event.
#[derive(Debug)]
pub struct TmuxIcons {
    pub login: String,
    pub logout: String,
    pub add: String,
    pub edit: String,
    pub delete: String,
}

/// The style put in front of each kind of fragment.
#[derive(Debug)]
pub struct TmuxStyles {
    pub clear: String,
    pub login: String,
    pub logout: String,
    pub client: String,
    pub add: String,
    pub edit: String,
    pub delete: String,
    pub reconcile_add: String,
    pub reconcile_edit: String,
}

/// How the status line is laid out.
#[derive(Debug)]
pub struct TmuxConfig {
    /// The tokens of the line, in order: directives and literal text.
    pub format: Vec<String>,
    /// What stands between two badges of the `status` directive.
    pub status_separator: String,
    pub icons: TmuxIcons,
    pub styles: TmuxStyles,
}

/// The whole configuration.
#[derive(Debug)]
pub struct Config {
    pub perforce: PerforceConfig,
    pub tmux: TmuxConfig,
}

pub struct PerforceConfigView {
    pub p4conf: Seq<char>,
    pub status_flags: Seq<char>,
}

pub struct TmuxIconsView {
    pub login: Seq<char>,
    pub logout: Seq<char>,
    pub add: Seq<char>,
    pub edit: Seq<char>,
    pub delete: Seq<char>,
}

pub struct TmuxStylesView {
    pub clear: Seq<char>,
    pub login: Seq<char>,
    pub logout: Seq<char>,
    pub client: Seq<char>,
    pub add: Seq<char>,
    pub edit: Seq<char>,
    pub delete: Seq<char>,
    pub reconcile_add: Seq<char>,
    pub reconcile_edit: Seq<char>,
}

pub struct TmuxConfigView {
    pub format: Seq<Seq<char>>,
    pub status_separator: Seq<char>,
    pub icons: TmuxIconsView,
    pub styles: TmuxStylesView,
}

pub struct ConfigView {
    pub perforce: PerforceConfigView,
    pub tmux: TmuxConfigView,
}

impl View for PerforceConfig {
    type V = PerforceConfigView;

    open spec fn view(&self) -> PerforceConfigView {
        PerforceConfigView { p4conf: self.p4conf@, status_flags: self.status_flags@ }
    }
}

impl View for TmuxIcons {
    type V = TmuxIconsView;

    open spec fn view(&self) -> TmuxIconsView {
        TmuxIconsView {
            login: self.login@,
            logout: self.logout@,
            add: self.add@,
            edit: self.edit@,
            delete: self.delete@,
        }
    }
}

impl View for TmuxStyles {
    type V = TmuxStylesView;

    open spec fn view(&self) -> TmuxStylesView {
        TmuxStylesView {
            clear: self.clear@,
            login: self.login@,
            logout: self.logout@,
            client: self.client@,
            add: self.add@,
            edit: self.edit@,
            delete: self.delete@,
            reconcile_add: self.reconcile_add@,
            reconcile_edit: self.reconcile_edit@,
        }
    }
}

impl View for TmuxConfig {
    type V = TmuxConfigView;

    open spec fn view(&self) -> TmuxConfigView {
        TmuxConfigView {
            format: self.format.deep_view(),
            status_separator: self.status_separator@,
            icons: self.icons@,
            styles: self.styles@,
        }
    }
}

impl View for Config {
    type V = ConfigView;

    open spec fn view(&self) -> ConfigView {
        ConfigView { perforce: self.perforce@, tmux: self.tmux@ }
    }
}

/// The tool settings of a configuration that sets nothing.
pub open spec fn default_perforce() -> PerforceConfigView {
    PerforceConfigView { p4conf: ".p4.conf"@, status_flags: "-m"@ }
}

/// The icons of a configuration that sets nothing.
pub open spec fn default_icons() -> TmuxIconsView {
    TmuxIconsView {
        login: "\u{f1616}"@,
        logout: "\u{ead0}"@,
        add: "\u{ea60}"@,
        edit: "\u{ea73}"@,
        delete: "\u{f01b4}"@,
    }
}

/// The styles of a configuration that sets nothing.
pub open spec fn default_styles() -> TmuxStylesView {
    TmuxStylesView {
        clear: "#[fg=default]"@,
        login: "#[fg=green]"@,
        logout: "#[fg=red]"@,
        client: "#[fg=white,bold]"@,
        add: "#[fg=yellow,bold]"@,
        edit: "#[fg=yellow,bold]"@,
        delete: "#[fg=yellow,bold]"@,
        reconcile_add: "#[fg=red,bold]"@,
        reconcile_edit: "#[fg=red,bold]"@,
    }
}

/// The tokens of a configuration that sets nothing.
pub open spec fn default_format() -> Seq<Seq<char>> {
    seq!["client"@, " "@, "login"@, " "@, "status"@]
}

/// The layout of a configuration that sets nothing.
pub open spec fn default_tmux() -> TmuxConfigView {
    TmuxConfigView {
        format: default_format(),
        status_separator: " "@,
        icons: default_icons(),
        styles: default_styles(),
    }
}

/// The configuration that sets nothing.
pub open spec fn default_config() -> ConfigView {
    ConfigView { perforce: default_perforce(), tmux: default_tmux() }
}

impl Default for PerforceConfig {
    fn default() -> (config: PerforceConfig)
        ensures
            config@ == default_perforce(),
    {
        PerforceConfig { p4conf: ".p4.conf".to_string(), status_flags: "-m".to_string() }
    }
}

impl Default for TmuxIcons {
    fn default() -> (icons: TmuxIcons)
        ensures
            icons@ == default_icons(),
    {
        TmuxIcons {
            login: "\u{f1616}".to_string(),
            logout: "\u{ead0}".to_string(),
            add: "\u{ea60}".to_string(),
            edit: "\u{ea73}".to_string(),
            delete: "\u{f01b4}".to_string(),
        }
    }
}

impl Default for TmuxStyles {
    fn default() -> (styles: TmuxStyles)
        ensures
            styles@ == default_styles(),
    {
        TmuxStyles {
            clear: "#[fg=default]".to_string(),
            login: "#[fg=green]".to_string(),
            logout: "#[fg=red]".to_string(),
            client: "#[fg=white,bold]".to_string(),
            add: "#[fg=yellow,bold]".to_string(),
            edit: "#[fg=yellow,bold]".to_string(),
            delete: "#[fg=yellow,bold]".to_string(),
            reconcile_add: "#[fg=red,bold]".to_string(),
            reconcile_edit: "#[fg=red,bold]".to_string(),
        }
    }
}

fn default_tokens() -> (format: Vec<String>)
    ensures
        format.deep_view() == default_format(),
{
    let mut format: Vec<String> = Vec::new();
    format.push("client".to_string());
    format.push(" ".to_string());
    format.push("login".to_string());
    format.push(" ".to_string());
    format.push("status".to_string());
    format
}

impl Default for TmuxConfig {
    fn default() -> (tmux: TmuxConfig)
        ensures
            tmux@ == default_tmux(),
    {
        TmuxConfig {
            format: default_tokens(),
            status_separator: " ".to_string(),
            icons: TmuxIcons::default(),
            styles: TmuxStyles::default(),
        }
    }
}

impl Default for Config {
    fn default() -> (config: Config)
        ensures
            config@ == default_config(),
    {
        Config { perforce: PerforceConfig::default(), tmux: TmuxConfig::default() }
    }
}

/// The configuration that holds for every setting its documented default.
pub fn get_default_config() -> (config: Config)
    ensures
        config@ == default_config(),
{
    Config::default()
}

/// What a configuration file sets of the tool settings: `None` where it
/// leaves a setting out.
#[derive(Debug)]
pub struct PerforceOverrides {
    pub p4conf: Option<String>,
    pub status_flags: Option<String>,
}

/// What a configuration file sets of the icons.
#[derive(Debug)]
pub struct IconOverrides {
    pub login: Option<String>,
    pub logout: Option<String>,
    pub add: Option<String>,
    pub edit: Option<String>,
    pub delete: Option<String>,
}

/// What a configuration file sets of the styles.
#[derive(Debug)]
pub struct StyleOverrides {
    pub clear: Option<String>,
    pub login: Option<String>,
    pub logout: Option<String>,
    pub client: Option<String>,
    pub add: Option<String>,
    pub edit: Option<String>,
    pub delete: Option<String>,
    pub reconcile_add: Option<String>,
    pub reconcile_edit: Option<String>,
}

/// What a configuration file sets of the layout. A file without a table of
/// icons or styles sets none of them.
#[derive(Debug)]
pub struct TmuxOverrides {
    pub format: Option<Vec<String>>,
    pub status_separator: Option<String>,
    pub icons: IconOverrides,
    pub styles: StyleOverrides,
}

/// What a configuration file sets. A file without one of the two tables sets
/// nothing of it.
#[derive(Debug)]
pub struct ConfigOverrides {
    pub perforce: PerforceOverrides,
    pub tmux: TmuxOverrides,
}

/// The text of a setting: what the file sets, else the fallback.
pub open spec fn text_or(value: Option<String>, fallback: Seq<char>) -> Seq<char> {
    match value {
        Some(text) => text@,
        None => fallback,
    }
}

/// The tokens of the line: what the file sets, else the fallback.
pub open spec fn tokens_or(value: Option<Vec<String>>, fallback: Seq<Seq<char>>) -> Seq<Seq<char>> {
    match value {
        Some(tokens) => tokens.deep_view(),
        None => fallback,
    }
}

fn or_text(value: Option<String>, fallback: &str) -> (text: String)
    ensures
        text@ == text_or(value, fallback@),
{
    match value {
        Some(text) => text,
        None => fallback.to_string(),
    }
}

impl PerforceOverrides {
    /// The file sets none of the tool settings.
    pub open spec fn is_empty(self) -> bool {
        self.p4conf is None && self.status_flags is None
    }

    /// The tool settings that hold under this file.
    pub open spec fn resolved(self) -> PerforceConfigView {
        PerforceConfigView {
            p4conf: text_or(self.p4conf, default_perforce().p4conf),
            status_flags: text_or(self.status_flags, default_perforce().status_flags),
        }
    }

    /// The tool settings that hold under this file: each as the file sets
    /// it, or its default.
    pub fn resolve(self) -> (config: PerforceConfig)
        ensures
            config@ == self.resolved(),
    {
        PerforceConfig {
            p4conf: or_text(self.p4conf, ".p4.conf"),
            status_flags: or_text(self.status_flags, "-m"),
        }
    }
}

impl IconOverrides {
    /// The file sets none of the icons.
    pub open spec fn is_empty(self) -> bool {
        &&& self.login is None
        &&& self.logout is None
        &&& self.add is None
        &&& self.edit is None
        &&& self.delete is None
    }

    /// The icons that hold under this file.
    pub open spec fn resolved(self) -> TmuxIconsView {
        TmuxIconsView {
            login: text_or(self.login, default_icons().login),
            logout: text_or(self.logout, default_icons().logout),
            add: text_or(self.add, default_icons().add),
            edit: text_or(self.edit, default_icons().edit),
            delete: text_or(self.delete, default_icons().delete),
        }
    }

    /// The icons that hold under this file: each as the file sets it, or its
    /// default.
    pub fn resolve(self) -> (icons: TmuxIcons)
        ensures
            icons@ == self.resolved(),
    {
        TmuxIcons {
            login: or_text(self.login, "\u{f1616}"),
            logout: or_text(self.logout, "\u{ead0}"),
            add: or_text(self.add, "\u{ea60}"),
            edit: or_text(self.edit, "\u{ea73}"),
            delete: or_text(self.delete, "\u{f01b4}"),
        }
    }
}

impl StyleOverrides {
    /// The file sets none of the styles.
    pub open spec fn is_empty(self) -> bool {
        &&& self.clear is None
        &&& self.login is None
        &&& self.logout is None
        &&& self.client is None
        &&& self.add is None
        &&& self.edit is None
        &&& self.delete is None
        &&& self.reconcile_add is None
        &&& self.reconcile_edit is None
    }

    /// The styles that hold under this file.
    pub open spec fn resolved(self) -> TmuxStylesView {
        TmuxStylesView {
            clear: text_or(self.clear, default_styles().clear),
            login: text_or(self.login, default_styles().login),
            logout: text_or(self.logout, default_styles().logout),
            client: text_or(self.client, default_styles().client),
            add: text_or(self.add, default_styles().add),
            edit: text_or(self.edit, default_styles().edit),
            delete: text_or(self.delete, default_styles().delete),
            reconcile_add: text_or(self.reconcile_add, default_styles().reconcile_add),
            reconcile_edit: text_or(self.reconcile_edit, default_styles().reconcile_edit),
        }
    }

    /// The styles that hold under this file: each as the file sets it, or
    /// its default.
    pub fn resolve(self) -> (styles: TmuxStyles)
        ensures
            styles@ == self.resolved(),
    {
        TmuxStyles {
            clear: or_text(self.clear, "#[fg=default]"),
            login: or_text(self.login, "#[fg=green]"),
            logout: or_text(self.logout, "#[fg=red]"),
            client: or_text(self.client, "#[fg=white,bold]"),
            add: or_text(self.add, "#[fg=yellow,bold]"),
            edit: or_text(self.edit, "#[fg=yellow,bold]"),
            delete: or_text(self.delete, "#[fg=yellow,bold]"),
            reconcile_add: or_text(self.reconcile_add, "#[fg=red,bold]"),
            reconcile_edit: or_text(self.reconcile_edit, "#[fg=red,bold]"),
        }
    }
}

impl TmuxOverrides {
    /// The file sets nothing of the layout.
    pub open spec fn is_empty(self) -> bool {
        &&& self.format is None
        &&& self.status_separator is None
        &&& self.icons.is_empty()
        &&& self.styles.is_empty()
    }

    /// The layout that holds under this file.
    pub open spec fn resolved(self) -> TmuxConfigView {
        TmuxConfigView {
            format: tokens_or(self.format, default_format()),
            status_separator: text_or(self.status_separator, default_tmux().status_separator),
            icons: self.icons.resolved(),
            styles: self.styles.resolved(),
        }
    }

    /// The layout that holds under this file: each setting as the file sets
    /// it, or its default.
    pub fn resolve(self) -> (tmux: TmuxConfig)
        ensures
            tmux@ == self.resolved(),
    {
        TmuxConfig {
            format: match self.format {
                Some(tokens) => tokens,
                None => default_tokens(),
            },
            status_separator: or_text(self.status_separator, " "),
            icons: self.icons.resolve(),
            styles: self.styles.resolve(),
        }
    }
}

impl ConfigOverrides {
    /// The file sets nothing at all, as an empty file does.
    pub open spec fn is_empty(self) -> bool {
        self.perforce.is_empty() && self.tmux.is_empty()
    }

    /// The configuration that holds under this file.
    pub open spec fn resolved(self) -> ConfigView {
        ConfigView { perforce: self.perforce.resolved(), tmux: self.tmux.resolved() }
    }

    /// The configuration that holds under this file: each setting as the
    /// file sets it, or its default.
    pub fn resolve(self) -> (config: Config)
        ensures
            config@ == self.resolved(),
    {
        Config { perforce: self.perforce.resolve(), tmux: self.tmux.resolve() }
    }

    /// The file that sets nothing.
    pub fn empty() -> (file: ConfigOverrides)
        ensures
            file.is_empty(),
    {
        ConfigOverrides {
            perforce: PerforceOverrides { p4conf: None, status_flags: None },
            tmux: TmuxOverrides {
                format: None,
                status_separator: None,
                icons: IconOverrides { login: None, logout: None, add: None, edit: None, delete: None },
                styles: StyleOverrides {
                    clear: None,
                    login: None,
                    logout: None,
                    client: None,
                    add: None,
                    edit: None,
                    delete: None,
                    reconcile_add: None,
                    reconcile_edit: None,
                },
            },
        }
    }
}

/// The configuration that a file's settings select, as `ConfigView`.
pub open spec fn selected_config(file: Option<ConfigOverrides>) -> ConfigView {
    match file {
        Some(overrides) => overrides.resolved(),
        None => default_config(),
    }
}

/// The configuration to run with: the defaults where there is no file, and
/// else every setting as the file sets it, or its default where the file
/// leaves it out.
pub fn get_config(file: Option<ConfigOverrides>) -> (config: Config)
    ensures
        config@ == selected_config(file),
{
    match file {
        Some(overrides) => overrides.resolve(),
        None => get_default_config(),
    }
}

/// A missing file and a file that sets nothing both select the defaults,
/// setting for setting.
pub proof fn lemma_nothing_set_selects_defaults(file: Option<ConfigOverrides>)
    requires
        file matches Some(overrides) ==> overrides.is_empty(),
    ensures
        selected_config(file) == default_config(),
{
}

} // verus!
