//! The catalogue of discovered themes, the selection of the current theme,
//! and what applying a theme writes.
use vstd::prelude::*;

use crate::config::HDMConfig;
use crate::text::{concat, join_path, path_join, same_text};

verus! {

/// The toolkit a theme is for.
#[derive(PartialEq, Eq, Structural, Debug, Clone, Copy)]
pub enum ThemeType {
    Gtk3,
    Gtk4,
    Qt5,
    Qt6,
    HyprSensivityObjective,
}

/// A directory of themes for one toolkit.
#[derive(Clone, Debug)]
pub struct ThemeTarget {
    pub platform: ThemeType,
    pub dir_path: String,
}

/// The directories to scan, in order.
#[derive(Clone, Debug)]
pub struct UnidataScrub {
    pub targets: Vec<ThemeTarget>,
}

/// A discovered theme: its name, directory and toolkit.
#[derive(Clone, Debug)]
pub struct Theme {
    pub name: String,
    pub path: String,
    pub kind: ThemeType,
}

impl DeepView for Theme {
    type V = (Seq<char>, Seq<char>, ThemeType);

    open spec fn deep_view(&self) -> (Seq<char>, Seq<char>, ThemeType) {
        (self.name@, self.path@, self.kind)
    }
}

/// Why a theme could not be set or applied.
#[derive(PartialEq, Eq, Structural, Debug, Clone, Copy)]
pub enum ThemeError {
    /// No discovered theme has the name.
    NotFound,
    /// The GTK version is neither 3 nor 4.
    UnknownGtkVersion,
    /// A theme description is not JSON.
    InvalidJson,
    /// A theme description's background is not a string.
    BackgroundNotText,
}

/// What applying a theme takes.
#[derive(Debug)]
pub enum ThemeApplication {
    /// Write the GTK settings of this version that select the theme.
    GtkSettings { version: u8 },
    /// Make the theme the Qt style override if one of these style sheets
    /// exists.
    QtStyle { style_files: Vec<String> },
    /// Read this description file and send the command it asks for.
    HyprSensivity { description: String },
}

/// The discovered themes, the current one, and the configuration that
/// records it.
pub struct ThemeManager {
    pub themes: Vec<Theme>,
    pub current: Option<Theme>,
    pub config: HDMConfig,
    pub config_path: String,
}

/// The names of the themes for toolkit `k`, in order.
pub open spec fn names_of_kind(ts: Seq<(Seq<char>, Seq<char>, ThemeType)>, k: ThemeType) -> Seq<
    Seq<char>,
>
    decreases ts.len(),
{
    if ts.len() == 0 {
        Seq::empty()
    } else {
        let prev = names_of_kind(ts.drop_last(), k);
        if ts.last().2 == k {
            prev.push(ts.last().0)
        } else {
            prev
        }
    }
}

/// `i` is the position of the first theme named `name`.
pub open spec fn is_first_named(ts: Seq<(Seq<char>, Seq<char>, ThemeType)>, name: Seq<char>, i: int) -> bool {
    &&& 0 <= i < ts.len()
    &&& ts[i].0 == name
    &&& forall|j: int| 0 <= j < i ==> ts[j].0 != name
}

/// A copy of a theme.
fn copy_theme(t: &Theme) -> (r: Theme)
    ensures
        r.deep_view() == t.deep_view(),
{
    Theme { name: t.name.clone(), path: t.path.clone(), kind: t.kind }
}

/// The settings file of a GTK version under the home directory.
pub open spec fn gtk_settings_file(home: Seq<char>, version: u8) -> Option<Seq<char>> {
    if version == 3 {
        Some(home + "/.config/gtk-3.0/settings.ini"@)
    } else if version == 4 {
        Some(home + "/.config/gtk-4.0/settings.ini"@)
    } else {
        None
    }
}

impl ThemeManager {
    /// A manager with no themes and no current theme.
    pub fn new(config: HDMConfig, config_path: String) -> (r: ThemeManager)
        ensures
            r.themes@.len() == 0,
            r.current is None,
            r.config == config,
            r.config_path == config_path,
    {
        ThemeManager { themes: Vec::new(), current: None, config, config_path }
    }

    /// Adds, in order, the theme directories found in a scanned directory
    /// of toolkit `kind`, each given by its name and path.
    pub fn scan_dir_for_themes(&mut self, found: &Vec<(String, String)>, kind: ThemeType)
        ensures
            final(self).themes.deep_view().len() == old(self).themes.deep_view().len()
                + found@.len(),
            forall|i: int|
                0 <= i < old(self).themes@.len() ==> #[trigger] final(self).themes.deep_view()[i]
                    == old(self).themes.deep_view()[i],
            forall|i: int|
                0 <= i < found@.len() ==> #[trigger] final(self).themes.deep_view()[old(
                    self,
                ).themes@.len() + i] == (found@[i].0@, found@[i].1@, kind),
            final(self).current == old(self).current,
            final(self).config == old(self).config,
            final(self).config_path == old(self).config_path,
    {
        let n = self.themes.len();
        let mut i: usize = 0;
        while i < found.len()
            invariant
                i <= found@.len(),
                n == old(self).themes@.len(),
                self.themes.deep_view().len() == n + i,
                forall|j: int|
                    0 <= j < n ==> #[trigger] self.themes.deep_view()[j] == old(
                        self,
                    ).themes.deep_view()[j],
                forall|j: int|
                    0 <= j < i ==> #[trigger] self.themes.deep_view()[n + j] == (
                        found@[j].0@,
                        found@[j].1@,
                        kind,
                    ),
                self.current == old(self).current,
                self.config == old(self).config,
                self.config_path == old(self).config_path,
            decreases found@.len() - i,
        {
            let t = Theme { name: found[i].0.clone(), path: found[i].1.clone(), kind };
            let ghost before = self.themes.deep_view();
            let ghost added = t.deep_view();
            self.themes.push(t);
            assert(self.themes.deep_view() =~= before.push(added));
            i = i + 1;
        }
    }

    /// The names of the themes for a toolkit, in the order found.
    pub fn available_themes_for_platform(&self, platform: ThemeType) -> (r: Vec<String>)
        ensures
            r.deep_view() == names_of_kind(self.themes.deep_view(), platform),
    {
        let mut r: Vec<String> = Vec::new();
        let mut i: usize = 0;
        assert(self.themes.deep_view().take(0) =~= Seq::<(Seq<char>, Seq<char>, ThemeType)>::empty());
        while i < self.themes.len()
            invariant
                i <= self.themes@.len(),
                r.deep_view() == names_of_kind(self.themes.deep_view().take(i as int), platform),
            decreases self.themes@.len() - i,
        {
            let ghost part = self.themes.deep_view().take(i + 1);
            assert(part.drop_last() =~= self.themes.deep_view().take(i as int));
            assert(part.last() == self.themes@[i as int].deep_view());
            let ghost before = r.deep_view();
            if self.themes[i].kind == platform {
                r.push(self.themes[i].name.clone());
                assert(r.deep_view() =~= before.push(self.themes@[i as int].name@));
            }
            i = i + 1;
        }
        assert(self.themes.deep_view().take(self.themes@.len() as int) =~= self.themes.deep_view());
        r
    }

    /// The position of the first theme with this name.
    pub fn find_theme(&self, name: &str) -> (r: Option<usize>)
        ensures
            r matches Some(i) ==> is_first_named(self.themes.deep_view(), name@, i as int),
            r is None ==> forall|j: int|
                0 <= j < self.themes@.len() ==> #[trigger] self.themes.deep_view()[j].0 != name@,
    {
        let mut i: usize = 0;
        while i < self.themes.len()
            invariant
                i <= self.themes@.len(),
                forall|j: int| 0 <= j < i ==> #[trigger] self.themes.deep_view()[j].0 != name@,
            decreases self.themes@.len() - i,
        {
            if same_text(self.themes[i].name.as_str(), name) {
                return Some(i);
            }
            i = i + 1;
        }
        None
    }

    /// Makes the first theme with this name the current one and records
    /// its name in the configuration; fails with `NotFound`, changing
    /// nothing, when no theme has the name.
    pub fn set_theme(&mut self, name: &str) -> (r: Result<(), ThemeError>)
        ensures
            r is Ok <==> exists|i: int| is_first_named(old(self).themes.deep_view(), name@, i),
            r is Err ==> r == Err::<(), ThemeError>(ThemeError::NotFound) && *final(self) == *old(
                self,
            ),
            r is Ok ==> {
                let i = choose|i: int| is_first_named(old(self).themes.deep_view(), name@, i);
                &&& final(self).current matches Some(t) && t.deep_view()
                    == old(self).themes.deep_view()[i]
                &&& final(self).config.theme@ == name@
                &&& final(self).themes == old(self).themes
                &&& final(self).config_path == old(self).config_path
                &&& final(self).config@ == (crate::config::ConfigModel {
                    theme: name@,
                    ..old(self).config@
                })
            },
    {
        match self.find_theme(name) {
            Some(i) => {
                let ghost k = choose|k: int| is_first_named(self.themes.deep_view(), name@, k);
                assert(k == i) by {
                    if k < i {
                        assert(self.themes.deep_view()[k].0 != name@);
                    } else if k > i {
                        assert(self.themes.deep_view()[i as int].0 != name@);
                    }
                }
                let t = copy_theme(&self.themes[i]);
                self.config.theme = self.themes[i].name.clone();
                self.current = Some(t);
                Ok(())
            },
            None => {
                assert(!exists|i: int| is_first_named(self.themes.deep_view(), name@, i)) by {
                    if exists|i: int| is_first_named(self.themes.deep_view(), name@, i) {
                        let i = choose|i: int| is_first_named(self.themes.deep_view(), name@, i);
                        assert(self.themes.deep_view()[i].0 != name@);
                    }
                }
                Err(ThemeError::NotFound)
            },
        }
    }

    /// What applying a theme takes, by its toolkit: GTK 3 and GTK 4
    /// settings, a Qt style override, or a HyprSensivity description.
    pub fn apply_theme(&self, theme: &Theme) -> (r: ThemeApplication)
        ensures
            theme.kind == ThemeType::Gtk3 ==> (r matches ThemeApplication::GtkSettings { version }
                && version == 3),
            theme.kind == ThemeType::Gtk4 ==> (r matches ThemeApplication::GtkSettings { version }
                && version == 4),
            (theme.kind == ThemeType::Qt5 || theme.kind == ThemeType::Qt6) ==> (
            r matches ThemeApplication::QtStyle { style_files } && style_files.deep_view() == seq![
                path_join(theme.path@, "style.qss"@),
                path_join(theme.path@, "theme.qss"@),
            ]),
            theme.kind == ThemeType::HyprSensivityObjective ==> (
            r matches ThemeApplication::HyprSensivity { description } && description@ == path_join(
                theme.path@,
                "theme.json"@,
            )),
    {
        match theme.kind {
            ThemeType::Gtk3 => ThemeApplication::GtkSettings { version: 3 },
            ThemeType::Gtk4 => ThemeApplication::GtkSettings { version: 4 },
            ThemeType::Qt5 | ThemeType::Qt6 => ThemeApplication::QtStyle {
                style_files: qt_style_files(theme),
            },
            ThemeType::HyprSensivityObjective => ThemeApplication::HyprSensivity {
                description: hyprsensivity_file(theme),
            },
        }
    }
}

/// The GTK settings file of a version under the home directory: only
/// versions 3 and 4 have one.
pub fn gtk_settings_path(home: &str, version: u8) -> (r: Result<String, ThemeError>)
    ensures
        r matches Ok(p) ==> gtk_settings_file(home@, version) == Some(p@),
        r is Err <==> gtk_settings_file(home@, version) is None,
        r is Err ==> r == Err::<String, ThemeError>(ThemeError::UnknownGtkVersion),
{
    if version == 3 {
        Ok(concat(home, "/.config/gtk-3.0/settings.ini"))
    } else if version == 4 {
        Ok(concat(home, "/.config/gtk-4.0/settings.ini"))
    } else {
        Err(ThemeError::UnknownGtkVersion)
    }
}

/// The GTK settings that select a theme.
pub fn gtk_settings_content(theme_name: &str) -> (r: String)
    ensures
        r@ == "[Settings]\ngtk-theme-name="@ + theme_name@ + "\n"@,
{
    let mut r = String::from_str("[Settings]\ngtk-theme-name=");
    r.append(theme_name);
    r.append("\n");
    r
}

/// The style sheets whose presence makes a Qt theme the style override,
/// in order.
pub fn qt_style_files(theme: &Theme) -> (r: Vec<String>)
    ensures
        r.deep_view() == seq![
            path_join(theme.path@, "style.qss"@),
            path_join(theme.path@, "theme.qss"@),
        ],
{
    let mut r: Vec<String> = Vec::new();
    r.push(join_path(theme.path.as_str(), "style.qss"));
    r.push(join_path(theme.path.as_str(), "theme.qss"));
    assert(r.deep_view() =~= seq![
        path_join(theme.path@, "style.qss"@),
        path_join(theme.path@, "theme.qss"@),
    ]);
    r
}

/// The description file of a HyprSensivity theme.
pub fn hyprsensivity_file(theme: &Theme) -> (r: String)
    ensures
        r@ == path_join(theme.path@, "theme.json"@),
{
    join_path(theme.path.as_str(), "theme.json")
}

/// The compositor command that sets the window background.
pub fn background_command(background: &str) -> (r: String)
    ensures
        r@ == "setv window:background "@ + background@,
{
    concat("setv window:background ", background)
}

#[verifier::external_type_specification]
#[verifier::external_body]
pub struct ExJsonValue(serde_json::Value);

#[verifier::external_type_specification]
#[verifier::external_body]
pub struct ExJsonError(serde_json::Error);

/// Relies on `serde_json::from_str`, reading a JSON document as a `Value`;
/// text that is not JSON gives an error.
#[verifier::external_body]
fn parse_json(text: &str) -> (r: Result<serde_json::Value, serde_json::Error>) {
    serde_json::from_str(text)
}

/// Relies on `serde_json::Value::get` with a string key: the member of
/// that name when the value is an object that has one.
#[verifier::external_body]
fn json_member<'a>(v: &'a serde_json::Value, key: &str) -> (r: Option<&'a serde_json::Value>) {
    v.get(key)
}

/// Relies on `serde_json::Value::as_str`: the text of a JSON string.
pub assume_specification[ serde_json::Value::as_str ](v: &serde_json::Value) -> (r: Option<&str>);

/// The compositor command that a HyprSensivity theme description asks
/// for: none without a `background` member; the command that sets the
/// window background when it is a string; an error when the description
/// is not JSON or the background is not a string.
pub fn hyprsensivity_command(json_text: &str) -> (r: Result<Option<String>, ThemeError>)
    ensures
        r matches Ok(Some(c)) ==> exists|bg: Seq<char>| c@ == "setv window:background "@ + bg,
        r matches Err(e) ==> (e is InvalidJson || e is BackgroundNotText),
{
    let json = match parse_json(json_text) {
        Ok(v) => v,
        Err(_) => return Err(ThemeError::InvalidJson),
    };
    match json_member(&json, "background") {
        None => Ok(None),
        Some(bg) => match bg.as_str() {
            Some(text) => Ok(Some(background_command(text))),
            None => Err(ThemeError::BackgroundNotText),
        },
    }
}

} // verus!
