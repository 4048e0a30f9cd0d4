//! The list of theme directories that theme discovery scans, built from
//! explicit entries and from the environment.
use vstd::prelude::*;

use crate::text::{chars_of, concat, pieces_of, split_on, string_from_chars};

verus! {

/// The toolkit a theme directory serves.
#[derive(PartialEq, Eq, Structural, Debug, Clone, Copy)]
pub enum PlatformType {
    Gtk3,
    Gtk4,
    Qt5,
    Qt6,
    HyprSensivityObjective,
}

/// A directory of themes for one toolkit.
pub struct ThemeTarget {
    pub platform: PlatformType,
    pub dir_path: String,
}

impl DeepView for ThemeTarget {
    type V = (PlatformType, Seq<char>);

    open spec fn deep_view(&self) -> (PlatformType, Seq<char>) {
        (self.platform, self.dir_path@)
    }
}

/// The directories to scan, in order.
pub struct UnidataScrub {
    pub targets: Vec<ThemeTarget>,
}

/// Builds the list of theme directories and where it is stored.
pub struct UnidataGenerator {
    pub scrub_path: String,
    pub data: UnidataScrub,
}

/// The environment variables that name theme directories.
pub struct ThemeEnvironment {
    pub xdg_data_dirs: Option<String>,
    pub home: Option<String>,
    pub qt5_theme_dir: Option<String>,
    pub qt6_theme_dir: Option<String>,
    pub hypersensivity_theme_dir: Option<String>,
}

/// The GTK 3 and GTK 4 directories under each data directory.
pub open spec fn xdg_targets(dirs: Seq<Seq<char>>) -> Seq<(PlatformType, Seq<char>)>
    decreases dirs.len(),
{
    if dirs.len() == 0 {
        Seq::empty()
    } else {
        xdg_targets(dirs.drop_last()) + seq![
            (PlatformType::Gtk3, dirs.last() + "/themes"@),
            (PlatformType::Gtk4, dirs.last() + "/themes"@),
        ]
    }
}

/// One directory, when the variable is set.
pub open spec fn optional_target(p: PlatformType, v: Option<Seq<char>>) -> Seq<
    (PlatformType, Seq<char>),
> {
    match v {
        Some(d) => seq![(p, d)],
        None => Seq::empty(),
    }
}

/// The directories that the environment names, in order: for each entry
/// of `XDG_DATA_DIRS` (split at `:`) its `themes` directory for GTK 3 and
/// GTK 4; the user's `.themes` for GTK 3 and `.local/share/themes` for
/// GTK 4; then the Qt 5, Qt 6 and HyprSensivity directories.
pub open spec fn system_theme_targets(env: ThemeEnvironment) -> Seq<(PlatformType, Seq<char>)> {
    (match env.xdg_data_dirs.deep_view() {
        Some(x) => xdg_targets(split_on(x, ':')),
        None => Seq::empty(),
    }) + (match env.home.deep_view() {
        Some(h) => seq![
            (PlatformType::Gtk3, h + "/.themes"@),
            (PlatformType::Gtk4, h + "/.local/share/themes"@),
        ],
        None => Seq::empty(),
    }) + optional_target(PlatformType::Qt5, env.qt5_theme_dir.deep_view()) + optional_target(
        PlatformType::Qt6,
        env.qt6_theme_dir.deep_view(),
    ) + optional_target(
        PlatformType::HyprSensivityObjective,
        env.hypersensivity_theme_dir.deep_view(),
    )
}

impl UnidataGenerator {
    /// A generator with no directories, stored at `scrub_path`.
    pub fn new(scrub_path: &str) -> (r: UnidataGenerator)
        ensures
            r.scrub_path@ == scrub_path@,
            r.data.targets@.len() == 0,
    {
        UnidataGenerator {
            scrub_path: String::from_str(scrub_path),
            data: UnidataScrub { targets: Vec::new() },
        }
    }

    /// Adds a directory at the end.
    pub fn add_target_dir(&mut self, platform: PlatformType, dir_path: String)
        ensures
            final(self).data.targets.deep_view() == old(self).data.targets.deep_view().push(
                (platform, dir_path@),
            ),
            final(self).scrub_path == old(self).scrub_path,
    {
        let ghost before = self.data.targets.deep_view();
        let t = ThemeTarget { platform, dir_path };
        self.data.targets.push(t);
        assert(self.data.targets.deep_view() =~= before.push((platform, dir_path@)));
    }

    /// Adds, at the end, the directories that the environment names.
    pub fn add_system_theme_dirs(&mut self, env: &ThemeEnvironment)
        ensures
            final(self).data.targets.deep_view() == old(self).data.targets.deep_view()
                + system_theme_targets(*env),
            final(self).scrub_path == old(self).scrub_path,
    {
        let ghost start = self.data.targets.deep_view();
        proof {
            reveal_strlit("/themes");
        }
        match &env.xdg_data_dirs {
            Some(x) => {
                let cs = chars_of(x.as_str());
                let dirs = pieces_of(cs.as_slice(), ':');
                let mut i: usize = 0;
                assert(dirs.deep_view().take(0) =~= Seq::<Seq<char>>::empty());
                assert(start =~= start + xdg_targets(dirs.deep_view().take(0)));
                while i < dirs.len()
                    invariant
                        i <= dirs@.len(),
                        self.data.targets.deep_view() == start + xdg_targets(
                            dirs.deep_view().take(i as int),
                        ),
                        self.scrub_path == old(self).scrub_path,
                    decreases dirs@.len() - i,
                {
                    let ghost part = dirs.deep_view().take(i + 1);
                    assert(part.drop_last() =~= dirs.deep_view().take(i as int));
                    assert(part.last() == dirs@[i as int]@);
                    let dir = string_from_chars(dirs[i].as_slice());
                    let gtk3 = concat(dir.as_str(), "/themes");
                    let gtk4 = concat(dir.as_str(), "/themes");
                    let ghost mid = self.data.targets.deep_view();
                    self.add_target_dir(PlatformType::Gtk3, gtk3);
                    self.add_target_dir(PlatformType::Gtk4, gtk4);
                    assert(self.data.targets.deep_view() =~= start + xdg_targets(part));
                    i = i + 1;
                }
                assert(dirs.deep_view().take(dirs@.len() as int) =~= dirs.deep_view());
                assert(x@ == cs@);
            },
            None => {
                assert(self.data.targets.deep_view() =~= start + Seq::<
                    (PlatformType, Seq<char>),
                >::empty());
            },
        }
        let ghost after_xdg = self.data.targets.deep_view();
        match &env.home {
            Some(h) => {
                self.add_target_dir(PlatformType::Gtk3, concat(h.as_str(), "/.themes"));
                self.add_target_dir(PlatformType::Gtk4, concat(h.as_str(), "/.local/share/themes"));
            },
            None => {},
        }
        let ghost after_home = self.data.targets.deep_view();
        assert(after_home =~= after_xdg + (match env.home.deep_view() {
            Some(h) => seq![
                (PlatformType::Gtk3, h + "/.themes"@),
                (PlatformType::Gtk4, h + "/.local/share/themes"@),
            ],
            None => Seq::empty(),
        }));
        match &env.qt5_theme_dir {
            Some(d) => self.add_target_dir(PlatformType::Qt5, d.clone()),
            None => {},
        }
        let ghost after_qt5 = self.data.targets.deep_view();
        assert(after_qt5 =~= after_home + optional_target(
            PlatformType::Qt5,
            env.qt5_theme_dir.deep_view(),
        ));
        match &env.qt6_theme_dir {
            Some(d) => self.add_target_dir(PlatformType::Qt6, d.clone()),
            None => {},
        }
        let ghost after_qt6 = self.data.targets.deep_view();
        assert(after_qt6 =~= after_qt5 + optional_target(
            PlatformType::Qt6,
            env.qt6_theme_dir.deep_view(),
        ));
        match &env.hypersensivity_theme_dir {
            Some(d) => self.add_target_dir(PlatformType::HyprSensivityObjective, d.clone()),
            None => {},
        }
        assert(self.data.targets.deep_view() =~= after_qt6 + optional_target(
            PlatformType::HyprSensivityObjective,
            env.hypersensivity_theme_dir.deep_view(),
        ));
        assert(self.data.targets.deep_view() =~= start + system_theme_targets(*env));
    }
}

} // verus!
