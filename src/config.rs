//! The persisted configuration record: defaults, validation, and its
//! line-oriented `key=value` text form.
use vstd::prelude::*;

use crate::text::{
    chars_of, chars_range, first_index, is_first_index, is_single_line, join_lines,
    join_path, lines_of, path_join, range_equals, split_lines, string_from_chars, trim, trim_bounds,
};

verus! {

/// The configuration of the display manager.
#[derive(Clone, Debug)]
pub struct HDMConfig {
    pub theme: String,
    pub tiling: bool,
    pub default_session: String,
    pub autologin: bool,
    pub two_factor_enabled: bool,
    pub two_factor_method: Option<String>,
    pub two_factor_secret: Option<String>,
    pub systemctl_usedefine: bool,
}

/// What a configuration holds, with its texts as character sequences.
pub struct ConfigModel {
    pub theme: Seq<char>,
    pub tiling: bool,
    pub default_session: Seq<char>,
    pub autologin: bool,
    pub two_factor_enabled: bool,
    pub two_factor_method: Option<Seq<char>>,
    pub two_factor_secret: Option<Seq<char>>,
    pub systemctl_usedefine: bool,
}

impl View for HDMConfig {
    type V = ConfigModel;

    open spec fn view(&self) -> ConfigModel {
        ConfigModel {
            theme: self.theme@,
            tiling: self.tiling,
            default_session: self.default_session@,
            autologin: self.autologin,
            two_factor_enabled: self.two_factor_enabled,
            two_factor_method: self.two_factor_method.deep_view(),
            two_factor_secret: self.two_factor_secret.deep_view(),
            systemctl_usedefine: self.systemctl_usedefine,
        }
    }
}

/// Why a configuration could not be had.
#[derive(Debug)]
pub enum ConfigError {
    /// The backing file exists but could not be read or written.
    Unreadable(String),
    /// Autologin and the managed service are both switched on.
    Conflict,
}

/// The theme used when none is configured.
pub open spec fn default_theme() -> Seq<char> {
    "Adwaita-dark"@
}

/// The session started when none is configured.
pub open spec fn default_session_name() -> Seq<char> {
    "Hyprland"@
}

/// The configuration used when no file exists.
pub open spec fn default_model() -> ConfigModel {
    ConfigModel {
        theme: default_theme(),
        tiling: true,
        default_session: default_session_name(),
        autologin: true,
        two_factor_enabled: false,
        two_factor_method: None,
        two_factor_secret: None,
        systemctl_usedefine: false,
    }
}

/// Autologin and the managed service exclude each other.
pub open spec fn is_conflicting(m: ConfigModel) -> bool {
    m.autologin && m.systemctl_usedefine
}

/// `m` with an empty theme or session replaced by its default.
pub open spec fn with_defaults(m: ConfigModel) -> ConfigModel {
    ConfigModel {
        theme: if m.theme.len() == 0 {
            default_theme()
        } else {
            m.theme
        },
        default_session: if m.default_session.len() == 0 {
            default_session_name()
        } else {
            m.default_session
        },
        ..m
    }
}

/// What validation makes of `m`: nothing when it is contradictory.
pub open spec fn validated(m: ConfigModel) -> Option<ConfigModel> {
    if is_conflicting(m) {
        None
    } else {
        Some(with_defaults(m))
    }
}

/// A configuration that validation accepts unchanged.
pub open spec fn is_valid(m: ConfigModel) -> bool {
    validated(m) == Some(m)
}

/// The key and value that a line of the file sets, if any: blank lines,
/// lines starting with `#` and lines without `=` set nothing; key and value
/// are split at the first `=` and trimmed.
pub open spec fn line_entry(line: Seq<char>) -> Option<(Seq<char>, Seq<char>)> {
    let t = trim(line);
    if t.len() == 0 || t[0] == '#' {
        None
    } else if exists|i: int| is_first_index(t, '=', i) {
        let i = choose|i: int| is_first_index(t, '=', i);
        Some((trim(t.take(i)), trim(t.skip(i + 1))))
    } else {
        None
    }
}

/// The entries that the lines set, in order.
pub open spec fn entries_of(lines: Seq<Seq<char>>) -> Seq<(Seq<char>, Seq<char>)>
    decreases lines.len(),
{
    if lines.len() == 0 {
        Seq::empty()
    } else {
        let prev = entries_of(lines.drop_last());
        match line_entry(lines.last()) {
            Some(e) => prev.push(e),
            None => prev,
        }
    }
}

/// The value of the last entry with this key.
pub open spec fn lookup(es: Seq<(Seq<char>, Seq<char>)>, key: Seq<char>) -> Option<Seq<char>>
    decreases es.len(),
{
    if es.len() == 0 {
        None
    } else if es.last().0 == key {
        Some(es.last().1)
    } else {
        lookup(es.drop_last(), key)
    }
}

/// A boolean setting: only `true` is true; an absent key gives `default`.
pub open spec fn flag_value(v: Option<Seq<char>>, default: bool) -> bool {
    match v {
        Some(t) => t == "true"@,
        None => default,
    }
}

/// The configuration that a text describes, before validation.
pub open spec fn read_model(text: Seq<char>) -> ConfigModel {
    let es = entries_of(split_lines(text));
    ConfigModel {
        theme: match lookup(es, "theme"@) {
            Some(v) => v,
            None => default_theme(),
        },
        tiling: flag_value(lookup(es, "tiling"@), true),
        default_session: match lookup(es, "default_session"@) {
            Some(v) => v,
            None => default_session_name(),
        },
        autologin: flag_value(lookup(es, "autologin"@), true),
        two_factor_enabled: flag_value(lookup(es, "two_factor_enabled"@), false),
        two_factor_method: lookup(es, "two_factor_method"@),
        two_factor_secret: lookup(es, "two_factor_secret"@),
        systemctl_usedefine: flag_value(lookup(es, "systemctl_usedefine"@), false),
    }
}

impl HDMConfig {
    /// Replaces an empty theme or session by its default, and rejects a
    /// configuration that switches on both autologin and the managed
    /// service.
    pub fn validate(self) -> (r: Result<HDMConfig, ConfigError>)
        ensures
            r is Ok <==> validated(self@) is Some,
            r matches Ok(c) ==> validated(self@) == Some(c@),
            r matches Err(e) ==> e is Conflict,
    {
        if self.autologin && self.systemctl_usedefine {
            return Err(ConfigError::Conflict);
        }
        let mut c = self;
        if c.theme.as_str().is_empty() {
            c.theme = String::from_str("Adwaita-dark");
        }
        if c.default_session.as_str().is_empty() {
            c.default_session = String::from_str("Hyprland");
        }
        Ok(c)
    }
}

/// The configuration used when no file exists.
pub fn default_config() -> (r: HDMConfig)
    ensures
        r@ == default_model(),
{
    HDMConfig {
        theme: String::from_str("Adwaita-dark"),
        tiling: true,
        default_session: String::from_str("Hyprland"),
        autologin: true,
        two_factor_enabled: false,
        two_factor_method: None,
        two_factor_secret: None,
        systemctl_usedefine: false,
    }
}

/// The key and value that one line sets.
fn entry_of_line(line: &Vec<char>) -> (r: Option<(Vec<char>, Vec<char>)>)
    ensures
        r.deep_view() == line_entry(line@),
{
    let (lo, hi) = trim_bounds(line.as_slice());
    let t = chars_range(line.as_slice(), lo, hi);
    if t.len() == 0 || t[0] == '#' {
        return None;
    }
    match first_index(t.as_slice(), '=') {
        None => {
            assert(!exists|i: int| is_first_index(t@, '=', i));
            None
        },
        Some(i) => {
            let ghost k = choose|k: int| is_first_index(t@, '=', k);
            assert(is_first_index(t@, '=', i as int));
            assert(k == i) by {
                if k < i {
                    assert(t@[k] != '=');
                } else if k > i {
                    assert(t@[i as int] != '=');
                }
            }
            let key_part = chars_range(t.as_slice(), 0, i);
            let (a, b) = trim_bounds(key_part.as_slice());
            let key = chars_range(key_part.as_slice(), a, b);
            let value_part = chars_range(t.as_slice(), i + 1, t.len());
            let (c, d) = trim_bounds(value_part.as_slice());
            let value = chars_range(value_part.as_slice(), c, d);
            assert(key_part@ =~= t@.take(i as int));
            assert(value_part@ =~= t@.skip(i + 1));
            assert(key.deep_view() =~= key@);
            assert(value.deep_view() =~= value@);
            Some((key, value))
        },
    }
}

/// The entries that the lines set.
fn entries_of_lines(lines: &Vec<Vec<char>>) -> (r: Vec<(Vec<char>, Vec<char>)>)
    ensures
        r.deep_view() == entries_of(lines.deep_view()),
{
    let mut r: Vec<(Vec<char>, Vec<char>)> = Vec::new();
    let mut i: usize = 0;
    assert(lines.deep_view().take(0) =~= Seq::<Seq<char>>::empty());
    assert(r.deep_view() =~= Seq::<(Seq<char>, Seq<char>)>::empty());
    while i < lines.len()
        invariant
            i <= lines@.len(),
            r.deep_view() == entries_of(lines.deep_view().take(i as int)),
        decreases lines@.len() - i,
    {
        let ghost before = r.deep_view();
        let ghost ls = lines.deep_view().take(i + 1);
        assert(ls.drop_last() =~= lines.deep_view().take(i as int));
        assert(ls.last() == lines@[i as int]@);
        match entry_of_line(&lines[i]) {
            Some(e) => {
                r.push(e);
                assert(r.deep_view() =~= before.push(e.deep_view()));
            },
            None => {},
        }
        i = i + 1;
    }
    assert(lines.deep_view().take(lines@.len() as int) =~= lines.deep_view());
    r
}

/// The value of the last entry with this key.
fn lookup_exec(es: &Vec<(Vec<char>, Vec<char>)>, key: &str) -> (r: Option<Vec<char>>)
    ensures
        r.deep_view() == lookup(es.deep_view(), key@),
{
    let mut i: usize = es.len();
    assert(es.deep_view().take(es@.len() as int) =~= es.deep_view());
    while i > 0
        invariant
            i <= es@.len(),
            lookup(es.deep_view(), key@) == lookup(es.deep_view().take(i as int), key@),
        decreases i,
    {
        let ghost part = es.deep_view().take(i as int);
        assert(part.drop_last() =~= es.deep_view().take(i - 1));
        assert(part.last() == es@[i - 1].deep_view());
        let k = &es[i - 1].0;
        if range_equals(k.as_slice(), 0, k.len(), key) {
            assert(k@.subrange(0, k@.len() as int) =~= k@);
            assert(k.deep_view() =~= k@);
            let v = chars_range(es[i - 1].1.as_slice(), 0, es[i - 1].1.len());
            assert(v@ =~= es[i - 1].1@);
            assert(v.deep_view() =~= v@);
            assert(es[i - 1].1.deep_view() =~= es[i - 1].1@);
            return Some(v);
        }
        assert(k@.subrange(0, k@.len() as int) =~= k@);
        assert(k.deep_view() =~= k@);
        i = i - 1;
    }
    assert(es.deep_view().take(0) =~= Seq::<(Seq<char>, Seq<char>)>::empty());
    None
}

/// A text value, or `default` when the key is absent.
fn text_or(v: Option<Vec<char>>, default: &str) -> (r: String)
    ensures
        r@ == match v.deep_view() {
            Some(t) => t,
            None => default@,
        },
{
    match v {
        Some(t) => {
            assert(t.deep_view() =~= t@);
            string_from_chars(t.as_slice())
        },
        None => String::from_str(default),
    }
}

/// An optional text value.
fn optional_text(v: Option<Vec<char>>) -> (r: Option<String>)
    ensures
        r.deep_view() == v.deep_view(),
{
    match v {
        Some(t) => {
            assert(t.deep_view() =~= t@);
            Some(string_from_chars(t.as_slice()))
        },
        None => None,
    }
}

/// A boolean value, or `default` when the key is absent.
fn flag_or(v: Option<Vec<char>>, default: bool) -> (r: bool)
    ensures
        r == flag_value(v.deep_view(), default),
{
    match v {
        Some(t) => {
            assert(t.deep_view() =~= t@);
            assert(t@.subrange(0, t@.len() as int) =~= t@);
            range_equals(t.as_slice(), 0, t.len(), "true")
        },
        None => default,
    }
}

/// The configuration that a text describes, before validation.
pub fn read_config_text(text: &str) -> (r: HDMConfig)
    ensures
        r@ == read_model(text@),
{
    let chars = chars_of(text);
    let lines = lines_of(chars.as_slice());
    let es = entries_of_lines(&lines);
    HDMConfig {
        theme: text_or(lookup_exec(&es, "theme"), "Adwaita-dark"),
        tiling: flag_or(lookup_exec(&es, "tiling"), true),
        default_session: text_or(lookup_exec(&es, "default_session"), "Hyprland"),
        autologin: flag_or(lookup_exec(&es, "autologin"), true),
        two_factor_enabled: flag_or(lookup_exec(&es, "two_factor_enabled"), false),
        two_factor_method: optional_text(lookup_exec(&es, "two_factor_method")),
        two_factor_secret: optional_text(lookup_exec(&es, "two_factor_secret")),
        systemctl_usedefine: flag_or(lookup_exec(&es, "systemctl_usedefine"), false),
    }
}

/// Parses and validates the text of a configuration file.
pub fn config_from_text(text: &str) -> (r: Result<HDMConfig, ConfigError>)
    ensures
        r is Ok <==> validated(read_model(text@)) is Some,
        r matches Ok(c) ==> validated(read_model(text@)) == Some(c@),
        r matches Err(e) ==> e is Conflict,
{
    read_config_text(text).validate()
}

/// The line that sets `k` to `v`.
pub open spec fn kv_line(k: Seq<char>, v: Seq<char>) -> Seq<char> {
    k + seq!['='] + v
}

/// How a boolean is written.
pub open spec fn bool_text(b: bool) -> Seq<char> {
    if b {
        "true"@
    } else {
        "false"@
    }
}

/// The line for an optional setting: none when it is absent.
pub open spec fn optional_line(k: Seq<char>, v: Option<Seq<char>>) -> Seq<Seq<char>> {
    match v {
        Some(t) => seq![kv_line(k, t)],
        None => Seq::empty(),
    }
}

/// The managed-service line: active when set, disabled by `# ` when not,
/// so that the option stays visible in the file.
pub open spec fn service_line(on: bool) -> Seq<char> {
    if on {
        kv_line("systemctl_usedefine"@, "true"@)
    } else {
        seq!['#', ' '] + kv_line("systemctl_usedefine"@, "true"@)
    }
}

/// The lines written for a configuration, in order.
pub open spec fn config_lines(m: ConfigModel) -> Seq<Seq<char>> {
    seq![
        kv_line("theme"@, m.theme),
        kv_line("tiling"@, bool_text(m.tiling)),
        kv_line("default_session"@, m.default_session),
        kv_line("autologin"@, bool_text(m.autologin)),
        kv_line("two_factor_enabled"@, bool_text(m.two_factor_enabled)),
    ] + optional_line("two_factor_method"@, m.two_factor_method) + optional_line(
        "two_factor_secret"@,
        m.two_factor_secret,
    ) + seq![service_line(m.systemctl_usedefine)]
}

/// The text written for a configuration.
pub open spec fn render_model(m: ConfigModel) -> Seq<char> {
    join_lines(config_lines(m))
}

/// The line `k=v`.
fn kv_line_exec(key: &str, value: &str) -> (r: String)
    ensures
        r@ == kv_line(key@, value@),
{
    let mut r = String::from_str(key);
    r.append("=");
    r.append(value);
    proof {
        reveal_strlit("=");
    }
    assert(r@ =~= kv_line(key@, value@));
    r
}

/// How a boolean is written.
fn bool_str(b: bool) -> (r: &'static str)
    ensures
        r@ == bool_text(b),
{
    if b {
        "true"
    } else {
        "false"
    }
}

/// The lines joined with a line feed between each two of them.
fn join_exec(ls: &Vec<String>) -> (r: String)
    ensures
        r@ == join_lines(ls.deep_view()),
{
    let mut r = String::new();
    let mut i: usize = 0;
    proof {
        reveal_strlit("\n");
    }
    assert(ls.deep_view().take(0) =~= Seq::<Seq<char>>::empty());
    while i < ls.len()
        invariant
            i <= ls@.len(),
            r@ == join_lines(ls.deep_view().take(i as int)),
            "\n"@ == seq!['\n'],
        decreases ls@.len() - i,
    {
        let ghost part = ls.deep_view().take(i + 1);
        assert(part.drop_last() =~= ls.deep_view().take(i as int));
        assert(part.last() == ls@[i as int]@);
        if i > 0 {
            r.append("\n");
        }
        r.append(ls[i].as_str());
        if i == 0 {
            assert(part =~= seq![ls@[0]@]);
        }
        assert(r@ =~= join_lines(part));
        i = i + 1;
    }
    assert(ls.deep_view().take(ls@.len() as int) =~= ls.deep_view());
    r
}

/// The text of a configuration file: one `key=value` line per setting,
/// optional settings only when present, and the managed-service line
/// disabled by `# ` when the service is off.
pub fn config_to_text(c: &HDMConfig) -> (r: String)
    ensures
        r@ == render_model(c@),
{
    let mut ls: Vec<String> = Vec::new();
    ls.push(kv_line_exec("theme", c.theme.as_str()));
    ls.push(kv_line_exec("tiling", bool_str(c.tiling)));
    ls.push(kv_line_exec("default_session", c.default_session.as_str()));
    ls.push(kv_line_exec("autologin", bool_str(c.autologin)));
    ls.push(kv_line_exec("two_factor_enabled", bool_str(c.two_factor_enabled)));
    let ghost base = ls.deep_view();
    match &c.two_factor_method {
        Some(m) => ls.push(kv_line_exec("two_factor_method", m.as_str())),
        None => {},
    }
    let ghost with_method = ls.deep_view();
    assert(with_method =~= base + optional_line("two_factor_method"@, c@.two_factor_method));
    match &c.two_factor_secret {
        Some(t) => ls.push(kv_line_exec("two_factor_secret", t.as_str())),
        None => {},
    }
    let ghost with_secret = ls.deep_view();
    assert(with_secret =~= with_method + optional_line("two_factor_secret"@, c@.two_factor_secret));
    if c.systemctl_usedefine {
        ls.push(kv_line_exec("systemctl_usedefine", "true"));
    } else {
        let mut l = String::from_str("# ");
        let active = kv_line_exec("systemctl_usedefine", "true");
        l.append(active.as_str());
        proof {
            reveal_strlit("# ");
        }
        assert(l@ =~= service_line(false));
        ls.push(l);
    }
    assert(ls.deep_view() =~= with_secret.push(service_line(c.systemctl_usedefine)));
    assert(ls.deep_view() =~= config_lines(c@));
    join_exec(&ls)
}

/// The configuration, given the text of its file, or `None` when the file
/// does not exist: a missing file gives the defaults, and nothing is
/// written.
pub fn load_config(stored: Option<&str>) -> (r: Result<HDMConfig, ConfigError>)
    ensures
        stored is None ==> (r matches Ok(c) && c@ == default_model()),
        stored matches Some(text) ==> {
            &&& r is Ok <==> validated(read_model(text@)) is Some
            &&& r matches Ok(c) ==> validated(read_model(text@)) == Some(c@)
            &&& r matches Err(e) ==> e is Conflict
        },
{
    match stored {
        None => Ok(default_config()),
        Some(text) => config_from_text(text),
    }
}

/// The configuration, given the text of its file or `None` when the file
/// does not exist, together with the text to write back: a missing file
/// gives the defaults and the text that stores them; an existing file is
/// read and nothing is written.
pub fn load_or_create_config(stored: Option<&str>) -> (r: (Result<HDMConfig, ConfigError>, Option<String>))
    ensures
        stored is None ==> {
            &&& (r.0 matches Ok(c) && c@ == default_model())
            &&& (r.1 matches Some(t) && t@ == render_model(default_model()))
        },
        stored matches Some(text) ==> {
            &&& r.1 is None
            &&& r.0 is Ok <==> validated(read_model(text@)) is Some
            &&& r.0 matches Ok(c) ==> validated(read_model(text@)) == Some(c@)
            &&& r.0 matches Err(e) ==> e is Conflict
        },
{
    match stored {
        None => {
            let c = default_config();
            let t = config_to_text(&c);
            (Ok(c), Some(t))
        },
        Some(text) => (config_from_text(text), None),
    }
}

/// A text value that is stored and read back unchanged: it holds no line
/// feed and has no whitespace at either end.
pub open spec fn is_line_safe(v: Seq<char>) -> bool {
    is_single_line(v) && trim(v) == v
}

/// Every text of the configuration is line-safe.
pub open spec fn is_storable(m: ConfigModel) -> bool {
    &&& is_line_safe(m.theme)
    &&& is_line_safe(m.default_session)
    &&& (m.two_factor_method matches Some(v) ==> is_line_safe(v))
    &&& (m.two_factor_secret matches Some(v) ==> is_line_safe(v))
}

/// A key made of lower-case letters and underscores.
spec fn is_plain_key(k: Seq<char>) -> bool {
    k.len() > 0 && forall|i: int| 0 <= i < k.len() ==> ('a' <= #[trigger] k[i] <= 'z' || k[i] == '_')
}

proof fn lemma_kv_entry(k: Seq<char>, v: Seq<char>)
    requires
        is_plain_key(k),
        is_line_safe(v),
    ensures
        line_entry(kv_line(k, v)) == Some((k, v)),
        is_single_line(kv_line(k, v)),
{
    let l = kv_line(k, v);
    let n = k.len() as int;
    if v.len() > 0 {
        crate::text::lemma_trim_fixed_ends(v);
        assert(l.last() == v.last());
    } else {
        assert(l.last() == '=');
    }
    assert(l[0] == k[0]);
    crate::text::lemma_trim_fixed(l);
    assert(is_first_index(l, '=', n)) by {
        assert forall|j: int| 0 <= j < n implies l[j] != '=' by {
            assert(l[j] == k[j]);
        }
    }
    let i = choose|i: int| is_first_index(l, '=', i);
    assert(i == n) by {
        if i < n {
            assert(l[i] == k[i]);
        }
    }
    assert(l.take(n) =~= k);
    assert(l.skip(n + 1) =~= v);
    crate::text::lemma_trim_fixed(k);
    assert forall|j: int| 0 <= j < l.len() implies l[j] != '\n' by {
        if j < n {
            assert(l[j] == k[j]);
        } else if j > n {
            assert(l[j] == v[j - n - 1]);
        }
    }
}

proof fn lemma_comment_entry(k: Seq<char>, v: Seq<char>)
    requires
        is_plain_key(k),
        is_line_safe(v),
        v.len() > 0,
    ensures
        line_entry(seq!['#', ' '] + kv_line(k, v)) is None,
        is_single_line(seq!['#', ' '] + kv_line(k, v)),
{
    let l = seq!['#', ' '] + kv_line(k, v);
    crate::text::lemma_trim_fixed_ends(v);
    assert(l.last() == v.last());
    crate::text::lemma_trim_fixed(l);
    lemma_kv_entry(k, v);
    assert forall|j: int| 0 <= j < l.len() implies l[j] != '\n' by {
        if j >= 2 {
            assert(l[j] == kv_line(k, v)[j - 2]);
        }
    }
}

proof fn lemma_entries_push(ls: Seq<Seq<char>>, l: Seq<char>)
    ensures
        entries_of(ls.push(l)) == match line_entry(l) {
            Some(e) => entries_of(ls).push(e),
            None => entries_of(ls),
        },
{
    assert(ls.push(l).drop_last() =~= ls);
}

proof fn lemma_bool_text(b: bool)
    ensures
        is_line_safe(bool_text(b)),
        bool_text(b).len() > 0,
        flag_value(Some(bool_text(b)), true) == b,
        flag_value(Some(bool_text(b)), false) == b,
{
    reveal_strlit("true");
    reveal_strlit("false");
    assert("true"@ =~= seq!['t', 'r', 'u', 'e']);
    assert("false"@ =~= seq!['f', 'a', 'l', 's', 'e']);
    crate::text::lemma_trim_fixed(bool_text(b));
}

/// The keys of the file, their form, and that they differ.
proof fn lemma_keys()
    ensures
        is_plain_key("theme"@),
        is_plain_key("tiling"@),
        is_plain_key("default_session"@),
        is_plain_key("autologin"@),
        is_plain_key("two_factor_enabled"@),
        is_plain_key("two_factor_method"@),
        is_plain_key("two_factor_secret"@),
        is_plain_key("systemctl_usedefine"@),
        "theme"@.len() == 5,
        "tiling"@.len() == 6,
        "default_session"@.len() == 15,
        "autologin"@.len() == 9,
        "two_factor_enabled"@.len() == 18,
        "two_factor_method"@.len() == 17,
        "two_factor_secret"@.len() == 17,
        "systemctl_usedefine"@.len() == 19,
        "two_factor_method"@ != "two_factor_secret"@,
{
    reveal_strlit("theme");
    reveal_strlit("tiling");
    reveal_strlit("default_session");
    reveal_strlit("autologin");
    reveal_strlit("two_factor_enabled");
    reveal_strlit("two_factor_method");
    reveal_strlit("two_factor_secret");
    reveal_strlit("systemctl_usedefine");
    assert("theme"@ =~= seq!['t', 'h', 'e', 'm', 'e']);
    assert("tiling"@ =~= seq!['t', 'i', 'l', 'i', 'n', 'g']);
    assert("default_session"@ =~= seq![
        'd', 'e', 'f', 'a', 'u', 'l', 't', '_', 's', 'e', 's', 's', 'i', 'o', 'n',
    ]);
    assert("autologin"@ =~= seq!['a', 'u', 't', 'o', 'l', 'o', 'g', 'i', 'n']);
    assert("two_factor_enabled"@ =~= seq![
        't', 'w', 'o', '_', 'f', 'a', 'c', 't', 'o', 'r', '_', 'e', 'n', 'a', 'b', 'l', 'e', 'd',
    ]);
    assert("two_factor_method"@ =~= seq![
        't', 'w', 'o', '_', 'f', 'a', 'c', 't', 'o', 'r', '_', 'm', 'e', 't', 'h', 'o', 'd',
    ]);
    assert("two_factor_secret"@ =~= seq![
        't', 'w', 'o', '_', 'f', 'a', 'c', 't', 'o', 'r', '_', 's', 'e', 'c', 'r', 'e', 't',
    ]);
    assert("systemctl_usedefine"@ =~= seq![
        's', 'y', 's', 't', 'e', 'm', 'c', 't', 'l', '_', 'u', 's', 'e', 'd', 'e', 'f', 'i', 'n', 'e',
    ]);
    assert("two_factor_method"@[11] != "two_factor_secret"@[11]);
}

/// The entry that an optional setting adds.
spec fn optional_entry(k: Seq<char>, v: Option<Seq<char>>) -> Seq<(Seq<char>, Seq<char>)> {
    match v {
        Some(t) => seq![(k, t)],
        None => Seq::empty(),
    }
}

/// The entries that the lines written for `m` set.
spec fn config_entries(m: ConfigModel) -> Seq<(Seq<char>, Seq<char>)> {
    seq![
        ("theme"@, m.theme),
        ("tiling"@, bool_text(m.tiling)),
        ("default_session"@, m.default_session),
        ("autologin"@, bool_text(m.autologin)),
        ("two_factor_enabled"@, bool_text(m.two_factor_enabled)),
    ] + optional_entry("two_factor_method"@, m.two_factor_method) + optional_entry(
        "two_factor_secret"@,
        m.two_factor_secret,
    ) + optional_entry(
        "systemctl_usedefine"@,
        if m.systemctl_usedefine {
            Some("true"@)
        } else {
            None
        },
    )
}

proof fn lemma_optional_line(k: Seq<char>, v: Option<Seq<char>>, ls: Seq<Seq<char>>)
    requires
        is_plain_key(k),
        v matches Some(t) ==> is_line_safe(t),
    ensures
        entries_of(ls + optional_line(k, v)) == entries_of(ls) + optional_entry(k, v),
        forall|i: int|
            0 <= i < optional_line(k, v).len() ==> is_single_line(#[trigger] optional_line(k, v)[i]),
{
    if let Some(t) = v {
        lemma_kv_entry(k, t);
        assert(ls + optional_line(k, v) =~= ls.push(kv_line(k, t)));
        lemma_entries_push(ls, kv_line(k, t));
        assert(entries_of(ls).push((k, t)) =~= entries_of(ls) + optional_entry(k, v));
    } else {
        assert(ls + optional_line(k, v) =~= ls);
        assert(entries_of(ls) + optional_entry(k, v) =~= entries_of(ls));
    }
}

proof fn lemma_config_entries(m: ConfigModel)
    requires
        is_storable(m),
    ensures
        entries_of(config_lines(m)) == config_entries(m),
        forall|i: int|
            0 <= i < config_lines(m).len() ==> is_single_line(#[trigger] config_lines(m)[i]),
{
    lemma_keys();
    lemma_bool_text(m.tiling);
    lemma_bool_text(m.autologin);
    lemma_bool_text(m.two_factor_enabled);
    lemma_bool_text(true);
    let l0 = kv_line("theme"@, m.theme);
    let l1 = kv_line("tiling"@, bool_text(m.tiling));
    let l2 = kv_line("default_session"@, m.default_session);
    let l3 = kv_line("autologin"@, bool_text(m.autologin));
    let l4 = kv_line("two_factor_enabled"@, bool_text(m.two_factor_enabled));
    lemma_kv_entry("theme"@, m.theme);
    lemma_kv_entry("tiling"@, bool_text(m.tiling));
    lemma_kv_entry("default_session"@, m.default_session);
    lemma_kv_entry("autologin"@, bool_text(m.autologin));
    lemma_kv_entry("two_factor_enabled"@, bool_text(m.two_factor_enabled));
    let p0 = Seq::<Seq<char>>::empty();
    lemma_entries_push(p0, l0);
    lemma_entries_push(p0.push(l0), l1);
    lemma_entries_push(p0.push(l0).push(l1), l2);
    lemma_entries_push(p0.push(l0).push(l1).push(l2), l3);
    lemma_entries_push(p0.push(l0).push(l1).push(l2).push(l3), l4);
    let base = p0.push(l0).push(l1).push(l2).push(l3).push(l4);
    assert(base =~= seq![l0, l1, l2, l3, l4]);
    let with_m = base + optional_line("two_factor_method"@, m.two_factor_method);
    lemma_optional_line("two_factor_method"@, m.two_factor_method, base);
    let with_s = with_m + optional_line("two_factor_secret"@, m.two_factor_secret);
    lemma_optional_line("two_factor_secret"@, m.two_factor_secret, with_m);
    let last = service_line(m.systemctl_usedefine);
    lemma_entries_push(with_s, last);
    if m.systemctl_usedefine {
        lemma_kv_entry("systemctl_usedefine"@, "true"@);
    } else {
        lemma_comment_entry("systemctl_usedefine"@, "true"@);
    }
    assert(config_lines(m) =~= with_s.push(last));
    assert(entries_of(config_lines(m)) =~= config_entries(m));
    let ls = config_lines(m);
    assert forall|i: int| 0 <= i < ls.len() implies is_single_line(#[trigger] ls[i]) by {
        if i < 5 {
            assert(ls[i] == base[i]);
        } else if i < with_m.len() {
            assert(ls[i] == with_m[i]);
            assert(with_m[i] == optional_line("two_factor_method"@, m.two_factor_method)[i - 5]);
        } else if i < with_s.len() {
            assert(ls[i] == with_s[i]);
            assert(with_s[i] == optional_line("two_factor_secret"@, m.two_factor_secret)[i
                - with_m.len()]);
        }
    }
}

proof fn lemma_lookup_single(k1: Seq<char>, v1: Seq<char>, k: Seq<char>)
    ensures
        lookup(seq![(k1, v1)], k) == if k1 == k {
            Some(v1)
        } else {
            None::<Seq<char>>
        },
{
    assert(seq![(k1, v1)].drop_last() =~= Seq::<(Seq<char>, Seq<char>)>::empty());
    assert(lookup(Seq::<(Seq<char>, Seq<char>)>::empty(), k) is None);
}

proof fn lemma_lookup_append(
    a: Seq<(Seq<char>, Seq<char>)>,
    b: Seq<(Seq<char>, Seq<char>)>,
    k: Seq<char>,
)
    ensures
        lookup(a + b, k) == match lookup(b, k) {
            Some(v) => Some(v),
            None => lookup(a, k),
        },
    decreases b.len(),
{
    if b.len() == 0 {
        assert(a + b =~= a);
    } else {
        assert((a + b).drop_last() =~= a + b.drop_last());
        lemma_lookup_append(a, b.drop_last(), k);
    }
}

proof fn lemma_lookup_optional(k1: Seq<char>, v: Option<Seq<char>>, k: Seq<char>)
    ensures
        lookup(optional_entry(k1, v), k) == if k1 == k {
            v
        } else {
            None
        },
{
    if let Some(t) = v {
        lemma_lookup_single(k1, t, k);
    }
}

/// What each key of `config_entries(m)` is found to hold.
proof fn lemma_config_lookups(m: ConfigModel)
    ensures
        lookup(config_entries(m), "theme"@) == Some(m.theme),
        lookup(config_entries(m), "tiling"@) == Some(bool_text(m.tiling)),
        lookup(config_entries(m), "default_session"@) == Some(m.default_session),
        lookup(config_entries(m), "autologin"@) == Some(bool_text(m.autologin)),
        lookup(config_entries(m), "two_factor_enabled"@) == Some(bool_text(m.two_factor_enabled)),
        lookup(config_entries(m), "two_factor_method"@) == m.two_factor_method,
        lookup(config_entries(m), "two_factor_secret"@) == m.two_factor_secret,
        lookup(config_entries(m), "systemctl_usedefine"@) == if m.systemctl_usedefine {
            Some("true"@)
        } else {
            None
        },
{
    lemma_keys();
    let base = seq![
        ("theme"@, m.theme),
        ("tiling"@, bool_text(m.tiling)),
        ("default_session"@, m.default_session),
        ("autologin"@, bool_text(m.autologin)),
        ("two_factor_enabled"@, bool_text(m.two_factor_enabled)),
    ];
    let mo = optional_entry("two_factor_method"@, m.two_factor_method);
    let so = optional_entry("two_factor_secret"@, m.two_factor_secret);
    let sys = optional_entry(
        "systemctl_usedefine"@,
        if m.systemctl_usedefine {
            Some("true"@)
        } else {
            None
        },
    );
    assert(config_entries(m) == base + mo + so + sys);
    reveal_with_fuel(lookup, 6);
    assert(base.drop_last().drop_last().drop_last().drop_last().drop_last() =~= Seq::<
        (Seq<char>, Seq<char>),
    >::empty());
    let keys = seq![
        "theme"@,
        "tiling"@,
        "default_session"@,
        "autologin"@,
        "two_factor_enabled"@,
        "two_factor_method"@,
        "two_factor_secret"@,
        "systemctl_usedefine"@,
    ];
    assert forall|i: int| 0 <= i < keys.len() implies {
        let k = #[trigger] keys[i];
        lookup(base + mo + so + sys, k) == match lookup(sys, k) {
            Some(v) => Some(v),
            None => match lookup(so, k) {
                Some(v) => Some(v),
                None => match lookup(mo, k) {
                    Some(v) => Some(v),
                    None => lookup(base, k),
                },
            },
        }
    } by {
        let k = keys[i];
        lemma_lookup_append(base + mo + so, sys, k);
        lemma_lookup_append(base + mo, so, k);
        lemma_lookup_append(base, mo, k);
        lemma_lookup_optional("systemctl_usedefine"@, if m.systemctl_usedefine {
            Some("true"@)
        } else {
            None
        }, k);
        lemma_lookup_optional("two_factor_secret"@, m.two_factor_secret, k);
        lemma_lookup_optional("two_factor_method"@, m.two_factor_method, k);
    }
    assert(keys[0] == "theme"@);
    assert(keys[1] == "tiling"@);
    assert(keys[2] == "default_session"@);
    assert(keys[3] == "autologin"@);
    assert(keys[4] == "two_factor_enabled"@);
    assert(keys[5] == "two_factor_method"@);
    assert(keys[6] == "two_factor_secret"@);
    assert(keys[7] == "systemctl_usedefine"@);
}

/// Reading back the text written for a configuration gives the same
/// configuration, for every configuration whose texts are line-safe; the
/// managed-service line reads back as the right boolean whether it was
/// written active or disabled.
pub proof fn lemma_round_trip(m: ConfigModel)
    requires
        is_storable(m),
    ensures
        read_model(render_model(m)) == m,
{
    lemma_config_entries(m);
    crate::text::lemma_split_join(config_lines(m));
    lemma_config_lookups(m);
    lemma_bool_text(m.tiling);
    lemma_bool_text(m.autologin);
    lemma_bool_text(m.two_factor_enabled);
    lemma_bool_text(true);
}

/// The defaults written for a missing file are read back as the same
/// defaults, and validation accepts them unchanged.
pub proof fn lemma_defaults_round_trip()
    ensures
        validated(read_model(render_model(default_model()))) == Some(default_model()),
{
    reveal_strlit("Adwaita-dark");
    reveal_strlit("Hyprland");
    let m = default_model();
    assert(m.theme =~= seq!['A', 'd', 'w', 'a', 'i', 't', 'a', '-', 'd', 'a', 'r', 'k']);
    assert(m.default_session =~= seq!['H', 'y', 'p', 'r', 'l', 'a', 'n', 'd']);
    crate::text::lemma_trim_fixed(m.theme);
    crate::text::lemma_trim_fixed(m.default_session);
    lemma_round_trip(m);
}

/// Validation rejects every configuration that switches on both autologin
/// and the managed service, and no configuration it accepts has both on.
pub proof fn lemma_no_valid_conflict(m: ConfigModel)
    ensures
        m.autologin && m.systemctl_usedefine ==> validated(m) is None,
        validated(m) matches Some(v) ==> !(v.autologin && v.systemctl_usedefine),
        is_valid(m) ==> !(m.autologin && m.systemctl_usedefine),
{
}

/// Relies on `dirs::config_dir`: the user's configuration directory, when
/// the platform and environment give one.
#[verifier::external_body]
fn user_config_dir() -> (r: Option<String>) {
    dirs::config_dir().map(|d| d.to_string_lossy().into_owned())
}

/// Relies on `dirs::data_local_dir`: the user's local data directory, when
/// the platform and environment give one.
#[verifier::external_body]
fn user_data_local_dir() -> (r: Option<String>) {
    dirs::data_local_dir().map(|d| d.to_string_lossy().into_owned())
}

/// The system directory of interfaces.
pub open spec fn system_ui_dir() -> Seq<char> {
    "/usr/share/hyprdm/quickshell"@
}

/// The `main.qml` of interface `session` under `dir`.
pub open spec fn ui_file(dir: Seq<char>, session: Seq<char>) -> Seq<char> {
    path_join(path_join(dir, session), "main.qml"@)
}

/// Where the interface `session` is looked for, in order: under the
/// user's configuration directory, under the user's local data directory,
/// then under the system directory.
pub open spec fn ui_candidates(
    config_dir: Option<Seq<char>>,
    data_dir: Option<Seq<char>>,
    session: Seq<char>,
) -> Seq<Seq<char>> {
    (match config_dir {
        Some(c) => seq![ui_file(path_join(c, "hyprdm/quickshell"@), session)],
        None => Seq::empty(),
    }) + (match data_dir {
        Some(d) => seq![ui_file(path_join(d, "quickshell"@), session)],
        None => Seq::empty(),
    }) + seq![ui_file(system_ui_dir(), session)]
}

/// The `main.qml` of interface `session` under `dir`.
fn ui_file_exec(dir: &str, session: &str) -> (r: String)
    ensures
        r@ == ui_file(dir@, session@),
{
    let d = join_path(dir, session);
    join_path(d.as_str(), "main.qml")
}

/// Where the interface `session` is looked for, given the user's
/// configuration and local data directories.
pub fn ui_candidates_in(config_dir: Option<&str>, data_dir: Option<&str>, session: &str) -> (r:
    Vec<String>)
    ensures
        r.deep_view() == ui_candidates(
            match config_dir {
                Some(c) => Some(c@),
                None => None,
            },
            match data_dir {
                Some(d) => Some(d@),
                None => None,
            },
            session@,
        ),
{
    let mut r: Vec<String> = Vec::new();
    match config_dir {
        Some(c) => {
            let base = join_path(c, "hyprdm/quickshell");
            r.push(ui_file_exec(base.as_str(), session));
        },
        None => {},
    }
    let ghost first = r.deep_view();
    match data_dir {
        Some(d) => {
            let base = join_path(d, "quickshell");
            r.push(ui_file_exec(base.as_str(), session));
        },
        None => {},
    }
    let ghost second = r.deep_view();
    r.push(ui_file_exec("/usr/share/hyprdm/quickshell", session));
    assert(r.deep_view() =~= second.push(ui_file(system_ui_dir(), session@)));
    assert(r.deep_view() =~= ui_candidates(
        match config_dir {
            Some(c) => Some(c@),
            None => None,
        },
        match data_dir {
            Some(d) => Some(d@),
            None => None,
        },
        session@,
    ));
    r
}

impl HDMConfig {
    /// Where the `main.qml` of the configured interface is looked for, in
    /// order; the system directory always comes last.
    pub fn quickshell_ui_candidates(&self) -> (r: Vec<String>)
        ensures
            exists|c: Option<Seq<char>>, d: Option<Seq<char>>|
                r.deep_view() == ui_candidates(c, d, self.default_session@),
            r.deep_view().len() >= 1,
            r.deep_view().last() == ui_file(system_ui_dir(), self.default_session@),
    {
        let config_dir = user_config_dir();
        let data_dir = user_data_local_dir();
        let c = match &config_dir {
            Some(s) => Some(s.as_str()),
            None => None,
        };
        let d = match &data_dir {
            Some(s) => Some(s.as_str()),
            None => None,
        };
        ui_candidates_in(c, d, self.default_session.as_str())
    }
}

} // verus!
