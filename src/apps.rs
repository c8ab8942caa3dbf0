//! Application entries of the pie menu: desktop-file parsing and the entries
//! built from favorites, running applications and dock applets.
use vstd::prelude::*;
use crate::text::{
    chars_of, chars_range, range_equals, range_starts_with, starts_with, str_equal,
    string_from_chars, trim, trim_bounds,
};

verus! {

/// `s` with every `%` followed by `code` removed, scanning left to right as
/// `str::replace` does.
pub open spec fn remove_code(s: Seq<char>, code: char) -> Seq<char>
    decreases s.len(),
{
    if s.len() == 0 {
        s
    } else if s.len() >= 2 && s[0] == '%' && s[1] == code {
        remove_code(s.skip(2), code)
    } else {
        seq![s[0]] + remove_code(s.skip(1), code)
    }
}

/// An `Exec=` value without its field codes (`%u %U %f %F %i %c %k`, removed in
/// that order) and without surrounding white space.
pub open spec fn clean_exec(v: Seq<char>) -> Seq<char> {
    trim(
        remove_code(
            remove_code(
                remove_code(
                    remove_code(remove_code(remove_code(remove_code(v, 'u'), 'U'), 'f'), 'F'),
                    'i',
                ),
                'c',
            ),
            'k',
        ),
    )
}

fn remove_code_vec(s: &Vec<char>, code: char) -> (r: Vec<char>)
    ensures
        r@ == remove_code(s@, code),
{
    let mut out: Vec<char> = Vec::new();
    let mut i: usize = 0;
    assert(s@.skip(0) =~= s@);
    assert(out@ + remove_code(s@, code) =~= remove_code(s@, code));
    while i < s.len()
        invariant
            i <= s@.len(),
            out@ + remove_code(s@.skip(i as int), code) == remove_code(s@, code),
        decreases s@.len() - i,
    {
        if i + 1 < s.len() && s[i] == '%' && s[i + 1] == code {
            assert(s@.skip(i as int).skip(2) =~= s@.skip(i + 2));
            i = i + 2;
        } else {
            assert(s@.skip(i as int).skip(1) =~= s@.skip(i + 1));
            let ghost before = out@;
            out.push(s[i]);
            assert(out@ =~= before + seq![s@[i as int]]);
            assert(before + remove_code(s@.skip(i as int), code) =~= out@ + remove_code(
                s@.skip(i + 1),
                code,
            ));
            i = i + 1;
        }
    }
    assert(s@.skip(i as int) =~= Seq::<char>::empty());
    assert(out@ + remove_code(s@.skip(i as int), code) =~= out@);
    out
}

fn clean_exec_value(v: Vec<char>) -> (r: Vec<char>)
    ensures
        r@ == clean_exec(v@),
{
    let a = remove_code_vec(&v, 'u');
    let b = remove_code_vec(&a, 'U');
    let c = remove_code_vec(&b, 'f');
    let d = remove_code_vec(&c, 'F');
    let e = remove_code_vec(&d, 'i');
    let f = remove_code_vec(&e, 'c');
    let g = remove_code_vec(&f, 'k');
    let (lo, hi) = trim_bounds(&g, 0, g.len());
    assert(g@.subrange(0, g@.len() as int) =~= g@);
    chars_range(&g, lo, hi)
}

/// The fields that desktop-file parsing collects.
pub struct FieldsView {
    pub in_entry: bool,
    pub name: Option<Seq<char>>,
    pub icon: Option<Seq<char>>,
    pub command: Option<Seq<char>>,
}

/// Parsing state of a desktop file.
pub struct DesktopFields {
    /// Inside the `[Desktop Entry]` group.
    pub in_entry: bool,
    /// The first `Name=` value of the group.
    pub name: Option<String>,
    /// The last `Icon=` value of the group.
    pub icon: Option<String>,
    /// The last `Exec=` value of the group, cleaned.
    pub command: Option<String>,
}

pub open spec fn opt_view(o: Option<String>) -> Option<Seq<char>> {
    match o {
        Some(s) => Some(s@),
        None => None,
    }
}

impl View for DesktopFields {
    type V = FieldsView;

    open spec fn view(&self) -> FieldsView {
        FieldsView {
            in_entry: self.in_entry,
            name: opt_view(self.name),
            icon: opt_view(self.icon),
            command: opt_view(self.command),
        }
    }
}

/// Effect of one line of a desktop file. Lines are trimmed. A group header
/// enters or leaves the `[Desktop Entry]` group; inside it, the first `Name=`
/// and the last `Icon=` and `Exec=` values are kept.
pub open spec fn apply_line(st: FieldsView, line: Seq<char>) -> FieldsView {
    let t = trim(line);
    if t == "[Desktop Entry]"@ {
        FieldsView { in_entry: true, ..st }
    } else if t.len() > 0 && t[0] == '[' {
        FieldsView { in_entry: false, ..st }
    } else if !st.in_entry {
        st
    } else if starts_with(t, "Name="@) {
        if st.name is None {
            FieldsView { name: Some(t.skip("Name="@.len() as int)), ..st }
        } else {
            st
        }
    } else if starts_with(t, "Icon="@) {
        FieldsView { icon: Some(t.skip("Icon="@.len() as int)), ..st }
    } else if starts_with(t, "Exec="@) {
        FieldsView { command: Some(clean_exec(t.skip("Exec="@.len() as int))), ..st }
    } else {
        st
    }
}

pub open spec fn no_fields() -> FieldsView {
    FieldsView { in_entry: false, name: None, icon: None, command: None }
}

/// Parsing state after the characters `s`, with the characters of the line not
/// yet ended.
pub open spec fn fields_after(s: Seq<char>) -> (FieldsView, Seq<char>)
    decreases s.len(),
{
    if s.len() == 0 {
        (no_fields(), Seq::empty())
    } else {
        let (st, cur) = fields_after(s.drop_last());
        if s.last() == '\n' {
            (apply_line(st, cur), Seq::empty())
        } else {
            (st, cur.push(s.last()))
        }
    }
}

/// The fields of a desktop file: its lines, split at `\n`, in order.
pub open spec fn desktop_fields(s: Seq<char>) -> FieldsView {
    let (st, cur) = fields_after(s);
    if cur.len() > 0 { apply_line(st, cur) } else { st }
}

/// Name, icon and command of a desktop file; none without a name.
pub open spec fn desktop_entry(s: Seq<char>) -> Option<(Seq<char>, Option<Seq<char>>, Option<Seq<char>>)> {
    let f = desktop_fields(s);
    match f.name {
        Some(n) => Some((n, f.icon, f.command)),
        None => None,
    }
}

fn apply_line_exec(chars: &Vec<char>, lo: usize, hi: usize, st: &mut DesktopFields)
    requires
        lo <= hi <= chars@.len(),
    ensures
        final(st)@ == apply_line(old(st)@, chars@.subrange(lo as int, hi as int)),
{
    let ghost line = chars@.subrange(lo as int, hi as int);
    let (a, b) = trim_bounds(chars, lo, hi);
    let ghost t = chars@.subrange(a as int, b as int);
    if range_equals(chars, a, b, "[Desktop Entry]") {
        st.in_entry = true;
    } else if a < b && chars[a] == '[' {
        st.in_entry = false;
    } else if !st.in_entry {
    } else if range_starts_with(chars, a, b, "Name=") {
        if st.name.is_none() {
            let k = "Name=".unicode_len();
            assert(chars@.subrange(a + k, b as int) =~= t.skip(k as int));
            let v = chars_range(chars, a + k, b);
            st.name = Some(string_from_chars(&v));
        }
    } else if range_starts_with(chars, a, b, "Icon=") {
        let k = "Icon=".unicode_len();
        assert(chars@.subrange(a + k, b as int) =~= t.skip(k as int));
        let v = chars_range(chars, a + k, b);
        st.icon = Some(string_from_chars(&v));
    } else if range_starts_with(chars, a, b, "Exec=") {
        let k = "Exec=".unicode_len();
        assert(chars@.subrange(a + k, b as int) =~= t.skip(k as int));
        let v = chars_range(chars, a + k, b);
        let cleaned = clean_exec_value(v);
        st.command = Some(string_from_chars(&cleaned));
    }
}

/// Parses the text of a desktop file into its name, icon and command (with
/// field codes removed). Returns `None` when the `[Desktop Entry]` group gives
/// no name.
pub fn parse_desktop_file(content: &str) -> (r: Option<(String, Option<String>, Option<String>)>)
    ensures
        match desktop_entry(content@) {
            Some((n, i, e)) => r matches Some((rn, ri, re)) && rn@ == n && opt_view(ri) == i
                && opt_view(re) == e,
            None => r is None,
        },
{
    let chars = chars_of(content);
    let mut st = DesktopFields { in_entry: false, name: None, icon: None, command: None };
    let mut line_start: usize = 0;
    let mut i: usize = 0;
    while i < chars.len()
        invariant
            chars@ == content@,
            line_start <= i <= chars@.len(),
            fields_after(chars@.subrange(0, i as int)) == (st@, chars@.subrange(
                line_start as int,
                i as int,
            )),
        decreases chars@.len() - i,
    {
        assert(chars@.subrange(0, i + 1).drop_last() =~= chars@.subrange(0, i as int));
        if chars[i] == '\n' {
            apply_line_exec(&chars, line_start, i, &mut st);
            line_start = i + 1;
            assert(chars@.subrange(line_start as int, i + 1) =~= Seq::<char>::empty());
        } else {
            assert(chars@.subrange(line_start as int, i + 1) =~= chars@.subrange(
                line_start as int,
                i as int,
            ).push(chars@[i as int]));
        }
        i = i + 1;
    }
    assert(chars@.subrange(0, chars@.len() as int) =~= content@);
    if line_start < chars.len() {
        apply_line_exec(&chars, line_start, chars.len(), &mut st);
    }
    match st.name {
        Some(name) => Some((name, st.icon, st.command)),
        None => None,
    }
}

/// An application shown in the pie menu.
#[derive(Debug, Clone)]
pub struct AppInfo {
    /// Application id (desktop file name without `.desktop`).
    pub id: String,
    /// Display name.
    pub name: String,
    /// Icon name or path.
    pub icon: Option<String>,
    /// Command line to start it.
    pub command: Option<String>,
    /// Path of its desktop file; empty for dock applets.
    pub desktop_path: String,
    /// Number of open windows (0 when not running).
    pub running_count: u32,
    /// Whether it is a dock favorite rather than only running.
    pub is_favorite: bool,
}

/// Mathematical view of an [`AppInfo`].
pub struct AppInfoView {
    pub id: Seq<char>,
    pub name: Seq<char>,
    pub icon: Option<Seq<char>>,
    pub command: Option<Seq<char>>,
    pub desktop_path: Seq<char>,
    pub running_count: u32,
    pub is_favorite: bool,
}

impl View for AppInfo {
    type V = AppInfoView;

    open spec fn view(&self) -> AppInfoView {
        AppInfoView {
            id: self.id@,
            name: self.name@,
            icon: opt_view(self.icon),
            command: opt_view(self.command),
            desktop_path: self.desktop_path@,
            running_count: self.running_count,
            is_favorite: self.is_favorite,
        }
    }
}

pub open spec fn opt_app_view(o: Option<AppInfo>) -> Option<AppInfoView> {
    match o {
        Some(a) => Some(a@),
        None => None,
    }
}

/// The character sequences of a list of strings.
pub open spec fn string_views(v: Seq<String>) -> Seq<Seq<char>> {
    v.map_values(|x: String| x@)
}

pub open spec fn apps_view(v: Seq<AppInfo>) -> Seq<AppInfoView> {
    v.map_values(|a: AppInfo| a@)
}

/// The entry of application `id` whose desktop file at `path` holds `content`:
/// not running, not a favorite; none when the file gives no name.
pub open spec fn app_from_file(id: Seq<char>, path: Seq<char>, content: Seq<char>) -> Option<AppInfoView> {
    match desktop_entry(content) {
        Some((name, icon, command)) => Some(
            AppInfoView {
                id,
                name,
                icon,
                command,
                desktop_path: path,
                running_count: 0,
                is_favorite: false,
            },
        ),
        None => None,
    }
}

/// Builds the entry of application `app_id` from its desktop file, found at
/// `desktop_path` with text `content`. Returns `None` when the file gives no name.
pub fn load_app_info(app_id: &str, desktop_path: &str, content: &str) -> (r: Option<AppInfo>)
    ensures
        opt_app_view(r) == app_from_file(app_id@, desktop_path@, content@),
{
    match parse_desktop_file(content) {
        Some((name, icon, command)) => Some(
            AppInfo {
                id: String::from_str(app_id),
                name,
                icon,
                command,
                desktop_path: String::from_str(desktop_path),
                running_count: 0,
                is_favorite: false,
            },
        ),
        None => None,
    }
}

/// A desktop file found for an application id.
#[derive(Debug, Clone)]
pub struct DesktopFile {
    pub app_id: String,
    pub path: String,
    pub content: String,
}

/// The favorites among `files`, in order: every file that gives a name, marked
/// as a favorite.
pub open spec fn favorites_from(files: Seq<DesktopFile>) -> Seq<AppInfoView>
    decreases files.len(),
{
    if files.len() == 0 {
        Seq::empty()
    } else {
        let f = files.last();
        let prev = favorites_from(files.drop_last());
        match app_from_file(f.app_id@, f.path@, f.content@) {
            Some(a) => prev.push(AppInfoView { is_favorite: true, ..a }),
            None => prev,
        }
    }
}

/// Builds the favorite entries from the desktop files found for them, in order;
/// files without a name are left out.
pub fn load_apps(files: &Vec<DesktopFile>) -> (r: Vec<AppInfo>)
    ensures
        apps_view(r@) == favorites_from(files@),
{
    let mut apps: Vec<AppInfo> = Vec::new();
    let mut i: usize = 0;
    while i < files.len()
        invariant
            i <= files@.len(),
            apps_view(apps@) == favorites_from(files@.subrange(0, i as int)),
        decreases files@.len() - i,
    {
        assert(files@.subrange(0, i + 1).drop_last() =~= files@.subrange(0, i as int));
        let f = &files[i];
        let ghost before = apps@;
        match load_app_info(f.app_id.as_str(), f.path.as_str(), f.content.as_str()) {
            Some(app) => {
                let mut app = app;
                app.is_favorite = true;
                apps.push(app);
                assert(apps_view(apps@) =~= apps_view(before).push(apps@.last()@));
            },
            None => {},
        }
        i = i + 1;
    }
    assert(files@.subrange(0, files@.len() as int) =~= files@);
    apps
}

/// The dock applets that may appear in the pie menu, in order:
/// `(id, name, command, icon)`.
pub open spec fn dock_applet(k: int) -> (Seq<char>, Seq<char>, Seq<char>, Seq<char>) {
    if k == 0 {
        (
            "com.system76.CosmicPanelAppButton"@,
            "App Library"@,
            "cosmic-app-library"@,
            "com.system76.CosmicPanelAppButton"@,
        )
    } else if k == 1 {
        (
            "com.system76.CosmicPanelLauncherButton"@,
            "Launcher"@,
            "cosmic-launcher"@,
            "com.system76.CosmicPanelLauncherButton"@,
        )
    } else {
        (
            "com.system76.CosmicPanelWorkspacesButton"@,
            "Workspaces"@,
            "cosmic-workspaces"@,
            "com.system76.CosmicPanelWorkspacesButton"@,
        )
    }
}

/// Number of known dock applets.
pub const DOCK_APPLET_COUNT: usize = 3;

/// The entry of known dock applet `k`: a favorite, without desktop file.
pub open spec fn dock_applet_view(k: int) -> AppInfoView {
    let (id, name, command, icon) = dock_applet(k);
    AppInfoView {
        id,
        name,
        icon: Some(icon),
        command: Some(command),
        desktop_path: Seq::empty(),
        running_count: 0,
        is_favorite: true,
    }
}

/// The entries of the first `n` known dock applets whose ids are in `enabled`.
pub open spec fn dock_applets_for(enabled: Seq<Seq<char>>, n: int) -> Seq<AppInfoView>
    decreases n,
{
    if n <= 0 {
        Seq::empty()
    } else {
        let prev = dock_applets_for(enabled, n - 1);
        if enabled.contains(dock_applet(n - 1).0) { prev.push(dock_applet_view(n - 1)) } else { prev }
    }
}

fn dock_applet_info(k: usize) -> (r: AppInfo)
    requires
        k < DOCK_APPLET_COUNT,
    ensures
        r@ == dock_applet_view(k as int),
{
    let (id, name, command, icon) = if k == 0 {
        (
            "com.system76.CosmicPanelAppButton",
            "App Library",
            "cosmic-app-library",
            "com.system76.CosmicPanelAppButton",
        )
    } else if k == 1 {
        (
            "com.system76.CosmicPanelLauncherButton",
            "Launcher",
            "cosmic-launcher",
            "com.system76.CosmicPanelLauncherButton",
        )
    } else {
        (
            "com.system76.CosmicPanelWorkspacesButton",
            "Workspaces",
            "cosmic-workspaces",
            "com.system76.CosmicPanelWorkspacesButton",
        )
    };
    AppInfo {
        id: String::from_str(id),
        name: String::from_str(name),
        icon: Some(String::from_str(icon)),
        command: Some(String::from_str(command)),
        desktop_path: String::new(),
        running_count: 0,
        is_favorite: true,
    }
}

/// Whether some string in `list` equals `s`.
fn list_contains(list: &[String], s: &str) -> (r: bool)
    ensures
        r == string_views(list@).contains(s@),
{
    let mut i: usize = 0;
    while i < list.len()
        invariant
            i <= list@.len(),
            forall|k: int| 0 <= k < i ==> list@[k]@ != s@,
        decreases list@.len() - i,
    {
        if str_equal(list[i].as_str(), s) {
            assert(string_views(list@)[i as int] == s@);
            return true;
        }
        i = i + 1;
    }
    proof {
        if string_views(list@).contains(s@) {
            let k = choose|k: int|
                0 <= k < list@.len() && #[trigger] string_views(list@)[k] == s@;
            assert(list@[k]@ == s@);
        }
    }
    false
}

/// Entries for the known dock applets that are enabled, in the known order.
pub fn load_dock_applets(enabled_applets: &[String]) -> (r: Vec<AppInfo>)
    ensures
        apps_view(r@) == dock_applets_for(
            string_views(enabled_applets@),
            DOCK_APPLET_COUNT as int,
        ),
{
    let ghost enabled = string_views(enabled_applets@);
    let mut apps: Vec<AppInfo> = Vec::new();
    let mut k: usize = 0;
    while k < DOCK_APPLET_COUNT
        invariant
            k <= DOCK_APPLET_COUNT,
            enabled == string_views(enabled_applets@),
            apps_view(apps@) == dock_applets_for(enabled, k as int),
        decreases DOCK_APPLET_COUNT - k,
    {
        let applet = dock_applet_info(k);
        let ghost before = apps@;
        if list_contains(enabled_applets, applet.id.as_str()) {
            apps.push(applet);
            assert(apps_view(apps@) =~= apps_view(before).push(dock_applet_view(k as int)));
        }
        k = k + 1;
    }
    apps
}

/// What `str::to_lowercase` returns for the characters `s`.
pub uninterp spec fn lower_of(s: Seq<char>) -> Seq<char>;

/// Relies on `str::to_lowercase`: the lowercase form depends on the characters alone.
#[verifier::external_body]
fn lowercase(s: &str) -> (r: String)
    ensures
        r@ == lower_of(s@),
{
    s.to_lowercase()
}

/// Whether `s` ends with `p`.
pub open spec fn ends_with(s: Seq<char>, p: Seq<char>) -> bool {
    p.len() <= s.len() && s.subrange(s.len() - p.len(), s.len() as int) == p
}

/// `s` with every trailing `.desktop` removed.
pub open spec fn strip_desktop(s: Seq<char>) -> Seq<char>
    decreases s.len(),
{
    if ".desktop"@.len() > 0 && ends_with(s, ".desktop"@) {
        strip_desktop(s.subrange(0, s.len() - ".desktop"@.len()))
    } else {
        s
    }
}

/// The part of `s` after its last `.`; all of `s` when it has none.
pub open spec fn after_last_dot(s: Seq<char>) -> Seq<char>
    decreases s.len(),
{
    if s.len() == 0 {
        s
    } else if s.last() == '.' {
        Seq::empty()
    } else {
        after_last_dot(s.drop_last()).push(s.last())
    }
}

/// Whether the desktop file `file_name` belongs to `app_id` when no file is
/// named exactly after it: its name ends with `.desktop`, and the last
/// dot-separated part of the rest, or the whole rest, equals the id ignoring case.
pub open spec fn desktop_name_matches(app_id: Seq<char>, file_name: Seq<char>) -> bool {
    let base = strip_desktop(file_name);
    &&& ends_with(file_name, ".desktop"@)
    &&& (lower_of(after_last_dot(base)) == lower_of(app_id) || lower_of(base) == lower_of(app_id))
}

fn ends_with_vec(chars: &Vec<char>, n: usize, suffix: &str) -> (r: bool)
    requires
        n <= chars@.len(),
    ensures
        r == ends_with(chars@.subrange(0, n as int), suffix@),
{
    let m = suffix.unicode_len();
    if m > n {
        return false;
    }
    let r = range_equals(chars, n - m, n, suffix);
    assert(chars@.subrange(0, n as int).subrange(n - m, n as int) =~= chars@.subrange(
        n - m,
        n as int,
    ));
    r
}

/// Whether the desktop file named `file_name` is taken for `app_id` in the
/// search by name (see [`desktop_name_matches`]).
pub fn desktop_file_matches(app_id: &str, file_name: &str) -> (r: bool)
    ensures
        r == desktop_name_matches(app_id@, file_name@),
{
    let chars = chars_of(file_name);
    assert(chars@.subrange(0, chars@.len() as int) =~= chars@);
    if !ends_with_vec(&chars, chars.len(), ".desktop") {
        return false;
    }
    let m = ".desktop".unicode_len();
    let mut n = chars.len();
    while m > 0 && ends_with_vec(&chars, n, ".desktop")
        invariant
            n <= chars@.len(),
            m == ".desktop"@.len(),
            strip_desktop(chars@) == strip_desktop(chars@.subrange(0, n as int)),
        decreases n,
    {
        assert(chars@.subrange(0, n as int).subrange(0, n - m) =~= chars@.subrange(0, n - m));
        n = n - m;
    }
    let ghost base = chars@.subrange(0, n as int);
    assert(strip_desktop(chars@) == base);
    let mut dot = n;
    while dot > 0 && chars[dot - 1] != '.'
        invariant
            dot <= n <= chars@.len(),
            base == chars@.subrange(0, n as int),
            after_last_dot(base) == after_last_dot(chars@.subrange(0, dot as int)) + chars@.subrange(
                dot as int,
                n as int,
            ),
        decreases dot,
    {
        let ghost pre = chars@.subrange(0, dot as int);
        assert(pre.drop_last() =~= chars@.subrange(0, dot - 1));
        assert(chars@.subrange(dot - 1, n as int) =~= seq![pre.last()] + chars@.subrange(
            dot as int,
            n as int,
        ));
        assert(after_last_dot(pre) == after_last_dot(pre.drop_last()).push(pre.last()));
        assert(after_last_dot(pre.drop_last()).push(pre.last()) + chars@.subrange(dot as int, n as int)
            =~= after_last_dot(pre.drop_last()) + chars@.subrange(dot - 1, n as int));
        dot = dot - 1;
    }
    assert(after_last_dot(chars@.subrange(0, dot as int)) =~= Seq::<char>::empty());
    assert(Seq::<char>::empty() + chars@.subrange(dot as int, n as int) =~= chars@.subrange(
        dot as int,
        n as int,
    ));
    let last_part = string_from_chars(&chars_range(&chars, dot, n));
    let base_str = string_from_chars(&chars_range(&chars, 0, n));
    let id_lower = lowercase(app_id);
    if str_equal(lowercase(last_part.as_str()).as_str(), id_lower.as_str()) {
        return true;
    }
    str_equal(lowercase(base_str.as_str()).as_str(), id_lower.as_str())
}

/// The entries of a list of `(app id, window count)` pairs, as character sequences.
pub open spec fn pairs_view(v: Seq<(String, u32)>) -> Seq<(Seq<char>, u32)> {
    v.map_values(|p: (String, u32)| (p.0@, p.1))
}

/// Whether a running app id names `app_id` loosely: equal ignoring case, or
/// its last dot-separated part equals the id ignoring case, or it equals the
/// id's last dot-separated part ignoring case.
pub open spec fn loosely_names(running: Seq<char>, app_id: Seq<char>) -> bool {
    ||| lower_of(running) == lower_of(app_id)
    ||| lower_of(after_last_dot(running)) == lower_of(app_id)
    ||| lower_of(running) == lower_of(after_last_dot(app_id))
}

/// The count of the first entry named exactly `app_id`.
pub open spec fn exact_count(app_id: Seq<char>, running: Seq<(Seq<char>, u32)>) -> Option<u32>
    decreases running.len(),
{
    if running.len() == 0 {
        None
    } else if running[0].0 == app_id {
        Some(running[0].1)
    } else {
        exact_count(app_id, running.skip(1))
    }
}

/// The count of the first entry that loosely names `app_id`.
pub open spec fn loose_count(app_id: Seq<char>, running: Seq<(Seq<char>, u32)>) -> Option<u32>
    decreases running.len(),
{
    if running.len() == 0 {
        None
    } else if loosely_names(running[0].0, app_id) {
        Some(running[0].1)
    } else {
        loose_count(app_id, running.skip(1))
    }
}

/// Open windows of `app_id`: an entry named exactly after it wins, then the
/// first that names it loosely; 0 when none does.
pub open spec fn running_count(app_id: Seq<char>, running: Seq<(Seq<char>, u32)>) -> u32 {
    match exact_count(app_id, running) {
        Some(c) => c,
        None => match loose_count(app_id, running) {
            Some(c) => c,
            None => 0,
        },
    }
}

/// The part of `s` after its last `.`, as a string.
fn after_last_dot_str(s: &str) -> (r: String)
    ensures
        r@ == after_last_dot(s@),
{
    let chars = chars_of(s);
    let n = chars.len();
    let mut dot = n;
    assert(chars@.subrange(0, n as int) =~= chars@);
    assert(after_last_dot(chars@) + chars@.subrange(n as int, n as int) =~= after_last_dot(chars@));
    while dot > 0 && chars[dot - 1] != '.'
        invariant
            dot <= n,
            n == chars@.len(),
            chars@ == s@,
            after_last_dot(chars@) == after_last_dot(chars@.subrange(0, dot as int)) + chars@.subrange(
                dot as int,
                n as int,
            ),
        decreases dot,
    {
        let ghost pre = chars@.subrange(0, dot as int);
        assert(pre.drop_last() =~= chars@.subrange(0, dot - 1));
        assert(after_last_dot(pre.drop_last()).push(pre.last()) + chars@.subrange(dot as int, n as int)
            =~= after_last_dot(pre.drop_last()) + chars@.subrange(dot - 1, n as int));
        dot = dot - 1;
    }
    assert(chars@.subrange(0, n as int) =~= chars@);
    assert(after_last_dot(chars@.subrange(0, dot as int)) =~= Seq::<char>::empty());
    assert(Seq::<char>::empty() + chars@.subrange(dot as int, n as int) =~= chars@.subrange(
        dot as int,
        n as int,
    ));
    string_from_chars(&chars_range(&chars, dot, n))
}

/// Number of open windows of `app_id` among the running apps (see [`running_count`]).
pub fn get_running_count(app_id: &str, running_apps: &Vec<(String, u32)>) -> (r: u32)
    ensures
        r == running_count(app_id@, pairs_view(running_apps@)),
{
    let ghost rv = pairs_view(running_apps@);
    let mut i: usize = 0;
    assert(rv.skip(0) =~= rv);
    while i < running_apps.len()
        invariant
            i <= running_apps@.len(),
            rv == pairs_view(running_apps@),
            exact_count(app_id@, rv) == exact_count(app_id@, rv.skip(i as int)),
        decreases running_apps@.len() - i,
    {
        assert(rv.skip(i as int).skip(1) =~= rv.skip(i + 1));
        assert(rv.skip(i as int)[0] == rv[i as int]);
        if str_equal(running_apps[i].0.as_str(), app_id) {
            return running_apps[i].1;
        }
        i = i + 1;
    }
    assert(rv.skip(i as int).len() == 0);
    let id_lower = lowercase(app_id);
    let id_last_lower = lowercase(after_last_dot_str(app_id).as_str());
    let mut j: usize = 0;
    assert(rv.skip(0) =~= rv);
    while j < running_apps.len()
        invariant
            j <= running_apps@.len(),
            rv == pairs_view(running_apps@),
            exact_count(app_id@, rv) is None,
            id_lower@ == lower_of(app_id@),
            id_last_lower@ == lower_of(after_last_dot(app_id@)),
            loose_count(app_id@, rv) == loose_count(app_id@, rv.skip(j as int)),
        decreases running_apps@.len() - j,
    {
        assert(rv.skip(j as int).skip(1) =~= rv.skip(j + 1));
        assert(rv.skip(j as int)[0] == rv[j as int]);
        let running = running_apps[j].0.as_str();
        let count = running_apps[j].1;
        let running_lower = lowercase(running);
        if str_equal(running_lower.as_str(), id_lower.as_str()) {
            return count;
        }
        let last_lower = lowercase(after_last_dot_str(running).as_str());
        if str_equal(last_lower.as_str(), id_lower.as_str()) {
            return count;
        }
        if str_equal(running_lower.as_str(), id_last_lower.as_str()) {
            return count;
        }
        j = j + 1;
    }
    assert(rv.skip(j as int).len() == 0);
    0
}

/// Whether `id` equals, ignoring case, some id in `seen`.
pub open spec fn id_seen(id: Seq<char>, seen: Seq<Seq<char>>) -> bool {
    exists|k: int| 0 <= k < seen.len() && lower_of(#[trigger] seen[k]) == lower_of(id)
}

/// Whether `id` is already among `seen`, ignoring case.
pub fn is_id_in_set(id: &str, seen: &Vec<String>) -> (r: bool)
    ensures
        r == id_seen(id@, string_views(seen@)),
{
    let id_lower = lowercase(id);
    let mut i: usize = 0;
    while i < seen.len()
        invariant
            i <= seen@.len(),
            id_lower@ == lower_of(id@),
            forall|k: int| 0 <= k < i ==> lower_of(#[trigger] string_views(seen@)[k]) != lower_of(id@),
        decreases seen@.len() - i,
    {
        let s_lower = lowercase(seen[i].as_str());
        if str_equal(s_lower.as_str(), id_lower.as_str()) {
            assert(string_views(seen@)[i as int] == seen@[i as int]@);
            return true;
        }
        assert(string_views(seen@)[i as int] == seen@[i as int]@);
        i = i + 1;
    }
    false
}

/// The first desktop file in `files` found for `app_id`.
pub open spec fn file_for(app_id: Seq<char>, files: Seq<DesktopFile>) -> Option<DesktopFile>
    decreases files.len(),
{
    if files.len() == 0 {
        None
    } else if files[0].app_id@ == app_id {
        Some(files[0])
    } else {
        file_for(app_id, files.skip(1))
    }
}

/// Entries and seen ids after the favorites: each favorite with a named desktop
/// file, marked as a favorite, with its window count.
pub open spec fn favorites_with_running(
    favorites: Seq<DesktopFile>,
    running: Seq<(Seq<char>, u32)>,
) -> (Seq<AppInfoView>, Seq<Seq<char>>)
    decreases favorites.len(),
{
    if favorites.len() == 0 {
        (Seq::empty(), Seq::empty())
    } else {
        let (apps, seen) = favorites_with_running(favorites.drop_last(), running);
        let f = favorites.last();
        match app_from_file(f.app_id@, f.path@, f.content@) {
            Some(a) => (
                apps.push(
                    AppInfoView { is_favorite: true, running_count: running_count(f.app_id@, running), ..a },
                ),
                seen.push(f.app_id@),
            ),
            None => (apps, seen),
        }
    }
}

/// Entries and seen ids after the first `n` running apps: each one not seen yet
/// (ignoring case) whose desktop file gives a name is added, not a favorite,
/// with its window count.
pub open spec fn with_running(
    favorites: Seq<DesktopFile>,
    running: Seq<(Seq<char>, u32)>,
    files: Seq<DesktopFile>,
    n: int,
) -> (Seq<AppInfoView>, Seq<Seq<char>>)
    decreases n,
{
    if n <= 0 {
        favorites_with_running(favorites, running)
    } else {
        let (apps, seen) = with_running(favorites, running, files, n - 1);
        let (id, count) = running[n - 1];
        if id_seen(id, seen) {
            (apps, seen)
        } else {
            match file_for(id, files) {
                Some(f) => match app_from_file(id, f.path@, f.content@) {
                    Some(a) => (
                        apps.push(AppInfoView { is_favorite: false, running_count: count, ..a }),
                        seen.push(id),
                    ),
                    None => (apps, seen),
                },
                None => (apps, seen),
            }
        }
    }
}

fn find_file<'a>(app_id: &str, files: &'a Vec<DesktopFile>) -> (r: Option<&'a DesktopFile>)
    ensures
        match file_for(app_id@, files@) {
            Some(f) => r == Some(&f),
            None => r is None,
        },
{
    let mut i: usize = 0;
    assert(files@.skip(0) =~= files@);
    while i < files.len()
        invariant
            i <= files@.len(),
            file_for(app_id@, files@) == file_for(app_id@, files@.skip(i as int)),
        decreases files@.len() - i,
    {
        assert(files@.skip(i as int).skip(1) =~= files@.skip(i + 1));
        assert(files@.skip(i as int)[0] == files@[i as int]);
        if str_equal(files[i].app_id.as_str(), app_id) {
            return Some(&files[i]);
        }
        i = i + 1;
    }
    None
}

/// Entries for the favorites, then for the running apps that are not
/// favorites. `favorites` are the desktop files found for the favorite ids, in
/// order; `running_apps` pairs each running app id with its window count;
/// `running_files` are the desktop files found for running app ids.
pub fn load_apps_with_running(
    favorites: &Vec<DesktopFile>,
    running_apps: &Vec<(String, u32)>,
    running_files: &Vec<DesktopFile>,
) -> (r: Vec<AppInfo>)
    ensures
        apps_view(r@) == with_running(
            favorites@,
            pairs_view(running_apps@),
            running_files@,
            running_apps@.len() as int,
        ).0,
{
    let ghost rv = pairs_view(running_apps@);
    let mut apps: Vec<AppInfo> = Vec::new();
    let mut seen: Vec<String> = Vec::new();
    let mut i: usize = 0;
    while i < favorites.len()
        invariant
            i <= favorites@.len(),
            rv == pairs_view(running_apps@),
            (apps_view(apps@), string_views(seen@)) == favorites_with_running(
                favorites@.subrange(0, i as int),
                rv,
            ),
        decreases favorites@.len() - i,
    {
        assert(favorites@.subrange(0, i + 1).drop_last() =~= favorites@.subrange(0, i as int));
        let f = &favorites[i];
        let ghost apps_before = apps@;
        let ghost seen_before = seen@;
        match load_app_info(f.app_id.as_str(), f.path.as_str(), f.content.as_str()) {
            Some(app) => {
                let mut app = app;
                app.is_favorite = true;
                app.running_count = get_running_count(f.app_id.as_str(), running_apps);
                apps.push(app);
                seen.push(f.app_id.clone());
                assert(apps_view(apps@) =~= apps_view(apps_before).push(apps@.last()@));
                assert(string_views(seen@) =~= string_views(seen_before).push(f.app_id@));
            },
            None => {},
        }
        i = i + 1;
    }
    assert(favorites@.subrange(0, favorites@.len() as int) =~= favorites@);
    let mut j: usize = 0;
    while j < running_apps.len()
        invariant
            j <= running_apps@.len(),
            rv == pairs_view(running_apps@),
            (apps_view(apps@), string_views(seen@)) == with_running(
                favorites@,
                rv,
                running_files@,
                j as int,
            ),
        decreases running_apps@.len() - j,
    {
        let running_id = running_apps[j].0.as_str();
        let count = running_apps[j].1;
        assert(rv[j as int] == (running_id@, count));
        let ghost apps_before = apps@;
        let ghost seen_before = seen@;
        if !is_id_in_set(running_id, &seen) {
            match find_file(running_id, running_files) {
                Some(f) => {
                    match load_app_info(running_id, f.path.as_str(), f.content.as_str()) {
                        Some(app) => {
                            let mut app = app;
                            app.is_favorite = false;
                            app.running_count = count;
                            apps.push(app);
                            seen.push(running_apps[j].0.clone());
                            assert(apps_view(apps@) =~= apps_view(apps_before).push(apps@.last()@));
                            assert(string_views(seen@) =~= string_views(seen_before).push(running_id@));
                        },
                        None => {},
                    }
                },
                None => {},
            }
        }
        j = j + 1;
    }
    apps
}

} // verus!
