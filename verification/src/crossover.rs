//! CrossOver support for macOS: the bottle the game runs in, the files CrossOver keeps, and the
//! command lines that create the bottle and start the game inside it.
//!
//! Sunrise is a Windows DLL inside a Windows game, so on a Mac both run under CrossOver's Wine.
//! What touches the disk or runs a process belongs to the caller; this module takes what the
//! caller found (a [`HostProbe`]) and decides everything else.

use vstd::prelude::*;
use vstd::utf8::encode_utf8;

use crate::error::AppError;
use crate::models::{Preferences, GAME_EXECUTABLE};
use crate::paths::{join_path, joined};
use crate::text::{
    chars_of, find, find_char, find_in, is_white_space, lemma_find_first, lemma_find_some, occurs_at, lemma_trim_by_fixed,
    lemma_trim_by_idempotent, lemma_utf8_len, strip_pred, trim, trim_quotes, trim_start_by, trim_end_by, trim_window, trim_ws,
    utf8_len, utf8_len_exceeds, window_eq,
};

verus! {

/// Bottle the launcher creates when the user has not named one.
pub const DEFAULT_BOTTLE: &'static str = "Sunrise";

/// Graphics backends CrossOver 26 can run this game with. DXVK is left out: its Direct3D 11
/// module does not initialise on MoltenVK for this game.
pub const GRAPHICS_BACKENDS: [&'static str; 2] = ["d3dmetal", "dxmt"];

/// The default backend.
pub const DEFAULT_BACKEND: &'static str = "d3dmetal";

/// Bottle template: 64-bit Windows 10, which is what the game build expects.
pub const BOTTLE_TEMPLATE: &'static str = "win10_64";

/// Where CrossOver keeps its private tools, relative to the app bundle.
pub const CROSSOVER_BIN: &'static str = "Contents/SharedSupport/CrossOver/bin";

/// Longest bottle name accepted, in UTF-8 bytes. CrossOver uses it as a folder name.
pub const MAX_BOTTLE_NAME: usize = 64;

/// The status error shown when no CrossOver bundle was found.
pub const CROSSOVER_NOT_FOUND: &'static str =
    "CrossOver was not found in /Applications. Install CrossOver 26 or newer, then refresh.";

/// Whether CrossOver and the game's bottle are in place, as the interface shows it.
#[derive(Clone, Debug)]
pub struct CrossOverStatus {
    /// True only on macOS, where launching through CrossOver applies at all.
    pub supported: bool,
    pub installed: bool,
    pub app_path: Option<String>,
    pub version: Option<String>,
    pub bottle_name: String,
    pub bottle_path: String,
    pub bottle_exists: bool,
    /// Backend recorded in the bottle, when the bottle exists.
    pub graphics_backend: Option<String>,
    /// Whether a launch can start right now.
    pub ready: bool,
    /// A blocking problem to show the user, if any.
    pub error: Option<String>,
}

/// The mathematical value of a [`CrossOverStatus`]: its strings as character sequences.
pub struct CrossOverStatusView {
    pub supported: bool,
    pub installed: bool,
    pub app_path: Option<Seq<char>>,
    pub version: Option<Seq<char>>,
    pub bottle_name: Seq<char>,
    pub bottle_path: Seq<char>,
    pub bottle_exists: bool,
    pub graphics_backend: Option<Seq<char>>,
    pub ready: bool,
    pub error: Option<Seq<char>>,
}

impl View for CrossOverStatus {
    type V = CrossOverStatusView;

    open spec fn view(&self) -> CrossOverStatusView {
        CrossOverStatusView {
            supported: self.supported,
            installed: self.installed,
            app_path: self.app_path.deep_view(),
            version: self.version.deep_view(),
            bottle_name: self.bottle_name@,
            bottle_path: self.bottle_path@,
            bottle_exists: self.bottle_exists,
            graphics_backend: self.graphics_backend.deep_view(),
            ready: self.ready,
            error: self.error.deep_view(),
        }
    }
}

/// The status of a host where CrossOver does not apply.
pub open spec fn unsupported_view() -> CrossOverStatusView {
    CrossOverStatusView {
        supported: false,
        installed: false,
        app_path: None,
        version: None,
        bottle_name: DEFAULT_BOTTLE@,
        bottle_path: Seq::empty(),
        bottle_exists: false,
        graphics_backend: None,
        ready: false,
        error: None,
    }
}

impl CrossOverStatus {
    /// The status of a host where CrossOver does not apply: nothing found, nothing ready.
    pub fn unsupported() -> (s: Self)
        ensures
            s@ == unsupported_view(),
    {
        CrossOverStatus {
            supported: false,
            installed: false,
            app_path: None,
            version: None,
            bottle_name: DEFAULT_BOTTLE.to_owned(),
            bottle_path: String::new(),
            bottle_exists: false,
            graphics_backend: None,
            ready: false,
            error: None,
        }
    }
}

/// The two places a CrossOver bundle can live, in the order they are tried.
pub open spec fn spec_app_candidates(home: Seq<char>) -> Seq<Seq<char>> {
    seq![
        "/Applications/CrossOver.app"@,
        joined(joined(home, "Applications"@), "CrossOver.app"@),
    ]
}

/// Folders a CrossOver bundle can live in, in the order they are tried.
pub fn app_candidates(home: &str) -> (r: [String; 2])
    ensures
        r[0]@ == spec_app_candidates(home@)[0],
        r[1]@ == spec_app_candidates(home@)[1],
{
    let applications = join_path(home, "Applications");
    [
        "/Applications/CrossOver.app".to_owned(),
        join_path(applications.as_str(), "CrossOver.app"),
    ]
}

/// CrossOver's private bottle folder under the home folder `home`.
pub open spec fn spec_bottles_dir(home: Seq<char>) -> Seq<char> {
    joined(
        joined(joined(joined(home, "Library"@), "Application Support"@), "CrossOver"@),
        "Bottles"@,
    )
}

/// CrossOver's private bottle folder for one user.
pub fn bottles_dir(home: &str) -> (r: String)
    ensures
        r@ == spec_bottles_dir(home@),
{
    let library = join_path(home, "Library");
    let support = join_path(library.as_str(), "Application Support");
    let crossover = join_path(support.as_str(), "CrossOver");
    join_path(crossover.as_str(), "Bottles")
}

/// A character that cannot stand in a single folder name.
pub open spec fn is_forbidden_in_folder_name(c: char) -> bool {
    c == '/' || c == '\\' || c == ':' || c == '\0'
}

/// The bottle name CrossOver will use for the name the user typed, or why it cannot be one.
/// The name is trimmed; a blank one means the default; one over 64 UTF-8 bytes is too long;
/// one that starts with a dot or holds a slash, a backslash, a colon or NUL is refused.
pub open spec fn spec_bottle_name(name: Seq<char>) -> Result<Seq<char>, AppError> {
    let t = trim_ws(name);
    if t.len() == 0 {
        Ok(DEFAULT_BOTTLE@)
    } else if encode_utf8(t).len() > MAX_BOTTLE_NAME {
        Err(AppError::BottleNameTooLong)
    } else if t[0] == '.' || exists|i: int| 0 <= i < t.len() && is_forbidden_in_folder_name(t[i]) {
        Err(AppError::BottleNameInvalid)
    } else {
        Ok(t)
    }
}

/// Checks a bottle name the way CrossOver will use it: as one folder name.
pub fn sanitize_bottle_name(name: &str) -> (r: Result<String, AppError>)
    ensures
        match r {
            Ok(s) => spec_bottle_name(name@) == Ok::<Seq<char>, AppError>(s@),
            Err(e) => spec_bottle_name(name@) == Err::<Seq<char>, AppError>(e),
        },
{
    let trimmed = trim(name);
    if trimmed.is_empty() {
        return Ok(DEFAULT_BOTTLE.to_owned());
    }
    let chars = chars_of(trimmed);
    if utf8_len_exceeds(&chars, MAX_BOTTLE_NAME) {
        return Err(AppError::BottleNameTooLong);
    }
    if chars[0] == '.' {
        return Err(AppError::BottleNameInvalid);
    }
    let n = chars.len();
    let mut i: usize = 0;
    while i < n
        invariant
            n == chars@.len(),
            chars@ == trim_ws(name@),
            n > 0,
            chars@[0] != '.',
            encode_utf8(chars@).len() <= MAX_BOTTLE_NAME,
            i <= n,
            forall|j: int| 0 <= j < i ==> !is_forbidden_in_folder_name(chars@[j]),
        decreases n - i,
    {
        let c = chars[i];
        if c == '/' || c == '\\' || c == ':' || c == '\0' {
            assert(is_forbidden_in_folder_name(chars@[i as int]));
            return Err(AppError::BottleNameInvalid);
        }
        i = i + 1;
    }
    Ok(trimmed.to_owned())
}


/// The code of `c` with ASCII capitals lowered, as `u8::to_ascii_lowercase` lowers them.
pub open spec fn ascii_lower(c: char) -> int {
    if 'A' <= c && c <= 'Z' {
        (c as u32) + 32
    } else {
        c as u32 as int
    }
}

/// `a` and `b` are equal but for the case of ASCII letters, as `str::eq_ignore_ascii_case`
/// compares them.
pub open spec fn eq_ignore_ascii_case(a: Seq<char>, b: Seq<char>) -> bool {
    a.len() == b.len() && forall|i: int| 0 <= i < a.len() ==> ascii_lower(a[i]) == ascii_lower(b[i])
}

/// The backend the launcher uses for the one the user chose: the known backend that the
/// trimmed choice names, ignoring ASCII case, or the default for anything else.
pub open spec fn spec_resolve_backend(backend: Seq<char>) -> Seq<char> {
    let t = trim_ws(backend);
    if eq_ignore_ascii_case(GRAPHICS_BACKENDS[0]@, t) {
        GRAPHICS_BACKENDS[0]@
    } else if eq_ignore_ascii_case(GRAPHICS_BACKENDS[1]@, t) {
        GRAPHICS_BACKENDS[1]@
    } else {
        DEFAULT_BACKEND@
    }
}

fn ascii_lower_code(c: char) -> (r: u32)
    ensures
        r == ascii_lower(c),
{
    if 'A' <= c && c <= 'Z' {
        c as u32 + 32
    } else {
        c as u32
    }
}

fn chars_eq_ignore_ascii_case(a: &Vec<char>, b: &Vec<char>) -> (r: bool)
    ensures
        r == eq_ignore_ascii_case(a@, b@),
{
    if a.len() != b.len() {
        return false;
    }
    let n = a.len();
    let mut i: usize = 0;
    while i < n
        invariant
            n == a@.len(),
            n == b@.len(),
            i <= n,
            forall|j: int| 0 <= j < i ==> ascii_lower(a@[j]) == ascii_lower(b@[j]),
        decreases n - i,
    {
        if ascii_lower_code(a[i]) != ascii_lower_code(b[i]) {
            return false;
        }
        i = i + 1;
    }
    true
}

/// Picks a backend the launcher knows, falling back to the default for anything else.
pub fn resolve_backend(backend: &str) -> (r: &'static str)
    ensures
        r@ == spec_resolve_backend(backend@),
{
    let chosen = chars_of(trim(backend));
    let first = GRAPHICS_BACKENDS[0];
    if chars_eq_ignore_ascii_case(&chars_of(first), &chosen) {
        return first;
    }
    let second = GRAPHICS_BACKENDS[1];
    if chars_eq_ignore_ascii_case(&chars_of(second), &chosen) {
        return second;
    }
    DEFAULT_BACKEND
}


/// The plist key that carries CrossOver's marketing version.
pub const BUNDLE_VERSION_KEY: &'static str = "<key>CFBundleShortVersionString</key>";

/// The tag that opens a plist string.
pub const PLIST_STRING_OPEN: &'static str = "<string>";

/// The tag that closes a plist string.
pub const PLIST_STRING_CLOSE: &'static str = "</string>";

/// The version a plist in XML form gives for CFBundleShortVersionString: the text of the first
/// `<string>` element after the key, trimmed, when there is such an element and its text is
/// not blank.
pub open spec fn spec_bundle_version(xml: Seq<char>) -> Option<Seq<char>> {
    match find(xml, BUNDLE_VERSION_KEY@) {
        None => None,
        Some(k) => {
            let after_key = xml.skip(k + BUNDLE_VERSION_KEY@.len());
            match find(after_key, PLIST_STRING_OPEN@) {
                None => None,
                Some(o) => {
                    let rest = after_key.skip(o + PLIST_STRING_OPEN@.len());
                    match find(rest, PLIST_STRING_CLOSE@) {
                        None => None,
                        Some(c) => {
                            let version = trim_ws(rest.take(c));
                            if version.len() == 0 {
                                None
                            } else {
                                Some(version)
                            }
                        },
                    }
                },
            }
        },
    }
}

/// Reads CFBundleShortVersionString from an Info.plist converted to XML.
pub fn parse_bundle_version(plist_xml: &str) -> (r: Option<String>)
    ensures
        r.deep_view() == spec_bundle_version(plist_xml@),
{
    let v = chars_of(plist_xml);
    let len = v.len();
    let key = chars_of(BUNDLE_VERSION_KEY);
    let open = chars_of(PLIST_STRING_OPEN);
    let close = chars_of(PLIST_STRING_CLOSE);
    let ghost xml = plist_xml@;
    assert(v@.subrange(0, len as int) =~= xml);
    let k = match find_in(&v, 0, len, &key) {
        None => return None,
        Some(k) => k,
    };
    let a = k + key.len();
    assert(xml.skip(k + BUNDLE_VERSION_KEY@.len()) =~= v@.subrange(a as int, len as int));
    let o = match find_in(&v, a, len, &open) {
        None => return None,
        Some(o) => o,
    };
    let b = o + open.len();
    assert(v@.subrange(a as int, len as int).skip(o - a + PLIST_STRING_OPEN@.len())
        =~= v@.subrange(b as int, len as int));
    let c = match find_in(&v, b, len, &close) {
        None => return None,
        Some(c) => c,
    };
    assert(v@.subrange(b as int, len as int).take(c - b) =~= v@.subrange(b as int, c as int));
    let (x, y) = trim_window(&v, b, c, false);
    if x == y {
        return None;
    }
    Some(plist_xml.substring_char(x, y).to_owned())
}


/// The cxbottle.conf key that records the bottle's graphics backend.
pub const GRAPHICS_BACKEND_KEY: &'static str = "CX_GRAPHICS_BACKEND";

/// The backend one line of a cxbottle.conf sets, if it sets one. The line is trimmed; one that
/// starts with `;` is a comment; otherwise it splits at its first `=`, and both sides are
/// trimmed of white space and then of double quotes. The line sets the backend when the key is
/// CX_GRAPHICS_BACKEND and the value is not empty.
pub open spec fn line_graphics_backend(line: Seq<char>) -> Option<Seq<char>> {
    let t = trim_ws(line);
    if t.len() > 0 && t[0] == ';' {
        None
    } else {
        match find_char(t, '=') {
            None => None,
            Some(e) => {
                if trim_quotes(trim_ws(t.take(e))) != GRAPHICS_BACKEND_KEY@ {
                    None
                } else {
                    let value = trim_quotes(trim_ws(t.skip(e + 1)));
                    if value.len() == 0 {
                        None
                    } else {
                        Some(value)
                    }
                }
            },
        }
    }
}

/// The backend a cxbottle.conf records: that of its first line, split at line feeds, that sets
/// one. A carriage return before a line feed is white space and goes with the trim.
pub open spec fn spec_graphics_backend(conf: Seq<char>) -> Option<Seq<char>>
    decreases conf.len(),
{
    match find_char(conf, '\n') {
        None => line_graphics_backend(conf),
        Some(n) => {
            proof {
                lemma_find_some(conf, seq!['\n']);
            }
            match line_graphics_backend(conf.take(n)) {
                Some(value) => Some(value),
                None => spec_graphics_backend(conf.skip(n + 1)),
            }
        },
    }
}

/// The bounds of the backend that the line `v[lo..hi]` sets, if it sets one.
fn line_backend_window(v: &Vec<char>, lo: usize, hi: usize, key: &Vec<char>) -> (r: Option<(usize, usize)>)
    requires
        lo <= hi <= v@.len(),
        key@ == GRAPHICS_BACKEND_KEY@,
    ensures
        match r {
            Some((a, b)) => lo <= a <= b <= hi && line_graphics_backend(
                v@.subrange(lo as int, hi as int),
            ) == Some(v@.subrange(a as int, b as int)),
            None => line_graphics_backend(v@.subrange(lo as int, hi as int)) is None,
        },
{
    let ghost line = v@.subrange(lo as int, hi as int);
    let (a, b) = trim_window(v, lo, hi, false);
    let ghost t = v@.subrange(a as int, b as int);
    if a < b && v[a] == ';' {
        return None;
    }
    let eq = vec!['='];
    assert(eq@ =~= seq!['=']);
    let e = match find_in(v, a, b, &eq) {
        None => return None,
        Some(e) => e,
    };
    assert(t.take(e - a) =~= v@.subrange(a as int, e as int));
    assert(t.skip(e - a + 1) =~= v@.subrange(e + 1, b as int));
    let (k1, k2) = trim_window(v, a, e, false);
    let (k3, k4) = trim_window(v, k1, k2, true);
    if !window_eq(v, k3, k4, key) {
        return None;
    }
    let (w1, w2) = trim_window(v, e + 1, b, false);
    let (w3, w4) = trim_window(v, w1, w2, true);
    if w3 == w4 {
        return None;
    }
    Some((w3, w4))
}

/// Reads CX_GRAPHICS_BACKEND from a bottle's cxbottle.conf, which is an INI-style file.
pub fn parse_graphics_backend(cxbottle_conf: &str) -> (r: Option<String>)
    ensures
        r.deep_view() == spec_graphics_backend(cxbottle_conf@),
{
    let v = chars_of(cxbottle_conf);
    let len = v.len();
    let key = chars_of(GRAPHICS_BACKEND_KEY);
    let newline = vec!['\n'];
    assert(newline@ =~= seq!['\n']);
    let mut pos: usize = 0;
    assert(v@.skip(0) =~= v@);
    loop
        invariant
            pos <= len,
            len == v@.len(),
            v@ == cxbottle_conf@,
            key@ == GRAPHICS_BACKEND_KEY@,
            newline@ == seq!['\n'],
            spec_graphics_backend(cxbottle_conf@) == spec_graphics_backend(v@.skip(pos as int)),
        decreases len - pos,
    {
        let ghost rest = v@.skip(pos as int);
        assert(v@.subrange(pos as int, len as int) =~= rest);
        match find_in(&v, pos, len, &newline) {
            None => {
                let found = line_backend_window(&v, pos, len, &key);
                return match found {
                    Some((a, b)) => Some(cxbottle_conf.substring_char(a, b).to_owned()),
                    None => None,
                };
            },
            Some(n) => {
                assert(rest.take(n - pos) =~= v@.subrange(pos as int, n as int));
                assert(rest.skip(n - pos + 1) =~= v@.skip(n + 1));
                let found = line_backend_window(&v, pos, n, &key);
                if let Some((a, b)) = found {
                    return Some(cxbottle_conf.substring_char(a, b).to_owned());
                }
                pos = n + 1;
            },
        }
    }
}


/// The `--param` value that records `backend` as the bottle's graphics backend.
pub const BACKEND_PARAM_PREFIX: &'static str = "EnvironmentVariables:CX_GRAPHICS_BACKEND=";

/// Arguments for `cxbottle` that create the bottle `bottle` from the Windows 10 template with
/// `backend` already recorded.
pub open spec fn spec_create_bottle_args(bottle: Seq<char>, backend: Seq<char>) -> Seq<Seq<char>> {
    seq![
        "--create"@,
        "--bottle"@,
        bottle,
        "--template"@,
        BOTTLE_TEMPLATE@,
        "--description"@,
        "Project Sunrise"@,
        "--param"@,
        BACKEND_PARAM_PREFIX@ + backend,
    ]
}

/// Arguments for `cxbottle` that create the game's bottle with its backend already chosen.
pub fn create_bottle_args(bottle: &str, backend: &str) -> (r: Vec<String>)
    ensures
        r.deep_view() == spec_create_bottle_args(bottle@, backend@),
{
    let mut param = BACKEND_PARAM_PREFIX.to_owned();
    param.append(backend);
    let r = vec![
        "--create".to_owned(),
        "--bottle".to_owned(),
        bottle.to_owned(),
        "--template".to_owned(),
        BOTTLE_TEMPLATE.to_owned(),
        "--description".to_owned(),
        "Project Sunrise".to_owned(),
        "--param".to_owned(),
        param,
    ];
    assert(r.deep_view() =~= spec_create_bottle_args(bottle@, backend@));
    r
}

/// Arguments for CrossOver's `wine` that start `game_executable` inside the bottle `bottle`
/// with `root` as working folder, without an update check and without waiting for the game.
pub open spec fn spec_launch_args(
    bottle: Seq<char>,
    root: Seq<char>,
    game_executable: Seq<char>,
) -> Seq<Seq<char>> {
    seq![
        "--bottle"@,
        bottle,
        "--no-update"@,
        "--no-wait"@,
        "--workdir"@,
        root,
        game_executable,
    ]
}

/// Arguments for CrossOver's `wine` that start the game inside the bottle.
/// The executable is passed as a plain native path: the launcher converts that to a Windows
/// path itself, whereas `--cx-app` looks for the file inside the bottle's C: drive.
/// `--no-wait` returns once the game is running instead of holding a process until it exits.
pub fn launch_args(bottle: &str, root: &str, game_executable: &str) -> (r: Vec<String>)
    ensures
        r.deep_view() == spec_launch_args(bottle@, root@, game_executable@),
{
    let r = vec![
        "--bottle".to_owned(),
        bottle.to_owned(),
        "--no-update".to_owned(),
        "--no-wait".to_owned(),
        "--workdir".to_owned(),
        root.to_owned(),
        game_executable.to_owned(),
    ];
    assert(r.deep_view() =~= spec_launch_args(bottle@, root@, game_executable@));
    r
}


/// What the caller found on a macOS host that has CrossOver.
#[derive(Clone, Debug)]
pub struct HostReport {
    /// The CrossOver bundle: the first of [`app_candidates`] whose `wine` tool is a file.
    pub app_path: String,
    /// The user's home folder.
    pub home: String,
    /// Whether `cxbottle.conf` is a file in the bottle's folder, [`bottle_folder`].
    pub bottle_exists: bool,
    /// The text of that `cxbottle.conf`, when it could be read.
    pub bottle_conf: Option<String>,
    /// What `plutil` printed for the bundle's Info.plist converted to XML, when it ran.
    pub bundle_plist: Option<String>,
}

/// What the caller found on the host, by reading the disk and running CrossOver's tools.
#[derive(Clone, Debug)]
pub enum HostProbe {
    /// The host is not macOS, where launching through CrossOver applies.
    Unsupported,
    /// No CrossOver bundle with its `wine` tool was found.
    NotFound,
    /// A CrossOver bundle was found.
    Found(HostReport),
}

/// The folder of the bottle `name` for the user whose home folder is `home`.
pub fn bottle_folder(home: &str, name: &str) -> (r: String)
    ensures
        r@ == joined(spec_bottles_dir(home@), name@),
{
    let dir = bottles_dir(home);
    join_path(dir.as_str(), name)
}

/// The configuration file CrossOver keeps in the bottle folder `bottle_path`.
pub fn bottle_conf_path(bottle_path: &str) -> (r: String)
    ensures
        r@ == joined(bottle_path@, "cxbottle.conf"@),
{
    join_path(bottle_path, "cxbottle.conf")
}

/// The path of one of CrossOver's private tools inside the bundle `app_path`.
pub open spec fn spec_tool_path(app_path: Seq<char>, tool: Seq<char>) -> Seq<char> {
    joined(joined(app_path, CROSSOVER_BIN@), tool)
}

/// The path of one of CrossOver's private tools inside the bundle `app_path`.
pub fn tool_path(app_path: &str, tool: &str) -> (r: String)
    ensures
        r@ == spec_tool_path(app_path@, tool@),
{
    let bin = join_path(app_path, CROSSOVER_BIN);
    join_path(bin.as_str(), tool)
}

/// The status for the bottle name the user typed, `bottle`, on a host where `probe` was found.
/// Off macOS nothing applies. A refused bottle name is the status's error; so is a missing
/// CrossOver. Otherwise CrossOver is installed, and the bottle is ready exactly when it exists.
pub open spec fn spec_status(bottle: Seq<char>, probe: HostProbe) -> CrossOverStatusView {
    match probe {
        HostProbe::Unsupported => unsupported_view(),
        _ => match spec_bottle_name(bottle) {
            Err(e) => CrossOverStatusView {
                supported: true,
                error: Some(e.spec_message()),
                ..unsupported_view()
            },
            Ok(name) => match probe {
                HostProbe::Found(report) => CrossOverStatusView {
                    supported: true,
                    installed: true,
                    app_path: Some(report.app_path@),
                    version: match report.bundle_plist {
                        Some(xml) => spec_bundle_version(xml@),
                        None => None,
                    },
                    bottle_name: name,
                    bottle_path: joined(spec_bottles_dir(report.home@), name),
                    bottle_exists: report.bottle_exists,
                    graphics_backend: if report.bottle_exists {
                        match report.bottle_conf {
                            Some(conf) => spec_graphics_backend(conf@),
                            None => None,
                        }
                    } else {
                        None
                    },
                    ready: report.bottle_exists,
                    error: None,
                },
                _ => CrossOverStatusView {
                    supported: true,
                    bottle_name: name,
                    error: Some(CROSSOVER_NOT_FOUND@),
                    ..unsupported_view()
                },
            },
        },
    }
}

/// Reports whether CrossOver and the game's bottle are in place. Never fails: a problem is
/// carried in the status so the interface can show it.
pub fn status(preferences: &Preferences, probe: &HostProbe) -> (s: CrossOverStatus)
    ensures
        s@ == spec_status(preferences.crossover_bottle@, *probe),
{
    if let HostProbe::Unsupported = probe {
        return CrossOverStatus::unsupported();
    }
    let bottle_name = match sanitize_bottle_name(preferences.crossover_bottle.as_str()) {
        Ok(name) => name,
        Err(error) => {
            let mut s = CrossOverStatus::unsupported();
            s.supported = true;
            s.error = Some(error.to_message());
            return s;
        },
    };
    let report = match probe {
        HostProbe::Found(report) => report,
        _ => {
            let mut s = CrossOverStatus::unsupported();
            s.supported = true;
            s.bottle_name = bottle_name;
            s.error = Some(CROSSOVER_NOT_FOUND.to_owned());
            return s;
        },
    };
    let bottle_path = bottle_folder(report.home.as_str(), bottle_name.as_str());
    let version = match &report.bundle_plist {
        Some(xml) => parse_bundle_version(xml.as_str()),
        None => None,
    };
    let graphics_backend = if report.bottle_exists {
        match &report.bottle_conf {
            Some(conf) => parse_graphics_backend(conf.as_str()),
            None => None,
        }
    } else {
        None
    };
    CrossOverStatus {
        supported: true,
        installed: true,
        app_path: Some(report.app_path.clone()),
        version,
        bottle_name,
        bottle_path,
        bottle_exists: report.bottle_exists,
        graphics_backend,
        ready: report.bottle_exists,
        error: None,
    }
}


/// A program to run, with its arguments and, if it has one, its working folder.
#[derive(Clone, Debug)]
pub struct ToolCommand {
    pub program: String,
    pub args: Vec<String>,
    pub workdir: Option<String>,
}

/// What preparing the bottle comes to: it is there already, or CrossOver's bottle tool has to
/// create it.
#[derive(Clone, Debug)]
pub enum PrepareStep {
    /// The bottle exists and is left exactly as it is; this is the current status.
    Ready(CrossOverStatus),
    /// Run this to create the bottle, then check the run with [`check_bottle_creation`] and
    /// take a fresh status.
    Create(ToolCommand),
}

/// Decides how to bring the game's bottle into place on the host that `probe` describes.
pub fn prepare(preferences: &Preferences, probe: &HostProbe) -> (r: Result<PrepareStep, AppError>)
    ensures
        ({
            let st = spec_status(preferences.crossover_bottle@, *probe);
            match *probe {
                HostProbe::Unsupported => r == Err::<PrepareStep, AppError>(
                    AppError::CrossOverUnsupported,
                ),
                HostProbe::NotFound => r matches Err(AppError::Message(m)) && st.error == Some(
                    m@,
                ),
                HostProbe::Found(report) => match st.error {
                    Some(text) => r matches Err(AppError::Message(m)) && m@ == text,
                    None => if report.bottle_exists {
                        r matches Ok(PrepareStep::Ready(s)) && s@ == st
                    } else {
                        r matches Ok(PrepareStep::Create(c)) && c.program@ == spec_tool_path(
                            report.app_path@,
                            "cxbottle"@,
                        ) && c.args.deep_view() == spec_create_bottle_args(
                            st.bottle_name,
                            spec_resolve_backend(preferences.crossover_backend@),
                        ) && c.workdir is None
                    },
                },
            }
        }),
{
    if let HostProbe::Unsupported = probe {
        return Err(AppError::CrossOverUnsupported);
    }
    let current = status(preferences, probe);
    if let Some(error) = &current.error {
        return Err(AppError::message(error.as_str()));
    }
    let report = match probe {
        HostProbe::Found(report) => report,
        _ => { return Err(AppError::message(CROSSOVER_NOT_FOUND)) },
    };
    if current.bottle_exists {
        return Ok(PrepareStep::Ready(current));
    }
    let backend = resolve_backend(preferences.crossover_backend.as_str());
    Ok(
        PrepareStep::Create(
            ToolCommand {
                program: tool_path(report.app_path.as_str(), "cxbottle"),
                args: create_bottle_args(current.bottle_name.as_str(), backend),
                workdir: None,
            },
        ),
    )
}

/// Whether a run of CrossOver's bottle tool created the bottle: a failed run is an error that
/// carries what the tool printed on its error stream, trimmed.
pub fn check_bottle_creation(success: bool, stderr: &str) -> (r: Result<(), AppError>)
    ensures
        success ==> r is Ok,
        !success ==> (r matches Err(AppError::BottleCreationFailed(d)) && d@ == trim_ws(stderr@)),
{
    if success {
        Ok(())
    } else {
        Err(AppError::BottleCreationFailed(trim(stderr).to_owned()))
    }
}

/// The game's executable inside the installation folder `root`.
pub fn game_executable_path(root: &str) -> (r: String)
    ensures
        r@ == joined(root@, GAME_EXECUTABLE@),
{
    join_path(root, GAME_EXECUTABLE)
}

/// Decides how to start the game from the installation folder `root` inside the bottle, on the
/// host that `probe` describes; `executable_exists` tells whether [`game_executable_path`] of
/// `root` is a file.
pub fn launch(
    root: &str,
    preferences: &Preferences,
    probe: &HostProbe,
    executable_exists: bool,
) -> (r: Result<ToolCommand, AppError>)
    ensures
        ({
            let st = spec_status(preferences.crossover_bottle@, *probe);
            match *probe {
                HostProbe::Unsupported => r == Err::<ToolCommand, AppError>(
                    AppError::CrossOverUnsupported,
                ),
                HostProbe::NotFound => r matches Err(AppError::Message(m)) && st.error == Some(
                    m@,
                ),
                HostProbe::Found(report) => match st.error {
                    Some(text) => r matches Err(AppError::Message(m)) && m@ == text,
                    None => if !report.bottle_exists {
                        r == Err::<ToolCommand, AppError>(AppError::BottleNotPrepared)
                    } else if !executable_exists {
                        r == Err::<ToolCommand, AppError>(AppError::GameExecutableMissing)
                    } else {
                        r matches Ok(c) && c.program@ == spec_tool_path(report.app_path@, "wine"@)
                            && c.args.deep_view() == spec_launch_args(
                            st.bottle_name,
                            root@,
                            joined(root@, GAME_EXECUTABLE@),
                        ) && c.workdir.deep_view() == Some(root@)
                    },
                },
            }
        }),
{
    if let HostProbe::Unsupported = probe {
        return Err(AppError::CrossOverUnsupported);
    }
    let current = status(preferences, probe);
    if let Some(error) = &current.error {
        return Err(AppError::message(error.as_str()));
    }
    let report = match probe {
        HostProbe::Found(report) => report,
        _ => { return Err(AppError::message(CROSSOVER_NOT_FOUND)) },
    };
    if !current.bottle_exists {
        return Err(AppError::BottleNotPrepared);
    }
    if !executable_exists {
        return Err(AppError::GameExecutableMissing);
    }
    let executable = game_executable_path(root);
    Ok(
        ToolCommand {
            program: tool_path(report.app_path.as_str(), "wine"),
            args: launch_args(current.bottle_name.as_str(), root, executable.as_str()),
            workdir: Some(root.to_owned()),
        },
    )
}


/// `name` is usable as a single folder name: not blank, at most 64 bytes of UTF-8, without
/// white space at either end, not starting with a dot, and free of slashes, backslashes,
/// colons and NUL.
pub open spec fn is_single_folder_name(name: Seq<char>) -> bool {
    &&& name.len() > 0
    &&& encode_utf8(name).len() <= MAX_BOTTLE_NAME
    &&& trim_ws(name) == name
    &&& name[0] != '.'
    &&& forall|i: int| 0 <= i < name.len() ==> !is_forbidden_in_folder_name(name[i])
}

/// The default bottle name is a single folder name.
proof fn default_bottle_is_folder_name()
    ensures
        is_single_folder_name(DEFAULT_BOTTLE@),
{
    reveal_strlit("Sunrise");
    let d = DEFAULT_BOTTLE@;
    assert(!is_white_space(d[0]) && !is_white_space(d.last()));
    lemma_trim_by_fixed(d, strip_pred(false));
    lemma_utf8_len(d);
    reveal_with_fuel(utf8_len, 8);
    assert(utf8_len(d) == 7);
}

/// Every bottle name the launcher accepts, default included, is a single folder name.
pub proof fn accepted_bottle_names_are_folder_names(name: Seq<char>)
    ensures
        spec_bottle_name(name) matches Ok(s) ==> is_single_folder_name(s),
{
    default_bottle_is_folder_name();
    lemma_trim_by_idempotent(name, strip_pred(false));
}

/// An accepted bottle name is accepted again as it stands: checking a checked name changes
/// nothing.
pub proof fn accepted_bottle_names_are_stable(name: Seq<char>)
    ensures
        spec_bottle_name(name) matches Ok(s) ==> spec_bottle_name(s) == Ok::<Seq<char>, AppError>(s),
{
    accepted_bottle_names_are_folder_names(name);
}

/// The known backends, trimmed and compared without case, name themselves and nothing else.
proof fn known_backends_resolve_to_themselves()
    ensures
        spec_resolve_backend(GRAPHICS_BACKENDS[0]@) == GRAPHICS_BACKENDS[0]@,
        spec_resolve_backend(GRAPHICS_BACKENDS[1]@) == GRAPHICS_BACKENDS[1]@,
        DEFAULT_BACKEND@ == GRAPHICS_BACKENDS[0]@,
{
    reveal_strlit("d3dmetal");
    reveal_strlit("dxmt");
    let a = GRAPHICS_BACKENDS[0]@;
    let b = GRAPHICS_BACKENDS[1]@;
    assert(a.len() == 8 && b.len() == 4);
    assert(!is_white_space(a[0]) && !is_white_space(a.last()));
    assert(!is_white_space(b[0]) && !is_white_space(b.last()));
    lemma_trim_by_fixed(a, strip_pred(false));
    lemma_trim_by_fixed(b, strip_pred(false));
    assert(eq_ignore_ascii_case(a, a));
    assert(eq_ignore_ascii_case(b, b));
}

/// Whatever the user chose, the launcher runs one of the known backends, and resolving that
/// backend again gives it back.
pub proof fn resolved_backends_are_known(backend: Seq<char>)
    ensures
        spec_resolve_backend(backend) == GRAPHICS_BACKENDS[0]@ || spec_resolve_backend(backend)
            == GRAPHICS_BACKENDS[1]@,
        spec_resolve_backend(spec_resolve_backend(backend)) == spec_resolve_backend(backend),
{
    known_backends_resolve_to_themselves();
}

/// A status is ready only when it is supported, CrossOver is installed, the bottle exists and
/// nothing blocks; a status that carries an error is never ready.
pub proof fn ready_status_has_no_problem(bottle: Seq<char>, probe: HostProbe)
    ensures
        ({
            let st = spec_status(bottle, probe);
            &&& st.ready ==> st.supported && st.installed && st.bottle_exists && st.error is None
            &&& st.error is Some ==> !st.ready
            &&& !st.supported ==> st == unsupported_view()
        }),
{
}


/// The cxbottle.conf line in which CrossOver records `value` for CX_GRAPHICS_BACKEND, with the
/// quoting its INI files use: `"CX_GRAPHICS_BACKEND" = "value"` and a line feed.
pub open spec fn recorded_backend_line(value: Seq<char>) -> Seq<char> {
    "\"CX_GRAPHICS_BACKEND\" = \""@ + value + "\"\n"@
}

/// Trims a sequence whose first `n` characters are stripped and whose next one is not.
proof fn lemma_trim_start_prefix(s: Seq<char>, p: spec_fn(char) -> bool, n: int)
    requires
        0 <= n < s.len(),
        forall|i: int| 0 <= i < n ==> p(s[i]),
        !p(s[n]),
    ensures
        trim_start_by(s, p) == s.skip(n),
    decreases n,
{
    if n == 0 {
        assert(s.skip(0) =~= s);
    } else {
        assert(s.drop_first().skip(n - 1) =~= s.skip(n));
        lemma_trim_start_prefix(s.drop_first(), p, n - 1);
    }
}

/// Trims a sequence whose last `n` characters are stripped and whose one before is not.
proof fn lemma_trim_end_suffix(s: Seq<char>, p: spec_fn(char) -> bool, n: int)
    requires
        0 <= n < s.len(),
        forall|i: int| s.len() - n <= i < s.len() ==> p(s[i]),
        !p(s[s.len() - n - 1]),
    ensures
        trim_end_by(s, p) == s.take(s.len() - n),
    decreases n,
{
    if n == 0 {
        assert(s.take(s.len() as int) =~= s);
    } else {
        assert(s.drop_last().take(s.len() - n) =~= s.take(s.len() - n));
        lemma_trim_end_suffix(s.drop_last(), p, n - 1);
    }
}

/// The first index of `c` in `s` is `i` when `s[i]` is `c` and no earlier character is.
proof fn lemma_find_char_at(s: Seq<char>, c: char, i: int)
    requires
        0 <= i < s.len(),
        s[i] == c,
        forall|j: int| 0 <= j < i ==> s[j] != c,
    ensures
        find_char(s, c) == Some(i),
{
    assert(s.subrange(i, i + 1) =~= seq![c]);
    assert forall|j: int| 0 <= j < i implies !occurs_at(s, seq![c], j) by {
        if s.subrange(j, j + 1) =~= seq![c] {
            assert(s.subrange(j, j + 1)[0] == s[j]);
        }
    }
    lemma_find_first(s, seq![c], i);
}

/// What CrossOver records for a backend reads back as that backend: the line it writes for
/// CX_GRAPHICS_BACKEND gives the value back, for any value that is not blank, neither starts
/// nor ends with white space or a double quote, and holds no line feed, as the known backends
/// do.
pub proof fn recorded_backend_reads_back(value: Seq<char>)
    requires
        value.len() > 0,
        !is_white_space(value[0]) && value[0] != '"',
        !is_white_space(value.last()) && value.last() != '"',
        forall|i: int| 0 <= i < value.len() ==> value[i] != '\n',
    ensures
        spec_graphics_backend(recorded_backend_line(value)) == Some(value),
{
    reveal_strlit("\"CX_GRAPHICS_BACKEND\" = \"");
    reveal_strlit("\"\n");
    reveal_strlit("CX_GRAPHICS_BACKEND");
    let k = "\"CX_GRAPHICS_BACKEND\" = \""@;
    let q = "\"\n"@;
    let key = GRAPHICS_BACKEND_KEY@;
    assert(k.len() == 25);
    assert(key.len() == 19);
    let conf = recorded_backend_line(value);
    let nl: int = 25 + value.len() as int + 1;
    assert(conf.len() == nl + 1);
    assert forall|j: int| 0 <= j < nl implies conf[j] != '\n' by {
        if j < 25 {
            assert(conf[j] == k[j]);
        } else if j < 25 + value.len() {
            assert(conf[j] == value[j - 25]);
        } else {
            assert(conf[j] == q[0]);
        }
    }
    assert(conf[nl] == '\n');
    lemma_find_char_at(conf, '\n', nl);
    let line = conf.take(nl);
    assert(line =~= k + value + seq!['"']);
    assert(line[0] == '"' && line.last() == '"');
    lemma_trim_by_fixed(line, strip_pred(false));
    assert(trim_ws(line) == line);
    assert forall|j: int| 0 <= j < 22 implies line[j] != '=' by {
        assert(line[j] == k[j]);
    }
    assert(line[22] == '=');
    lemma_find_char_at(line, '=', 22);
    let left = line.take(22);
    assert(left[21] == ' ' && left[20] == '"');
    lemma_trim_end_suffix(left, strip_pred(false), 1);
    lemma_trim_start_prefix(left, strip_pred(false), 0);
    let left_trimmed = left.take(21);
    assert(trim_ws(left) == left_trimmed);
    assert(left_trimmed[0] == '"' && left_trimmed[1] == 'C');
    lemma_trim_start_prefix(left_trimmed, strip_pred(true), 1);
    let inner = left_trimmed.skip(1);
    assert(inner.len() == 20 && inner[19] == '"' && inner[18] == 'D');
    lemma_trim_end_suffix(inner, strip_pred(true), 1);
    assert(inner.take(19) =~= key);
    assert(trim_quotes(trim_ws(line.take(22))) == key);
    let right = line.skip(23);
    assert(right =~= seq![' ', '"'] + value + seq!['"']);
    lemma_trim_start_prefix(right, strip_pred(false), 1);
    lemma_trim_end_suffix(right.skip(1), strip_pred(false), 0);
    assert(right.skip(1).take(right.skip(1).len() as int) =~= right.skip(1));
    let quoted = right.skip(1);
    assert(quoted =~= seq!['"'] + value + seq!['"']);
    assert(trim_ws(right) == quoted);
    lemma_trim_start_prefix(quoted, strip_pred(true), 1);
    let unquoted_start = quoted.skip(1);
    lemma_trim_end_suffix(unquoted_start, strip_pred(true), 1);
    assert(unquoted_start.take(unquoted_start.len() - 1) =~= value);
    assert(trim_quotes(trim_ws(line.skip(23))) == value);
}


/// The backend a bottle is created with reads back from the bottle: whatever backend the
/// user chose, the line CrossOver records for the resolved backend gives that backend.
pub proof fn chosen_backend_reads_back(choice: Seq<char>)
    ensures
        spec_graphics_backend(recorded_backend_line(spec_resolve_backend(choice))) == Some(
            spec_resolve_backend(choice),
        ),
{
    resolved_backends_are_known(choice);
    reveal_strlit("d3dmetal");
    reveal_strlit("dxmt");
    let v = spec_resolve_backend(choice);
    assert(forall|i: int| 0 <= i < v.len() ==> v[i] != '\n');
    recorded_backend_reads_back(v);
}


/// A version read from a plist is never blank and carries no white space at either end.
pub proof fn bundle_versions_are_trimmed(xml: Seq<char>)
    ensures
        spec_bundle_version(xml) matches Some(v) ==> v.len() > 0 && trim_ws(v) == v,
{
    if let Some(k) = find(xml, BUNDLE_VERSION_KEY@) {
        let after_key = xml.skip(k + BUNDLE_VERSION_KEY@.len());
        if let Some(o) = find(after_key, PLIST_STRING_OPEN@) {
            let rest = after_key.skip(o + PLIST_STRING_OPEN@.len());
            if let Some(c) = find(rest, PLIST_STRING_CLOSE@) {
                lemma_trim_by_idempotent(rest.take(c), strip_pred(false));
            }
        }
    }
}


/// The bottle-creation command has exactly nine arguments: `--create`, then `--bottle` with the
/// bottle's name, `--template` with the Windows 10 template, `--description` with the project's
/// name, and `--param` followed by the parameter that records the backend, which ends with the
/// backend itself.
pub proof fn bottle_creation_arguments_record_the_backend(bottle: Seq<char>, backend: Seq<char>)
    ensures
        ({
            let args = spec_create_bottle_args(bottle, backend);
            &&& args.len() == 9
            &&& args[0] == "--create"@
            &&& args[1] == "--bottle"@
            &&& args[2] == bottle
            &&& args[3] == "--template"@
            &&& args[4] == "win10_64"@
            &&& args[5] == "--description"@
            &&& args[6] == "Project Sunrise"@
            &&& args[7] == "--param"@
            &&& args[8] == "EnvironmentVariables:CX_GRAPHICS_BACKEND="@ + backend
            &&& args[8].skip(args[8].len() - backend.len()) == backend
        }),
{
    let args = spec_create_bottle_args(bottle, backend);
    assert(args[8].skip(args[8].len() - backend.len()) =~= backend);
}

/// The launch command's arguments are exactly seven: the bottle after `--bottle`, the two
/// flags `--no-update` and `--no-wait`, the root after `--workdir` character for character,
/// and the executable path last, character for character; `--cx-app` is never among them.
pub proof fn launch_arguments_pass_paths_unchanged(
    bottle: Seq<char>,
    root: Seq<char>,
    game_executable: Seq<char>,
)
    ensures
        ({
            let args = spec_launch_args(bottle, root, game_executable);
            &&& args.len() == 7
            &&& args[0] == "--bottle"@
            &&& args[1] == bottle
            &&& args[2] == "--no-update"@
            &&& args[3] == "--no-wait"@
            &&& args[4] == "--workdir"@
            &&& args[5] == root
            &&& args[6] == game_executable
            &&& args.last() == game_executable
        }),
{
}

/// The report of a host where CrossOver was found, with another answer to whether the bottle
/// exists.
pub open spec fn with_bottle_exists(report: HostReport, exists: bool) -> HostReport {
    HostReport { bottle_exists: exists, ..report }
}

/// Once CrossOver is found and the bottle name is accepted, the status says CrossOver is
/// installed at the bundle found, carries the version read from the bundle's plist, and names
/// the bottle's folder under the home folder; none of this depends on whether the bottle
/// exists, which decides only whether the bottle is ready and its backend is read.
pub proof fn found_crossover_status_keeps_the_bundle_facts(
    bottle: Seq<char>,
    report: HostReport,
    exists: bool,
)
    requires
        spec_bottle_name(bottle) is Ok,
    ensures
        ({
            let st = spec_status(bottle, HostProbe::Found(report));
            let other = spec_status(bottle, HostProbe::Found(with_bottle_exists(report, exists)));
            &&& st.supported && st.installed
            &&& st.app_path == Some(report.app_path@)
            &&& st.version == match report.bundle_plist {
                Some(xml) => spec_bundle_version(xml@),
                None => None::<Seq<char>>,
            }
            &&& st.bottle_name == trim_ws(bottle) || trim_ws(bottle).len() == 0
            &&& st.error is None
            &&& st.ready == report.bottle_exists
            &&& other.version == st.version
            &&& other.app_path == st.app_path
            &&& other.bottle_name == st.bottle_name
            &&& other.bottle_path == st.bottle_path
            &&& other.installed == st.installed
        }),
{
}

/// A typed bottle name is refused only for a reason: trimmed, it is too long, starts with a
/// dot, or holds a slash, a backslash, a colon or NUL. A trimmed name without any of these is
/// accepted as it stands, and a blank one gives the default bottle.
pub proof fn bottle_names_are_refused_only_for_a_reason(name: Seq<char>)
    ensures
        ({
            let t = trim_ws(name);
            let clean = t.len() > 0 && encode_utf8(t).len() <= 64 && t[0] != '.' && forall|i: int|
                0 <= i < t.len() ==> t[i] != '/' && t[i] != '\\' && t[i] != ':' && t[i] != '\0';
            &&& t.len() == 0 ==> spec_bottle_name(name) == Ok::<Seq<char>, AppError>(
                DEFAULT_BOTTLE@,
            )
            &&& clean ==> spec_bottle_name(name) == Ok::<Seq<char>, AppError>(t)
            &&& spec_bottle_name(name) is Err ==> !clean && t.len() > 0
            &&& spec_bottle_name(name) matches Ok(s) ==> s == t || (t.len() == 0 && s
                == DEFAULT_BOTTLE@)
        }),
{
}

} // verus!
