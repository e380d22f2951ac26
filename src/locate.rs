//! Candidate locator: the paths at which a Java launcher may stand, from the environment and
//! from a per-platform table of directories whose children are installations.
use vstd::prelude::*;
use crate::text::{
    chars_of, has_infix, has_infix_exec, lower_of, lowercase, occurs_at, occurs_at_exec, split_on,
    split_str,
};

verus! {

/// The host family whose installation conventions are searched.
#[derive(Clone, Copy, Debug, PartialEq, Eq, Structural)]
pub enum Platform {
    Windows,
    MacOs,
    Linux,
}

/// The separator that joining inserts between path components.
pub open spec fn separator(p: Platform) -> char {
    if p == Platform::Windows {
        '\\'
    } else {
        '/'
    }
}

/// A character that ends a path component (`\` counts on Windows only).
pub open spec fn is_separator(c: char, p: Platform) -> bool {
    c == '/' || (p == Platform::Windows && c == '\\')
}

/// `comp` appended to `base` as `Path::join` does for a relative component: as is after an
/// empty base or a trailing separator, else after the platform's separator. A bare Windows
/// drive prefix such as `C:` counts as a directory here.
pub open spec fn joined(base: Seq<char>, comp: Seq<char>, p: Platform) -> Seq<char> {
    if base.len() == 0 {
        comp
    } else if is_separator(base.last(), p) {
        base + comp
    } else {
        base.push(separator(p)) + comp
    }
}

/// `comp` joined onto `base` (see [`joined`]).
pub fn join_path(base: &str, comp: &str, p: Platform) -> (r: String)
    ensures
        r@ == joined(base@, comp@, p),
{
    let b = chars_of(base);
    if b.len() == 0 {
        return String::from_str(comp);
    }
    let last = b[b.len() - 1];
    if last == '/' || (p == Platform::Windows && last == '\\') {
        String::from_str(base).concat(comp)
    } else {
        let sep = if p == Platform::Windows {
            "\\"
        } else {
            "/"
        };
        proof {
            reveal_strlit("\\");
            reveal_strlit("/");
        }
        let r = String::from_str(base).concat(sep).concat(comp);
        assert(r@ =~= joined(base@, comp@, p));
        r
    }
}

/// The file names of a Java launcher: on Windows the console and the windowless one.
pub open spec fn launcher_names(p: Platform) -> Seq<Seq<char>> {
    if p == Platform::Windows {
        seq!["java.exe"@, "javaw.exe"@]
    } else {
        seq!["java"@]
    }
}

/// The launcher paths inside `dir`, one per launcher name.
pub open spec fn launchers_at(dir: Seq<char>, p: Platform) -> Seq<Seq<char>> {
    launcher_names(p).map_values(|n: Seq<char>| joined(dir, n, p))
}

/// The launcher paths inside each directory of `dirs`, directory by directory.
pub open spec fn launchers_in(dirs: Seq<Seq<char>>, p: Platform) -> Seq<Seq<char>>
    decreases dirs.len(),
{
    if dirs.len() == 0 {
        Seq::empty()
    } else {
        launchers_in(dirs.drop_last(), p) + launchers_at(dirs.last(), p)
    }
}

/// The characters of each string.
pub open spec fn views(v: Seq<String>) -> Seq<Seq<char>> {
    v.map_values(|x: String| x@)
}

/// Appends the launcher paths inside `dir` to `out`.
fn push_launchers(out: &mut Vec<String>, dir: &str, p: Platform)
    ensures
        views(final(out)@) == views(old(out)@) + launchers_at(dir@, p),
{
    let ghost before = out@;
    if p == Platform::Windows {
        out.push(join_path(dir, "java.exe", p));
        out.push(join_path(dir, "javaw.exe", p));
    } else {
        out.push(join_path(dir, "java", p));
    }
    assert(views(out@) =~= views(before) + launchers_at(dir@, p));
}

/// The separator of entries in the `PATH` variable.
pub open spec fn list_separator(p: Platform) -> char {
    if p == Platform::Windows {
        ';'
    } else {
        ':'
    }
}

/// The environment variables that discovery reads; `None` where one is unset.
pub struct SearchEnv {
    /// `PATH`
    pub path: Option<String>,
    /// `JAVA_HOME`
    pub java_home: Option<String>,
    /// `HOME`
    pub home: Option<String>,
    /// `SDKMAN_DIR`
    pub sdkman_dir: Option<String>,
    /// `ProgramFiles`
    pub program_files: Option<String>,
    /// `ProgramFiles(x86)`
    pub program_files_x86: Option<String>,
    /// `ProgramW6432`
    pub program_w6432: Option<String>,
    /// `USERPROFILE`
    pub user_profile: Option<String>,
    /// `SCOOP`
    pub scoop: Option<String>,
    /// `ChocolateyInstall`
    pub chocolatey_install: Option<String>,
    /// `LOCALAPPDATA`
    pub local_app_data: Option<String>,
}

/// The candidates that need no directory listing: a launcher in each `PATH` entry, then in
/// `JAVA_HOME`'s `bin`, then, on macOS, the system launcher.
pub open spec fn direct_candidates_spec(p: Platform, env: SearchEnv) -> Seq<Seq<char>> {
    (match env.path {
        Some(s) => launchers_in(split_on(s@, list_separator(p)), p),
        None => Seq::empty(),
    }) + (match env.java_home {
        Some(h) => launchers_at(joined(h@, "bin"@, p), p),
        None => Seq::empty(),
    }) + (if p == Platform::MacOs {
        seq!["/usr/bin/java"@]
    } else {
        Seq::empty()
    })
}

/// The candidates that need no directory listing (see [`direct_candidates_spec`]).
pub fn direct_candidates(p: Platform, env: &SearchEnv) -> (r: Vec<String>)
    ensures
        views(r@) == direct_candidates_spec(p, *env),
{
    let mut r: Vec<String> = Vec::new();
    match &env.path {
        Some(s) => {
            let sep = if p == Platform::Windows {
                ';'
            } else {
                ':'
            };
            let dirs = split_str(s.as_str(), sep);
            let mut i: usize = 0;
            while i < dirs.len()
                invariant
                    i <= dirs.len(),
                    views(dirs@) == split_on(s@, list_separator(p)),
                    views(r@) == launchers_in(views(dirs@).subrange(0, i as int), p),
                decreases dirs.len() - i,
            {
                push_launchers(&mut r, dirs[i].as_str(), p);
                assert(views(dirs@).subrange(0, i + 1).drop_last() =~= views(dirs@).subrange(
                    0,
                    i as int,
                ));
                i = i + 1;
            }
            assert(views(dirs@).subrange(0, i as int) =~= views(dirs@));
        },
        None => {},
    }
    match &env.java_home {
        Some(h) => {
            let bin = join_path(h.as_str(), "bin", p);
            push_launchers(&mut r, bin.as_str(), p);
        },
        None => {},
    }
    if p == Platform::MacOs {
        r.push(String::from_str("/usr/bin/java"));
    }
    assert(views(r@) =~= direct_candidates_spec(p, *env));
    r
}

/// How the children of a searched directory hold installations.
#[derive(Clone, Copy, Debug, PartialEq, Eq, Structural)]
pub enum Layout {
    /// Each child directory is an installation: `<child>/bin/<exe>`.
    Children,
    /// macOS bundles: `<child>/Contents/Home/bin/<exe>`.
    MacBundles,
    /// A Homebrew cellar: each child named `openjdk*` holds version directories.
    Cellar,
    /// The version directories of one cellar formula: `<ver>/bin/<exe>` and the nested bundle
    /// `<ver>/libexec/openjdk.jdk/Contents/Home/bin/<exe>`.
    CellarVersions,
    /// JetBrains Toolbox apps: `<app>/jbr/bin/<exe>`, and the same one channel level deeper.
    ToolboxApps,
    /// The channel directories of one Toolbox app: `<channel>/jbr/bin/<exe>`.
    ToolboxChannels,
    /// Scoop's apps: each child whose name mentions `jdk`, `jre` or `java` is searched as
    /// [`Layout::Children`].
    ScoopApps,
}

/// A directory to list, how its children are laid out, and the launcher file name to look for.
pub struct SearchRoot {
    pub dir: String,
    pub layout: Layout,
    pub exe: String,
}

impl View for SearchRoot {
    type V = (Seq<char>, Layout, Seq<char>);

    open spec fn view(&self) -> (Seq<char>, Layout, Seq<char>) {
        (self.dir@, self.layout, self.exe@)
    }
}

/// The views of a sequence of search roots.
pub open spec fn root_views(v: Seq<SearchRoot>) -> Seq<(Seq<char>, Layout, Seq<char>)> {
    v.map_values(|r: SearchRoot| r@)
}

/// Appends one search root to `out`.
fn push_root(out: &mut Vec<SearchRoot>, dir: String, layout: Layout, exe: &str)
    ensures
        root_views(final(out)@) == root_views(old(out)@).push((dir@, layout, exe@)),
{
    let ghost before = out@;
    out.push(SearchRoot { dir, layout, exe: String::from_str(exe) });
    assert(root_views(out@) =~= root_views(before).push((dir@, layout, exe@)));
}

/// SDKMAN's directory: `SDKMAN_DIR`, else `.sdkman` in the home directory `h`.
pub open spec fn sdkman_spec(env: SearchEnv, h: Seq<char>, p: Platform) -> Seq<char> {
    match env.sdkman_dir {
        Some(d) => d@,
        None => joined(h, ".sdkman"@, p),
    }
}

/// SDKMAN's directory for the home directory `home`.
fn sdkman_dir(env: &SearchEnv, home: &str, p: Platform) -> (r: String)
    ensures
        r@ == sdkman_spec(*env, home@, p),
{
    match &env.sdkman_dir {
        Some(d) => d.clone(),
        None => join_path(home, ".sdkman", p),
    }
}

/// The macOS search table.
pub open spec fn mac_roots(env: SearchEnv) -> Seq<(Seq<char>, Layout, Seq<char>)> {
    let p = Platform::MacOs;
    seq![
        ("/usr/local/opt"@, Layout::Children, "java"@),
        ("/opt/homebrew/opt"@, Layout::Children, "java"@),
        ("/usr/local/Cellar"@, Layout::Cellar, "java"@),
        ("/opt/homebrew/Cellar"@, Layout::Cellar, "java"@),
        ("/Library/Java/JavaVirtualMachines"@, Layout::MacBundles, "java"@),
    ] + match env.home {
        Some(h) => seq![
            (joined(h@, "Library/Java/JavaVirtualMachines"@, p), Layout::MacBundles, "java"@),
            (sdkman_spec(env, h@, p) + "/candidates/java"@, Layout::Children, "java"@),
            (joined(h@, ".jabba/jdk"@, p), Layout::Children, "java"@),
            (
                joined(h@, "Library/Application Support/JetBrains/Toolbox/apps"@, p),
                Layout::ToolboxApps,
                "java"@,
            ),
        ],
        None => Seq::empty(),
    }
}

/// The Linux search table.
pub open spec fn linux_roots(env: SearchEnv) -> Seq<(Seq<char>, Layout, Seq<char>)> {
    let p = Platform::Linux;
    seq![
        ("/usr/lib/jvm"@, Layout::Children, "java"@),
        ("/usr/lib64/jvm"@, Layout::Children, "java"@),
        ("/usr/lib32/jvm"@, Layout::Children, "java"@),
        ("/usr/local/lib/jvm"@, Layout::Children, "java"@),
        ("/usr/java"@, Layout::Children, "java"@),
        ("/snap"@, Layout::Children, "java"@),
        ("/var/lib/flatpak/runtime"@, Layout::Children, "java"@),
    ] + match env.home {
        Some(h) => seq![
            (sdkman_spec(env, h@, p) + "/candidates/java"@, Layout::Children, "java"@),
            (joined(h@, ".jabba/jdk"@, p), Layout::Children, "java"@),
            (joined(h@, ".local/share/JetBrains/Toolbox/apps"@, p), Layout::ToolboxApps, "java"@),
            (joined(h@, ".asdf/installs/java"@, p), Layout::Children, "java"@),
        ],
        None => Seq::empty(),
    }
}

/// Pushes the home-relative macOS entries of the search table.
fn push_mac_home_roots(out: &mut Vec<SearchRoot>, env: &SearchEnv, h: &String)
    ensures
        root_views(final(out)@) == root_views(old(out)@) + seq![
            (joined(h@, "Library/Java/JavaVirtualMachines"@, Platform::MacOs), Layout::MacBundles, "java"@),
            (sdkman_spec(*env, h@, Platform::MacOs) + "/candidates/java"@, Layout::Children, "java"@),
            (joined(h@, ".jabba/jdk"@, Platform::MacOs), Layout::Children, "java"@),
            (
                joined(h@, "Library/Application Support/JetBrains/Toolbox/apps"@, Platform::MacOs),
                Layout::ToolboxApps,
                "java"@,
            ),
        ],
{
    let p = Platform::MacOs;
    let ghost before = root_views(out@);
    push_root(out, join_path(h.as_str(), "Library/Java/JavaVirtualMachines", p), Layout::MacBundles, "java");
    push_root(out, sdkman_dir(env, h.as_str(), p).concat("/candidates/java"), Layout::Children, "java");
    push_root(out, join_path(h.as_str(), ".jabba/jdk", p), Layout::Children, "java");
    push_root(
        out,
        join_path(h.as_str(), "Library/Application Support/JetBrains/Toolbox/apps", p),
        Layout::ToolboxApps,
        "java",
    );
    assert(root_views(out@) =~= before + seq![
        (joined(h@, "Library/Java/JavaVirtualMachines"@, p), Layout::MacBundles, "java"@),
        (sdkman_spec(*env, h@, p) + "/candidates/java"@, Layout::Children, "java"@),
        (joined(h@, ".jabba/jdk"@, p), Layout::Children, "java"@),
        (joined(h@, "Library/Application Support/JetBrains/Toolbox/apps"@, p), Layout::ToolboxApps, "java"@),
    ]);
}

/// The macOS search table (see [`mac_roots`]).
fn mac_search_roots(env: &SearchEnv) -> (r: Vec<SearchRoot>)
    ensures
        root_views(r@) == mac_roots(*env),
{
    let mut r: Vec<SearchRoot> = Vec::new();
    push_root(&mut r, String::from_str("/usr/local/opt"), Layout::Children, "java");
    push_root(&mut r, String::from_str("/opt/homebrew/opt"), Layout::Children, "java");
    push_root(&mut r, String::from_str("/usr/local/Cellar"), Layout::Cellar, "java");
    push_root(&mut r, String::from_str("/opt/homebrew/Cellar"), Layout::Cellar, "java");
    push_root(&mut r, String::from_str("/Library/Java/JavaVirtualMachines"), Layout::MacBundles, "java");
    match &env.home {
        Some(h) => push_mac_home_roots(&mut r, env, h),
        None => {},
    }
    assert(root_views(r@) =~= mac_roots(*env));
    r
}

/// Pushes the home-relative Linux entries of the search table.
fn push_linux_home_roots(out: &mut Vec<SearchRoot>, env: &SearchEnv, h: &String)
    ensures
        root_views(final(out)@) == root_views(old(out)@) + seq![
            (sdkman_spec(*env, h@, Platform::Linux) + "/candidates/java"@, Layout::Children, "java"@),
            (joined(h@, ".jabba/jdk"@, Platform::Linux), Layout::Children, "java"@),
            (joined(h@, ".local/share/JetBrains/Toolbox/apps"@, Platform::Linux), Layout::ToolboxApps, "java"@),
            (joined(h@, ".asdf/installs/java"@, Platform::Linux), Layout::Children, "java"@),
        ],
{
    let p = Platform::Linux;
    let ghost before = root_views(out@);
    push_root(out, sdkman_dir(env, h.as_str(), p).concat("/candidates/java"), Layout::Children, "java");
    push_root(out, join_path(h.as_str(), ".jabba/jdk", p), Layout::Children, "java");
    push_root(out, join_path(h.as_str(), ".local/share/JetBrains/Toolbox/apps", p), Layout::ToolboxApps, "java");
    push_root(out, join_path(h.as_str(), ".asdf/installs/java", p), Layout::Children, "java");
    assert(root_views(out@) =~= before + seq![
        (sdkman_spec(*env, h@, p) + "/candidates/java"@, Layout::Children, "java"@),
        (joined(h@, ".jabba/jdk"@, p), Layout::Children, "java"@),
        (joined(h@, ".local/share/JetBrains/Toolbox/apps"@, p), Layout::ToolboxApps, "java"@),
        (joined(h@, ".asdf/installs/java"@, p), Layout::Children, "java"@),
    ]);
}

/// The Linux search table (see [`linux_roots`]).
fn linux_search_roots(env: &SearchEnv) -> (r: Vec<SearchRoot>)
    ensures
        root_views(r@) == linux_roots(*env),
{
    let mut r: Vec<SearchRoot> = Vec::new();
    push_root(&mut r, String::from_str("/usr/lib/jvm"), Layout::Children, "java");
    push_root(&mut r, String::from_str("/usr/lib64/jvm"), Layout::Children, "java");
    push_root(&mut r, String::from_str("/usr/lib32/jvm"), Layout::Children, "java");
    push_root(&mut r, String::from_str("/usr/local/lib/jvm"), Layout::Children, "java");
    push_root(&mut r, String::from_str("/usr/java"), Layout::Children, "java");
    push_root(&mut r, String::from_str("/snap"), Layout::Children, "java");
    push_root(&mut r, String::from_str("/var/lib/flatpak/runtime"), Layout::Children, "java");
    match &env.home {
        Some(h) => push_linux_home_roots(&mut r, env, h),
        None => {},
    }
    assert(root_views(r@) =~= linux_roots(*env));
    r
}

/// The vendor folder names searched under each Windows program-files directory.
pub open spec fn vendor_folders() -> Seq<Seq<char>> {
    seq![
        "Java"@,
        "Eclipse Adoptium"@,
        "AdoptOpenJDK"@,
        "Microsoft"@,
        "Zulu"@,
        "BellSoft"@,
        "Semeru"@,
        "Amazon Corretto"@,
        "Liberica"@,
        "sapmachine"@,
    ]
}

/// The vendor folder name at index `i`.
fn vendor_folder(i: usize) -> (r: &'static str)
    requires
        i < 10,
    ensures
        r@ == vendor_folders()[i as int],
{
    match i {
        0 => "Java",
        1 => "Eclipse Adoptium",
        2 => "AdoptOpenJDK",
        3 => "Microsoft",
        4 => "Zulu",
        5 => "BellSoft",
        6 => "Semeru",
        7 => "Amazon Corretto",
        8 => "Liberica",
        _ => "sapmachine",
    }
}

/// The roots under program-files directory `pf` for the first `n` vendor folders: each folder
/// searched once for `java.exe` and once for `javaw.exe`.
pub open spec fn folder_roots(pf: Seq<char>, n: int) -> Seq<(Seq<char>, Layout, Seq<char>)>
    decreases n,
{
    if n <= 0 {
        Seq::empty()
    } else {
        let dir = pf + "\\"@ + vendor_folders()[n - 1];
        folder_roots(pf, n - 1) + seq![
            (dir, Layout::Children, "java.exe"@),
            (dir, Layout::Children, "javaw.exe"@),
        ]
    }
}

/// The roots under each program-files directory of `pfs`, directory by directory.
pub open spec fn program_files_roots(pfs: Seq<Seq<char>>) -> Seq<(Seq<char>, Layout, Seq<char>)>
    decreases pfs.len(),
{
    if pfs.len() == 0 {
        Seq::empty()
    } else {
        program_files_roots(pfs.drop_last()) + folder_roots(pfs.last(), 10)
    }
}

/// The value of a variable that is set, as a sequence of zero or one directory.
pub open spec fn opt_dir(v: Option<String>) -> Seq<Seq<char>> {
    match v {
        Some(s) => seq![s@],
        None => Seq::empty(),
    }
}

/// The program-files directories: those that the variables give, then the two usual ones.
pub open spec fn program_files_dirs(env: SearchEnv) -> Seq<Seq<char>> {
    opt_dir(env.program_files) + opt_dir(env.program_files_x86) + opt_dir(env.program_w6432)
        + seq!["C:\\Program Files"@, "C:\\Program Files (x86)"@]
}

/// Scoop's directory: `SCOOP`, else `scoop` in the user profile `u`.
pub open spec fn scoop_spec(env: SearchEnv, u: Seq<char>) -> Seq<char> {
    match env.scoop {
        Some(s) => s@,
        None => joined(u, "scoop"@, Platform::Windows),
    }
}

/// Chocolatey's directory: `ChocolateyInstall`, else its usual place.
pub open spec fn chocolatey_spec(env: SearchEnv) -> Seq<char> {
    match env.chocolatey_install {
        Some(c) => c@,
        None => "C:\\ProgramData\\chocolatey"@,
    }
}

/// The Windows search table.
pub open spec fn windows_roots(env: SearchEnv) -> Seq<(Seq<char>, Layout, Seq<char>)> {
    let p = Platform::Windows;
    program_files_roots(program_files_dirs(env)) + match env.user_profile {
        Some(u) => {
            let sc = scoop_spec(env, u@);
            seq![
                (sc + "\\apps\\java"@, Layout::Children, "java.exe"@),
                (sc + "\\apps\\java"@, Layout::Children, "javaw.exe"@),
                (sc + "\\apps"@, Layout::ScoopApps, "java.exe"@),
            ]
        },
        None => Seq::empty(),
    } + seq![(chocolatey_spec(env) + "\\lib"@, Layout::Children, "java.exe"@)]
        + match env.user_profile {
        Some(u) => seq![(joined(u@, ".sdkman\\candidates\\java"@, p), Layout::Children, "java.exe"@)],
        None => Seq::empty(),
    } + match env.local_app_data {
        Some(l) => seq![(joined(l@, "JetBrains\\Toolbox\\apps"@, p), Layout::ToolboxApps, "java.exe"@)],
        None => Seq::empty(),
    }
}

/// Pushes the roots under program-files directory `pf` for every vendor folder.
fn push_folder_roots(out: &mut Vec<SearchRoot>, pf: &String)
    ensures
        root_views(final(out)@) == root_views(old(out)@) + folder_roots(pf@, 10),
{
    let ghost before = root_views(out@);
    let mut i: usize = 0;
    while i < 10
        invariant
            i <= 10,
            root_views(out@) == before + folder_roots(pf@, i as int),
        decreases 10 - i,
    {
        let dir = pf.clone().concat("\\").concat(vendor_folder(i));
        push_root(out, dir.clone(), Layout::Children, "java.exe");
        push_root(out, dir, Layout::Children, "javaw.exe");
        assert(root_views(out@) =~= before + folder_roots(pf@, i + 1));
        i = i + 1;
    }
}

/// Appends `v`'s value to `dirs` when it is set.
fn push_opt_dir(dirs: &mut Vec<String>, v: &Option<String>)
    ensures
        views(final(dirs)@) == views(old(dirs)@) + opt_dir(*v),
{
    let ghost before = views(dirs@);
    match v {
        Some(s) => dirs.push(s.clone()),
        None => {},
    }
    assert(views(dirs@) =~= before + opt_dir(*v));
}

/// The Windows search table (see [`windows_roots`]).
fn windows_search_roots(env: &SearchEnv) -> (r: Vec<SearchRoot>)
    ensures
        root_views(r@) == windows_roots(*env),
{
    let p = Platform::Windows;
    let mut pfs: Vec<String> = Vec::new();
    push_opt_dir(&mut pfs, &env.program_files);
    push_opt_dir(&mut pfs, &env.program_files_x86);
    push_opt_dir(&mut pfs, &env.program_w6432);
    pfs.push(String::from_str("C:\\Program Files"));
    pfs.push(String::from_str("C:\\Program Files (x86)"));
    assert(views(pfs@) =~= program_files_dirs(*env));
    let mut r: Vec<SearchRoot> = Vec::new();
    let mut i: usize = 0;
    while i < pfs.len()
        invariant
            i <= pfs.len(),
            views(pfs@) == program_files_dirs(*env),
            root_views(r@) == program_files_roots(views(pfs@).subrange(0, i as int)),
        decreases pfs.len() - i,
    {
        push_folder_roots(&mut r, &pfs[i]);
        assert(views(pfs@).subrange(0, i + 1).drop_last() =~= views(pfs@).subrange(0, i as int));
        i = i + 1;
    }
    assert(views(pfs@).subrange(0, i as int) =~= views(pfs@));
    match &env.user_profile {
        Some(u) => {
            let sc = match &env.scoop {
                Some(s) => s.clone(),
                None => join_path(u.as_str(), "scoop", p),
            };
            push_root(&mut r, sc.clone().concat("\\apps\\java"), Layout::Children, "java.exe");
            push_root(&mut r, sc.clone().concat("\\apps\\java"), Layout::Children, "javaw.exe");
            push_root(&mut r, sc.concat("\\apps"), Layout::ScoopApps, "java.exe");
        },
        None => {},
    }
    let choco = match &env.chocolatey_install {
        Some(c) => c.clone(),
        None => String::from_str("C:\\ProgramData\\chocolatey"),
    };
    push_root(&mut r, choco.concat("\\lib"), Layout::Children, "java.exe");
    match &env.user_profile {
        Some(u) => push_root(
            &mut r,
            join_path(u.as_str(), ".sdkman\\candidates\\java", p),
            Layout::Children,
            "java.exe",
        ),
        None => {},
    }
    match &env.local_app_data {
        Some(l) => push_root(
            &mut r,
            join_path(l.as_str(), "JetBrains\\Toolbox\\apps", p),
            Layout::ToolboxApps,
            "java.exe",
        ),
        None => {},
    }
    assert(root_views(r@) =~= windows_roots(*env));
    r
}

/// The search table of platform `p`.
pub open spec fn search_roots_spec(p: Platform, env: SearchEnv) -> Seq<(Seq<char>, Layout, Seq<char>)> {
    match p {
        Platform::Windows => windows_roots(env),
        Platform::MacOs => mac_roots(env),
        Platform::Linux => linux_roots(env),
    }
}

/// The directories to list for platform `p`, in search order, with their layouts and the
/// launcher name to look for.
pub fn search_roots(p: Platform, env: &SearchEnv) -> (r: Vec<SearchRoot>)
    ensures
        root_views(r@) == search_roots_spec(p, *env),
{
    match p {
        Platform::Windows => windows_search_roots(env),
        Platform::MacOs => mac_search_roots(env),
        Platform::Linux => linux_search_roots(env),
    }
}

/// One entry of a listed directory.
pub struct DirChild {
    /// The listed directory joined with the entry's name.
    pub path: String,
    /// The entry's file name.
    pub name: String,
    /// Whether the entry is a directory, links followed.
    pub is_dir: bool,
}

/// What one entry of a listed search root contributes: launcher paths, and possibly a
/// directory to search in turn, right after them.
pub struct Expansion {
    pub candidates: Vec<String>,
    pub nested: Option<SearchRoot>,
}

/// `<d>/bin/<exe>`.
pub open spec fn bin_launcher(d: Seq<char>, exe: Seq<char>, p: Platform) -> Seq<char> {
    joined(joined(d, "bin"@, p), exe, p)
}

/// `<d>/Contents/Home/bin/<exe>`.
pub open spec fn bundle_launcher(d: Seq<char>, exe: Seq<char>, p: Platform) -> Seq<char> {
    bin_launcher(joined(joined(d, "Contents"@, p), "Home"@, p), exe, p)
}

/// `<d>/jbr/bin/<exe>`.
pub open spec fn jbr_launcher(d: Seq<char>, exe: Seq<char>, p: Platform) -> Seq<char> {
    bin_launcher(joined(d, "jbr"@, p), exe, p)
}

/// `<d>/libexec/openjdk.jdk/Contents/Home/bin/<exe>`.
pub open spec fn cellar_bundle_launcher(d: Seq<char>, exe: Seq<char>, p: Platform) -> Seq<char> {
    bundle_launcher(joined(joined(d, "libexec"@, p), "openjdk.jdk"@, p), exe, p)
}

/// The Scoop app name `l` (lowercased) names a Java distribution.
pub open spec fn names_java(l: Seq<char>) -> bool {
    has_infix(l, "jdk"@) || has_infix(l, "jre"@) || has_infix(l, "java"@)
}

/// What the entry `(path, name, is_dir)` of a search root `(dir, layout, exe)` contributes.
pub open spec fn expansion_spec(
    root: (Seq<char>, Layout, Seq<char>),
    path: Seq<char>,
    name: Seq<char>,
    is_dir: bool,
    p: Platform,
) -> (Seq<Seq<char>>, Option<(Seq<char>, Layout, Seq<char>)>) {
    let exe = root.2;
    match root.1 {
        Layout::Children => if is_dir {
            (seq![bin_launcher(path, exe, p)], None)
        } else {
            (Seq::empty(), None)
        },
        Layout::MacBundles => if is_dir {
            (seq![bundle_launcher(path, exe, p)], None)
        } else {
            (Seq::empty(), None)
        },
        Layout::Cellar => if occurs_at(lower_of(name), "openjdk"@, 0) {
            (Seq::empty(), Some((path, Layout::CellarVersions, exe)))
        } else {
            (Seq::empty(), None)
        },
        Layout::CellarVersions => (
            seq![bin_launcher(path, exe, p), cellar_bundle_launcher(path, exe, p)],
            None,
        ),
        Layout::ToolboxApps => if is_dir {
            (seq![jbr_launcher(path, exe, p)], Some((path, Layout::ToolboxChannels, exe)))
        } else {
            (Seq::empty(), None)
        },
        Layout::ToolboxChannels => if is_dir {
            (seq![jbr_launcher(path, exe, p)], None)
        } else {
            (Seq::empty(), None)
        },
        Layout::ScoopApps => if names_java(lower_of(name)) {
            (Seq::empty(), Some((path, Layout::Children, exe)))
        } else {
            (Seq::empty(), None)
        },
    }
}

/// The view of an optional search root.
pub open spec fn opt_root(r: Option<SearchRoot>) -> Option<(Seq<char>, Layout, Seq<char>)> {
    match r {
        Some(x) => Some(x@),
        None => None,
    }
}

/// `<d>/bin/<exe>`.
fn bin_launcher_exec(d: &str, exe: &str, p: Platform) -> (r: String)
    ensures
        r@ == bin_launcher(d@, exe@, p),
{
    let bin = join_path(d, "bin", p);
    join_path(bin.as_str(), exe, p)
}

/// `<d>/Contents/Home/bin/<exe>`.
fn bundle_launcher_exec(d: &str, exe: &str, p: Platform) -> (r: String)
    ensures
        r@ == bundle_launcher(d@, exe@, p),
{
    let contents = join_path(d, "Contents", p);
    let home = join_path(contents.as_str(), "Home", p);
    bin_launcher_exec(home.as_str(), exe, p)
}

/// `<d>/jbr/bin/<exe>`.
fn jbr_launcher_exec(d: &str, exe: &str, p: Platform) -> (r: String)
    ensures
        r@ == jbr_launcher(d@, exe@, p),
{
    let jbr = join_path(d, "jbr", p);
    bin_launcher_exec(jbr.as_str(), exe, p)
}

/// What one entry of a listed search root contributes (see [`expansion_spec`]).
pub fn expand_entry(root: &SearchRoot, entry: &DirChild, p: Platform) -> (r: Expansion)
    ensures
        views(r.candidates@) == expansion_spec(root@, entry.path@, entry.name@, entry.is_dir, p).0,
        opt_root(r.nested) == expansion_spec(root@, entry.path@, entry.name@, entry.is_dir, p).1,
{
    let path = entry.path.as_str();
    let exe = root.exe.as_str();
    let mut candidates: Vec<String> = Vec::new();
    let mut nested: Option<SearchRoot> = None;
    match root.layout {
        Layout::Children => if entry.is_dir {
            candidates.push(bin_launcher_exec(path, exe, p));
        },
        Layout::MacBundles => if entry.is_dir {
            candidates.push(bundle_launcher_exec(path, exe, p));
        },
        Layout::Cellar => {
            let lower = chars_of(lowercase(entry.name.as_str()).as_str());
            if occurs_at_exec(&lower, &chars_of("openjdk"), 0) {
                nested = Some(SearchRoot {
                    dir: entry.path.clone(),
                    layout: Layout::CellarVersions,
                    exe: root.exe.clone(),
                });
            }
        },
        Layout::CellarVersions => {
            candidates.push(bin_launcher_exec(path, exe, p));
            let libexec = join_path(path, "libexec", p);
            let bundle = join_path(libexec.as_str(), "openjdk.jdk", p);
            candidates.push(bundle_launcher_exec(bundle.as_str(), exe, p));
        },
        Layout::ToolboxApps => if entry.is_dir {
            candidates.push(jbr_launcher_exec(path, exe, p));
            nested = Some(SearchRoot {
                dir: entry.path.clone(),
                layout: Layout::ToolboxChannels,
                exe: root.exe.clone(),
            });
        },
        Layout::ToolboxChannels => if entry.is_dir {
            candidates.push(jbr_launcher_exec(path, exe, p));
        },
        Layout::ScoopApps => {
            let lower = chars_of(lowercase(entry.name.as_str()).as_str());
            if has_infix_exec(&lower, &chars_of("jdk")) || has_infix_exec(&lower, &chars_of("jre"))
                || has_infix_exec(&lower, &chars_of("java")) {
                nested = Some(SearchRoot {
                    dir: entry.path.clone(),
                    layout: Layout::Children,
                    exe: root.exe.clone(),
                });
            }
        },
    }
    let r = Expansion { candidates, nested };
    assert(views(r.candidates@) =~= expansion_spec(root@, entry.path@, entry.name@, entry.is_dir, p).0);
    r
}

} // verus!
