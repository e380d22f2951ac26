use java_runtimes::locate::{
    direct_candidates, expand_entry, join_path, search_roots, DirChild, Layout, Platform,
    SearchEnv, SearchRoot,
};

fn env() -> SearchEnv {
    SearchEnv {
        path: None,
        java_home: None,
        home: None,
        sdkman_dir: None,
        program_files: None,
        program_files_x86: None,
        program_w6432: None,
        user_profile: None,
        scoop: None,
        chocolatey_install: None,
        local_app_data: None,
    }
}

fn root(dir: &str, layout: Layout, exe: &str) -> SearchRoot {
    SearchRoot { dir: dir.to_string(), layout, exe: exe.to_string() }
}

fn child(path: &str, name: &str, is_dir: bool) -> DirChild {
    DirChild { path: path.to_string(), name: name.to_string(), is_dir }
}

fn roots_of(rs: &[SearchRoot]) -> Vec<(String, Layout, String)> {
    rs.iter().map(|r| (r.dir.clone(), r.layout, r.exe.clone())).collect()
}

#[test]
fn joins_like_path_join() {
    assert_eq!(join_path("/usr/lib", "jvm", Platform::Linux), "/usr/lib/jvm");
    assert_eq!(join_path("/usr/lib/", "jvm", Platform::Linux), "/usr/lib/jvm");
    assert_eq!(join_path("", "java", Platform::Linux), "java");
    assert_eq!(join_path("C:\\Java", "bin", Platform::Windows), "C:\\Java\\bin");
    assert_eq!(join_path("C:\\Java\\", "bin", Platform::Windows), "C:\\Java\\bin");
    assert_eq!(join_path("C:/Java/", "bin", Platform::Windows), "C:/Java/bin");
    assert_eq!(join_path("a\\", "b", Platform::Linux), "a\\/b");
}

#[test]
fn path_entries_and_java_home_on_linux() {
    let mut e = env();
    e.path = Some("/usr/bin::/opt/bin".to_string());
    e.java_home = Some("/opt/jdk".to_string());
    assert_eq!(
        direct_candidates(Platform::Linux, &e),
        vec!["/usr/bin/java", "java", "/opt/bin/java", "/opt/jdk/bin/java"]
    );
}

#[test]
fn path_entries_on_windows_give_both_launchers() {
    let mut e = env();
    e.path = Some("C:\\a;C:\\b".to_string());
    assert_eq!(
        direct_candidates(Platform::Windows, &e),
        vec!["C:\\a\\java.exe", "C:\\a\\javaw.exe", "C:\\b\\java.exe", "C:\\b\\javaw.exe"]
    );
}

#[test]
fn macos_adds_system_launcher() {
    assert_eq!(direct_candidates(Platform::MacOs, &env()), vec!["/usr/bin/java"]);
    assert!(direct_candidates(Platform::Linux, &env()).is_empty());
}

#[test]
fn linux_table_without_home() {
    let rs = search_roots(Platform::Linux, &env());
    assert_eq!(rs.len(), 7);
    assert_eq!(roots_of(&rs)[0], ("/usr/lib/jvm".to_string(), Layout::Children, "java".to_string()));
    assert_eq!(rs[6].dir, "/var/lib/flatpak/runtime");
}

#[test]
fn linux_table_with_home() {
    let mut e = env();
    e.home = Some("/home/u".to_string());
    let rs = roots_of(&search_roots(Platform::Linux, &e));
    assert_eq!(rs.len(), 11);
    assert_eq!(rs[7], ("/home/u/.sdkman/candidates/java".to_string(), Layout::Children, "java".to_string()));
    assert_eq!(rs[8].0, "/home/u/.jabba/jdk");
    assert_eq!(rs[9], ("/home/u/.local/share/JetBrains/Toolbox/apps".to_string(), Layout::ToolboxApps, "java".to_string()));
    assert_eq!(rs[10].0, "/home/u/.asdf/installs/java");
    e.sdkman_dir = Some("/sdk".to_string());
    let rs = roots_of(&search_roots(Platform::Linux, &e));
    assert_eq!(rs[7].0, "/sdk/candidates/java");
}

#[test]
fn macos_table_with_home() {
    let mut e = env();
    e.home = Some("/Users/u".to_string());
    let rs = roots_of(&search_roots(Platform::MacOs, &e));
    assert_eq!(rs.len(), 9);
    assert_eq!(rs[2], ("/usr/local/Cellar".to_string(), Layout::Cellar, "java".to_string()));
    assert_eq!(rs[4].1, Layout::MacBundles);
    assert_eq!(rs[5], ("/Users/u/Library/Java/JavaVirtualMachines".to_string(), Layout::MacBundles, "java".to_string()));
    assert_eq!(rs[8].0, "/Users/u/Library/Application Support/JetBrains/Toolbox/apps");
}

#[test]
fn windows_table() {
    let mut e = env();
    e.program_files = Some("D:\\PF".to_string());
    e.user_profile = Some("C:\\Users\\u".to_string());
    e.local_app_data = Some("C:\\Users\\u\\AppData\\Local".to_string());
    let rs = roots_of(&search_roots(Platform::Windows, &e));
    // 3 program-files directories, 10 folders, 2 launchers each; then scoop 3, choco, sdkman, toolbox.
    assert_eq!(rs.len(), 60 + 3 + 1 + 1 + 1);
    assert_eq!(rs[0], ("D:\\PF\\Java".to_string(), Layout::Children, "java.exe".to_string()));
    assert_eq!(rs[1], ("D:\\PF\\Java".to_string(), Layout::Children, "javaw.exe".to_string()));
    assert_eq!(rs[19].0, "D:\\PF\\sapmachine");
    assert_eq!(rs[20].0, "C:\\Program Files\\Java");
    assert_eq!(rs[40].0, "C:\\Program Files (x86)\\Java");
    assert_eq!(rs[60], ("C:\\Users\\u\\scoop\\apps\\java".to_string(), Layout::Children, "java.exe".to_string()));
    assert_eq!(rs[62], ("C:\\Users\\u\\scoop\\apps".to_string(), Layout::ScoopApps, "java.exe".to_string()));
    assert_eq!(rs[63].0, "C:\\ProgramData\\chocolatey\\lib");
    assert_eq!(rs[64].0, "C:\\Users\\u\\.sdkman\\candidates\\java");
    assert_eq!(rs[65], ("C:\\Users\\u\\AppData\\Local\\JetBrains\\Toolbox\\apps".to_string(), Layout::ToolboxApps, "java.exe".to_string()));
}

#[test]
fn children_layout_needs_directories() {
    let r = root("/usr/lib/jvm", Layout::Children, "java");
    let x = expand_entry(&r, &child("/usr/lib/jvm/jdk-17", "jdk-17", true), Platform::Linux);
    assert_eq!(x.candidates, vec!["/usr/lib/jvm/jdk-17/bin/java"]);
    assert!(x.nested.is_none());
    let x = expand_entry(&r, &child("/usr/lib/jvm/readme", "readme", false), Platform::Linux);
    assert!(x.candidates.is_empty());
}

#[test]
fn mac_bundle_layout() {
    let r = root("/Library/Java/JavaVirtualMachines", Layout::MacBundles, "java");
    let x = expand_entry(&r, &child("/Library/Java/JavaVirtualMachines/t.jdk", "t.jdk", true), Platform::MacOs);
    assert_eq!(x.candidates, vec!["/Library/Java/JavaVirtualMachines/t.jdk/Contents/Home/bin/java"]);
}

#[test]
fn cellar_descends_into_openjdk_formulas() {
    let r = root("/opt/homebrew/Cellar", Layout::Cellar, "java");
    let x = expand_entry(&r, &child("/opt/homebrew/Cellar/OpenJDK@17", "OpenJDK@17", true), Platform::MacOs);
    assert!(x.candidates.is_empty());
    let n = x.nested.unwrap();
    assert_eq!(n.dir, "/opt/homebrew/Cellar/OpenJDK@17");
    assert_eq!(n.layout, Layout::CellarVersions);
    let x = expand_entry(&r, &child("/opt/homebrew/Cellar/git", "git", true), Platform::MacOs);
    assert!(x.nested.is_none());
    let y = expand_entry(&n, &child("/c/openjdk/17.0.9", "17.0.9", false), Platform::MacOs);
    assert_eq!(
        y.candidates,
        vec![
            "/c/openjdk/17.0.9/bin/java",
            "/c/openjdk/17.0.9/libexec/openjdk.jdk/Contents/Home/bin/java"
        ]
    );
}

#[test]
fn toolbox_checks_app_and_channel() {
    let r = root("/t/apps", Layout::ToolboxApps, "java");
    let x = expand_entry(&r, &child("/t/apps/idea", "idea", true), Platform::Linux);
    assert_eq!(x.candidates, vec!["/t/apps/idea/jbr/bin/java"]);
    let n = x.nested.unwrap();
    assert_eq!(n.layout, Layout::ToolboxChannels);
    let y = expand_entry(&n, &child("/t/apps/idea/ch-0", "ch-0", true), Platform::Linux);
    assert_eq!(y.candidates, vec!["/t/apps/idea/ch-0/jbr/bin/java"]);
}

#[test]
fn scoop_apps_by_name() {
    let r = root("C:\\s\\apps", Layout::ScoopApps, "java.exe");
    let x = expand_entry(&r, &child("C:\\s\\apps\\Temurin17-JDK", "Temurin17-JDK", true), Platform::Windows);
    assert!(x.candidates.is_empty());
    let n = x.nested.unwrap();
    assert_eq!(n.layout, Layout::Children);
    assert_eq!(n.exe, "java.exe");
    let x = expand_entry(&r, &child("C:\\s\\apps\\git", "git", true), Platform::Windows);
    assert!(x.nested.is_none());
}
