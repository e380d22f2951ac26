use java_runtimes::inventory::{assemble_inventory, select_candidates, Candidate, DetectedJava};
use java_runtimes::probe::ProbeOutcome;

fn cand(path: &str, is_file: bool, canonical: Option<&str>) -> Candidate {
    Candidate::new(path.to_string(), is_file, canonical.map(|c| c.to_string()))
}

fn ok_probe(version: &str) -> ProbeOutcome {
    ProbeOutcome::Exited {
        success: true,
        stdout: String::new(),
        stderr: format!("openjdk version \"{}\"\n", version),
    }
}

#[test]
fn identity_falls_back_to_path() {
    let c = cand("/usr/bin/java", true, None);
    assert_eq!(c.identity, "/usr/bin/java");
    let c = cand("/usr/bin/java", true, Some("/usr/lib/jvm/x/bin/java"));
    assert_eq!(c.identity, "/usr/lib/jvm/x/bin/java");
    assert_eq!(c.path, "/usr/bin/java");
}

#[test]
fn symlink_duplicates_keep_first() {
    let cands = vec![
        cand("/usr/bin/java", true, Some("/usr/lib/jvm/17/bin/java")),
        cand("/missing/java", false, None),
        cand("/usr/lib/jvm/17/bin/java", true, Some("/usr/lib/jvm/17/bin/java")),
        cand("/opt/jdk/bin/java", true, Some("/opt/jdk/bin/java")),
    ];
    assert_eq!(select_candidates(&cands), vec![0, 3]);
}

#[test]
fn non_files_are_skipped_even_with_shared_identity() {
    let cands = vec![cand("/a/java", false, Some("/x")), cand("/b/java", true, Some("/x"))];
    assert_eq!(select_candidates(&cands), vec![1]);
}

#[test]
fn no_valid_candidates_gives_empty_inventory() {
    let cands = vec![cand("/a/java", false, None), cand("/b/java", false, None)];
    let sel = select_candidates(&cands);
    assert!(sel.is_empty());
    let inv = assemble_inventory(&cands, &sel, &Vec::new());
    assert!(inv.is_empty());
    let none: Vec<Candidate> = Vec::new();
    assert!(select_candidates(&none).is_empty());
}

#[test]
fn inventory_keeps_order_and_drops_failures() {
    let cands = vec![
        cand("/a/java", true, None),
        cand("/b/java", true, None),
        cand("/c/java", true, None),
    ];
    let sel = select_candidates(&cands);
    let outs = vec![
        ok_probe("17.0.9"),
        ProbeOutcome::Exited { success: false, stdout: String::new(), stderr: String::new() },
        ok_probe("21"),
    ];
    let inv = assemble_inventory(&cands, &sel, &outs);
    assert_eq!(inv.len(), 2);
    assert_eq!(inv[0].pathname, "/a/java");
    assert_eq!(inv[0].version, "17.0.9");
    assert_eq!(inv[0].vendor, "OpenJDK");
    assert_eq!(inv[1].pathname, "/c/java");
    assert_eq!(inv[1].version, "21");
}

#[test]
fn duplicate_pair_gives_one_entry_with_first_path() {
    let cands = vec![
        cand("/usr/bin/java", true, Some("/jvm/bin/java")),
        cand("/jvm/bin/java", true, Some("/jvm/bin/java")),
    ];
    let sel = select_candidates(&cands);
    let outs = vec![ok_probe("17.0.9")];
    let inv = assemble_inventory(&cands, &sel, &outs);
    assert_eq!(inv.len(), 1);
    assert_eq!(inv[0].pathname, "/usr/bin/java");
}

#[test]
fn wire_round_trip_keeps_fields() {
    let d = DetectedJava {
        pathname: "C:\\Java\\bin\\java.exe".to_string(),
        version: "1.8.0_392".to_string(),
        vendor: "Azul Zulu".to_string(),
    };
    let fields = d.wire_fields();
    assert_eq!(fields[0], ("pathname".to_string(), d.pathname.clone()));
    assert_eq!(fields[1], ("version".to_string(), d.version.clone()));
    assert_eq!(fields[2], ("vendor".to_string(), d.vendor.clone()));
    let back = DetectedJava::from_wire_fields(&fields).unwrap();
    assert_eq!(back.pathname, d.pathname);
    assert_eq!(back.version, d.version);
    assert_eq!(back.vendor, d.vendor);
}

#[test]
fn wire_missing_field_is_none() {
    let fields = vec![
        ("pathname".to_string(), "/a".to_string()),
        ("vendor".to_string(), "Java".to_string()),
    ];
    assert!(DetectedJava::from_wire_fields(&fields).is_none());
}
