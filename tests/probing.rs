use java_runtimes::probe::{detect_vendor, java_info, vendor_of_lowered, version_reply, ProbeOutcome};

fn exited(success: bool, stdout: &str, stderr: &str) -> ProbeOutcome {
    ProbeOutcome::Exited { success, stdout: stdout.to_string(), stderr: stderr.to_string() }
}

#[test]
fn quoted_version_token_is_unquoted() {
    let o = exited(true, "", "openjdk version \"17.0.9\" 2023-10-17\nOpenJDK Runtime Environment\n");
    assert_eq!(version_reply(&o), Ok("17.0.9".to_string()));
    let info = java_info(&o).unwrap();
    assert_eq!(info.version, "17.0.9");
    assert_eq!(info.vendor, "OpenJDK");
}

#[test]
fn legacy_version_token() {
    let o = exited(true, "", "java version \"1.8.0_392\"\nJava(TM) SE Runtime Environment\n");
    let info = java_info(&o).unwrap();
    assert_eq!(info.version, "1.8.0_392");
    assert_eq!(info.vendor, "Oracle Java");
}

#[test]
fn unquoted_version_token() {
    let o = exited(true, "version   21-ea rest", "");
    assert_eq!(version_reply(&o), Ok("21-ea".to_string()));
}

#[test]
fn first_match_wins() {
    let o = exited(true, "version \"11\"\n", "version \"17\"\n");
    assert_eq!(version_reply(&o), Ok("11".to_string()));
}

#[test]
fn stdout_comes_before_stderr() {
    let o = exited(true, "banner first\n", "openjdk version \"21.0.1\"\n");
    let info = java_info(&o).unwrap();
    assert_eq!(info.version, "21.0.1");
    assert_eq!(info.vendor, "Java");
}

#[test]
fn distribution_beats_openjdk() {
    assert_eq!(detect_vendor("openjdk version \"17.0.9\" Temurin"), "Eclipse Temurin");
    assert_eq!(detect_vendor("OpenJDK 64-Bit Server VM Zulu17"), "Azul Zulu");
    assert_eq!(detect_vendor("OpenJDK Runtime Environment Corretto-17"), "Amazon Corretto");
    assert_eq!(detect_vendor("openjdk version (Microsoft build)"), "Microsoft OpenJDK");
    assert_eq!(detect_vendor("GraalVM CE openjdk"), "GraalVM");
}

#[test]
fn vendor_table_entries() {
    assert_eq!(detect_vendor("Adoptium build"), "Eclipse Temurin");
    assert_eq!(detect_vendor("AdoptOpenJDK build"), "AdoptOpenJDK");
    assert_eq!(detect_vendor("IBM Semeru Runtime"), "IBM Semeru");
    assert_eq!(detect_vendor("BellSoft Liberica"), "BellSoft Liberica");
    assert_eq!(detect_vendor("SapMachine 17"), "SapMachine");
    assert_eq!(detect_vendor("OPENJDK"), "OpenJDK");
    assert_eq!(detect_vendor("JAVA version"), "Oracle Java");
}

#[test]
fn unknown_banner_gets_generic_vendor() {
    assert_eq!(detect_vendor("some other runtime 1.0"), "Java");
    assert_eq!(detect_vendor(""), "Java");
    assert_eq!(vendor_of_lowered("nothing here"), "Java");
}

#[test]
fn vendor_of_lowered_is_case_sensitive() {
    assert_eq!(vendor_of_lowered("temurin"), "Eclipse Temurin");
    assert_eq!(vendor_of_lowered("TEMURIN"), "Java");
}

#[test]
fn no_match_falls_back_to_first_line() {
    let o = exited(true, "weird banner\r\nsecond line\n", "");
    assert_eq!(version_reply(&o), Ok("weird banner".to_string()));
    assert!(java_info(&o).is_none());
}

#[test]
fn empty_output_is_unknown() {
    let o = exited(true, "", "");
    assert_eq!(version_reply(&o), Ok("unknown".to_string()));
    assert!(java_info(&o).is_none());
}

#[test]
fn spawn_failure_is_an_error() {
    let o = ProbeOutcome::SpawnFailed("No such file or directory (os error 2)".to_string());
    assert_eq!(
        version_reply(&o),
        Err("Failed to execute java: No such file or directory (os error 2)".to_string())
    );
    assert!(java_info(&o).is_none());
}

#[test]
fn spawn_failure_without_reason_is_not_empty() {
    let o = ProbeOutcome::SpawnFailed(String::new());
    let e = version_reply(&o).unwrap_err();
    assert!(!e.is_empty());
}

#[test]
fn failed_exit_without_output() {
    let o = exited(false, "", "");
    assert_eq!(version_reply(&o), Err("Java command failed with no output".to_string()));
    assert!(java_info(&o).is_none());
}

#[test]
fn failed_exit_prefers_trimmed_stderr() {
    let o = exited(false, "out text", "  Error: bad option\n");
    assert_eq!(version_reply(&o), Err("Error: bad option".to_string()));
    let o = exited(false, "\tout text \n", "");
    assert_eq!(version_reply(&o), Err("out text".to_string()));
}

#[test]
fn failed_exit_with_blank_stderr_is_not_silent() {
    let o = exited(false, "out text", " \n");
    assert_eq!(version_reply(&o), Err("Java command failed with no output".to_string()));
}

#[test]
fn failed_exit_with_version_is_dropped() {
    let o = exited(false, "", "openjdk version \"17.0.9\"");
    assert!(java_info(&o).is_none());
}
