//! Reading what a Java launcher printed for its version query: the version token, the vendor,
//! and the two answers built from them (strict for bulk discovery, lenient for a single path).
use vstd::prelude::*;
use crate::text::{
    chars_of, first_line, first_line_of, has_infix, has_infix_exec, is_space, lower_of, lowercase,
    occurs_at, trim_of, trimmed,
};

verus! {

/// The word that introduces the version token in a launcher's banner.
pub open spec fn version_word() -> Seq<char> {
    seq!['v', 'e', 'r', 's', 'i', 'o', 'n']
}

/// A character that ends a version token: white space or a double quote.
pub open spec fn ends_token(c: char) -> bool {
    is_space(c) || c == '"'
}

/// Index of the first character of `s` at or after `i` that ends a token, or the length of `s`.
pub open spec fn token_end(s: Seq<char>, i: int) -> int
    decreases s.len() - i,
{
    if i < 0 || i >= s.len() {
        s.len() as int
    } else if ends_token(s[i]) {
        i
    } else {
        token_end(s, i + 1)
    }
}

/// The token that the pattern `version\s+"?([^\s"]+)"?` captures in a match that starts at
/// index `p` of `s`, or `None` if no match starts there.
pub open spec fn match_at(s: Seq<char>, p: int) -> Option<Seq<char>> {
    if 0 <= p && p + 7 < s.len() && s.subrange(p, p + 7) == version_word() && is_space(
        s[p + 7],
    ) {
        let q = crate::text::space_end(s, p + 7);
        let t = if q < s.len() && s[q] == '"' {
            q + 1
        } else {
            q
        };
        let e = token_end(s, t);
        if t < e {
            Some(s.subrange(t, e))
        } else {
            None
        }
    } else {
        None
    }
}

/// The token of the leftmost match that starts at index `p` or later.
pub open spec fn version_from(s: Seq<char>, p: int) -> Option<Seq<char>>
    decreases s.len() - p,
{
    if p < 0 || p >= s.len() {
        None
    } else if match_at(s, p) is Some {
        match_at(s, p)
    } else {
        version_from(s, p + 1)
    }
}

/// The version token of a banner: the group that the leftmost match of
/// `version\s+"?([^\s"]+)"?` captures, if the pattern matches at all.
pub open spec fn version_token(s: Seq<char>) -> Option<Seq<char>> {
    version_from(s, 0)
}

/// Skipping the positions below `p`, none of which starts a match, leaves the token unchanged.
proof fn lemma_version_from_skips(s: Seq<char>, i: int, p: int)
    requires
        0 <= i <= p < s.len(),
        forall|j: int| i <= j < p ==> #[trigger] match_at(s, j) is None,
    ensures
        version_from(s, i) == version_from(s, p),
    decreases p - i,
{
    if i < p {
        lemma_version_from_skips(s, i + 1, p);
    }
}

/// The token that starts at `i` runs up to the first token-ending character at `e`.
proof fn lemma_token_end(s: Seq<char>, i: int, e: int)
    requires
        0 <= i <= e < s.len(),
        ends_token(s[e]),
        forall|j: int| i <= j < e ==> !ends_token(#[trigger] s[j]),
    ensures
        token_end(s, i) == e,
    decreases e - i,
{
    if i < e {
        lemma_token_end(s, i + 1, e);
    }
}

/// A banner whose first `version` is followed by a space and a quoted token yields exactly
/// that token, without its quotes: `version "17.0.9"` gives `17.0.9`.
pub proof fn lemma_quoted_version(pre: Seq<char>, tok: Seq<char>, post: Seq<char>)
    requires
        !has_infix(pre, version_word()),
        tok.len() > 0,
        forall|i: int| 0 <= i < tok.len() ==> !ends_token(#[trigger] tok[i]),
    ensures
        version_token(pre + version_word() + seq![' ', '"'] + tok + seq!['"'] + post) == Some(
            tok,
        ),
{
    let s = pre + version_word() + seq![' ', '"'] + tok + seq!['"'] + post;
    let n = pre.len() as int;
    let e = n + 9 + tok.len();
    assert(s[n + 7] == ' ');
    assert(s[n + 8] == '"');
    assert(s[e] == '"');
    assert forall|j: int| 0 <= j < n implies #[trigger] match_at(s, j) is None by {
        if j + 7 <= n {
            assert(s.subrange(j, j + 7) == pre.subrange(j, j + 7));
            assert(!occurs_at(pre, version_word(), j));
        } else {
            let k = n - j;
            assert(s.subrange(j, j + 7)[k] == 'v');
            assert(version_word()[k] != 'v');
        }
    }
    lemma_version_from_skips(s, 0, n);
    assert(s.subrange(n, n + 7) =~= version_word());
    assert(crate::text::space_end(s, n + 8) == n + 8);
    assert(crate::text::space_end(s, n + 7) == n + 8);
    assert forall|j: int| n + 9 <= j < e implies !ends_token(#[trigger] s[j]) by {
        assert(s[j] == tok[j - n - 9]);
    }
    lemma_token_end(s, n + 9, e);
    assert(s.subrange(n + 9, e) =~= tok);
}

/// The characters of an optional string.
pub open spec fn opt_chars(r: Option<String>) -> Option<Seq<char>> {
    match r {
        Some(v) => Some(v@),
        None => None,
    }
}

/// Relies on `regex::Regex::new` and `regex::Regex::captures`: the first group of the
/// leftmost-first match of the banner pattern, where `\s` is Unicode white space.
#[verifier::external_body]
fn capture_version(text: &str) -> (r: Option<String>)
    ensures
        opt_chars(r) == version_token(text@),
{
    let re = match regex::Regex::new(r#"version\s+"?([^\s"]+)"?"#) {
        Ok(re) => re,
        Err(_) => return None,
    };
    let caps = re.captures(text)?;
    let group = caps.get(1)?;
    Some(group.as_str().to_string())
}

/// The vendor label of a lowercased banner line, by the first signature that it contains:
/// distribution names first, then `openjdk`, then `java`, else the generic `Java`.
pub open spec fn vendor_label(l: Seq<char>) -> Seq<char> {
    if has_infix(l, "graalvm"@) {
        "GraalVM"@
    } else if has_infix(l, "corretto"@) {
        "Amazon Corretto"@
    } else if has_infix(l, "temurin"@) || has_infix(l, "adoptium"@) {
        "Eclipse Temurin"@
    } else if has_infix(l, "adoptopenjdk"@) {
        "AdoptOpenJDK"@
    } else if has_infix(l, "zulu"@) {
        "Azul Zulu"@
    } else if has_infix(l, "semeru"@) {
        "IBM Semeru"@
    } else if has_infix(l, "liberica"@) {
        "BellSoft Liberica"@
    } else if has_infix(l, "sapmachine"@) {
        "SapMachine"@
    } else if has_infix(l, "microsoft"@) {
        "Microsoft OpenJDK"@
    } else if has_infix(l, "openjdk"@) {
        "OpenJDK"@
    } else if has_infix(l, "java"@) {
        "Oracle Java"@
    } else {
        "Java"@
    }
}

/// The line mentions a specific distribution (not only `openjdk` or `java`).
pub open spec fn names_distribution(l: Seq<char>) -> bool {
    has_infix(l, "graalvm"@) || has_infix(l, "corretto"@) || has_infix(l, "temurin"@) || has_infix(
        l,
        "adoptium"@,
    ) || has_infix(l, "adoptopenjdk"@) || has_infix(l, "zulu"@) || has_infix(l, "semeru"@)
        || has_infix(l, "liberica"@) || has_infix(l, "sapmachine"@) || has_infix(l, "microsoft"@)
}

/// A lowercased banner line that names a distribution is attributed to a distribution, even
/// when it also contains `openjdk` or `java`: never to the generic labels.
pub proof fn lemma_distribution_first(l: Seq<char>)
    requires
        names_distribution(l),
    ensures
        vendor_label(l) != "OpenJDK"@,
        vendor_label(l) != "Oracle Java"@,
        vendor_label(l) != "Java"@,
{
    reveal_strlit("OpenJDK");
    reveal_strlit("Oracle Java");
    reveal_strlit("Java");
    reveal_strlit("GraalVM");
    reveal_strlit("Amazon Corretto");
    reveal_strlit("Eclipse Temurin");
    reveal_strlit("AdoptOpenJDK");
    reveal_strlit("Azul Zulu");
    reveal_strlit("IBM Semeru");
    reveal_strlit("BellSoft Liberica");
    reveal_strlit("SapMachine");
    reveal_strlit("Microsoft OpenJDK");
    assert("GraalVM"@[0] != "OpenJDK"@[0]);
    let generic = seq!["OpenJDK"@, "Oracle Java"@, "Java"@];
    let named = seq![
        "Amazon Corretto"@,
        "Eclipse Temurin"@,
        "AdoptOpenJDK"@,
        "Azul Zulu"@,
        "IBM Semeru"@,
        "BellSoft Liberica"@,
        "SapMachine"@,
        "Microsoft OpenJDK"@,
    ];
    assert forall|a: int, b: int| 0 <= a < 3 && 0 <= b < 8 implies (#[trigger] generic[a]).len()
        != (#[trigger] named[b]).len() by {}
}

/// A lowercased line with `openjdk` and `temurin`, and no signature ranked above them, is
/// attributed to Eclipse Temurin.
pub proof fn lemma_temurin_over_openjdk(l: Seq<char>)
    requires
        has_infix(l, "openjdk"@),
        has_infix(l, "temurin"@),
        !has_infix(l, "graalvm"@),
        !has_infix(l, "corretto"@),
    ensures
        vendor_label(l) == "Eclipse Temurin"@,
{
}

/// A lowercased line with no signature at all, nor `openjdk` or `java`, gets the generic
/// label `Java`.
pub proof fn lemma_no_signature_generic(l: Seq<char>)
    requires
        !names_distribution(l),
        !has_infix(l, "openjdk"@),
        !has_infix(l, "java"@),
    ensures
        vendor_label(l) == "Java"@,
{
}

/// Whether the lowercased line `l` contains the signature `sig`.
fn holds(l: &Vec<char>, sig: &str) -> (r: bool)
    ensures
        r == has_infix(l@, sig@),
{
    has_infix_exec(l, &chars_of(sig))
}

/// The vendor label of a banner line that is already lowercased.
pub fn vendor_of_lowered(lower: &str) -> (r: String)
    ensures
        r@ == vendor_label(lower@),
{
    let l = chars_of(lower);
    let label = if holds(&l, "graalvm") {
        "GraalVM"
    } else if holds(&l, "corretto") {
        "Amazon Corretto"
    } else if holds(&l, "temurin") || holds(&l, "adoptium") {
        "Eclipse Temurin"
    } else if holds(&l, "adoptopenjdk") {
        "AdoptOpenJDK"
    } else if holds(&l, "zulu") {
        "Azul Zulu"
    } else if holds(&l, "semeru") {
        "IBM Semeru"
    } else if holds(&l, "liberica") {
        "BellSoft Liberica"
    } else if holds(&l, "sapmachine") {
        "SapMachine"
    } else if holds(&l, "microsoft") {
        "Microsoft OpenJDK"
    } else if holds(&l, "openjdk") {
        "OpenJDK"
    } else if holds(&l, "java") {
        "Oracle Java"
    } else {
        "Java"
    };
    String::from_str(label)
}

/// The vendor label of the first line of a launcher's banner, matched without regard to case.
pub fn detect_vendor(first_line: &str) -> (r: String)
    ensures
        r@ == vendor_label(lower_of(first_line@)),
{
    let lower = lowercase(first_line);
    vendor_of_lowered(lower.as_str())
}

/// What running a launcher with its version flag gave.
pub enum ProbeOutcome {
    /// The process could not be started; the text says why.
    SpawnFailed(String),
    /// The process ran to its end, with these captured streams.
    Exited { success: bool, stdout: String, stderr: String },
}

/// Parsed result of a successful version query.
pub struct JavaInfo {
    pub version: String,
    pub vendor: String,
}

/// Standard output followed by standard error: the banner that the patterns are matched against.
pub open spec fn banner(stdout: Seq<char>, stderr: Seq<char>) -> Seq<char> {
    stdout + stderr
}

/// The first line of `s`, or `d` when `s` is empty.
pub open spec fn line_or(s: Seq<char>, d: Seq<char>) -> Seq<char> {
    match first_line(s) {
        Some(l) => l,
        None => d,
    }
}

/// What the strict probe of bulk discovery makes of an outcome: a version and a vendor when the
/// process exited successfully and its banner holds a version token, `None` otherwise.
pub open spec fn java_info_spec(o: ProbeOutcome) -> Option<(Seq<char>, Seq<char>)> {
    match o {
        ProbeOutcome::SpawnFailed(_) => None,
        ProbeOutcome::Exited { success, stdout, stderr } => {
            let b = banner(stdout@, stderr@);
            if success && version_token(b) is Some {
                Some((version_token(b)->0, vendor_label(lower_of(line_or(b, Seq::empty())))))
            } else {
                None
            }
        },
    }
}

/// The error text shown when a failed query printed nothing.
pub open spec fn no_output_message() -> Seq<char> {
    "Java command failed with no output"@
}

/// What the lenient single-path query makes of an outcome. A spawn failure and a failed exit
/// are errors that carry the reason or the captured text (standard error if it is not empty,
/// else standard output), trimmed, with a fixed message when that leaves nothing. A successful
/// exit gives the version token, else the first line of the banner, else `unknown`.
pub open spec fn version_reply_spec(o: ProbeOutcome) -> Result<Seq<char>, Seq<char>> {
    match o {
        ProbeOutcome::SpawnFailed(e) => Err("Failed to execute java: "@ + e@),
        ProbeOutcome::Exited { success, stdout, stderr } => {
            let b = banner(stdout@, stderr@);
            if success {
                match version_token(b) {
                    Some(v) => Ok(v),
                    None => Ok(line_or(b, "unknown"@)),
                }
            } else {
                let m = if stderr@.len() > 0 {
                    trimmed(stderr@)
                } else {
                    trimmed(stdout@)
                };
                if m.len() == 0 {
                    Err(no_output_message())
                } else {
                    Err(m)
                }
            }
        },
    }
}

/// The characters of a string result.
pub open spec fn result_chars(r: Result<String, String>) -> Result<Seq<char>, Seq<char>> {
    match r {
        Ok(v) => Ok(v@),
        Err(e) => Err(e@),
    }
}

/// The strict probe: version and vendor of a launcher, or `None` when it could not be started,
/// exited with a failure, or printed no version token.
pub fn java_info(outcome: &ProbeOutcome) -> (r: Option<JavaInfo>)
    ensures
        r is Some <==> java_info_spec(*outcome) is Some,
        r is Some ==> (r->0.version@, r->0.vendor@) == java_info_spec(*outcome)->0,
{
    match outcome {
        ProbeOutcome::SpawnFailed(_) => None,
        ProbeOutcome::Exited { success, stdout, stderr } => {
            if !*success {
                return None;
            }
            let combined = stdout.clone().concat(stderr.as_str());
            match capture_version(combined.as_str()) {
                None => None,
                Some(version) => {
                    let line = match first_line_of(combined.as_str()) {
                        Some(l) => l,
                        None => String::new(),
                    };
                    let vendor = detect_vendor(line.as_str());
                    Some(JavaInfo { version, vendor })
                },
            }
        },
    }
}

/// The lenient probe behind a single-path version query (see [`version_reply_spec`]).
pub fn version_reply(outcome: &ProbeOutcome) -> (r: Result<String, String>)
    ensures
        result_chars(r) == version_reply_spec(*outcome),
        r is Err ==> r->Err_0@.len() > 0,
        (match *outcome {
            ProbeOutcome::Exited { success, stdout, stderr } => success && version_token(
                banner(stdout@, stderr@),
            ) is None && first_line(banner(stdout@, stderr@)) is Some ==> r is Ok && r->Ok_0@
                == first_line(banner(stdout@, stderr@))->0,
            ProbeOutcome::SpawnFailed(_) => true,
        }),
{
    proof {
        reveal_strlit("Failed to execute java: ");
        reveal_strlit("Java command failed with no output");
    }
    match outcome {
        ProbeOutcome::SpawnFailed(e) => {
            Err(String::from_str("Failed to execute java: ").concat(e.as_str()))
        },
        ProbeOutcome::Exited { success, stdout, stderr } => {
            let combined = stdout.clone().concat(stderr.as_str());
            if *success {
                match capture_version(combined.as_str()) {
                    Some(version) => Ok(version),
                    None => match first_line_of(combined.as_str()) {
                        Some(l) => Ok(l),
                        None => Ok(String::from_str("unknown")),
                    },
                }
            } else {
                let m = if stderr.as_str().unicode_len() > 0 {
                    trim_of(stderr.as_str())
                } else {
                    trim_of(stdout.as_str())
                };
                if m.as_str().unicode_len() == 0 {
                    Err(String::from_str("Java command failed with no output"))
                } else {
                    Err(m)
                }
            }
        },
    }
}

} // verus!
