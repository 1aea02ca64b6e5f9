//! Where to look for Java installations.
//!
//! The search is a list of probes, made in order. The driver performs each
//! probe against the file system and collects the executables it finds; which
//! places are probed, and in which order, is decided here.

use crate::platform::Platform;
use crate::text::text_of;
use vstd::prelude::*;
use vstd::string::*;

verus! {

/// The variables of the environment that the search reads. A variable that
/// is not set, or whose value is not text, is `None`.
#[derive(Debug, Clone)]
pub struct SearchEnv {
    /// `HOME`
    pub home: Option<String>,
    /// `JAVA_HOME`
    pub java_home: Option<String>,
    /// `ProgramFiles`
    pub program_files: Option<String>,
    /// `ProgramFiles(x86)`
    pub program_files_x86: Option<String>,
    /// `LOCALAPPDATA`
    pub local_app_data: Option<String>,
}

/// A [`SearchEnv`] as a mathematical value.
pub ghost struct EnvModel {
    pub home: Option<Seq<char>>,
    pub java_home: Option<Seq<char>>,
    pub program_files: Option<Seq<char>>,
    pub program_files_x86: Option<Seq<char>>,
    pub local_app_data: Option<Seq<char>>,
}

impl View for SearchEnv {
    type V = EnvModel;

    open spec fn view(&self) -> EnvModel {
        EnvModel {
            home: text_of(self.home),
            java_home: text_of(self.java_home),
            program_files: text_of(self.program_files),
            program_files_x86: text_of(self.program_files_x86),
            local_app_data: text_of(self.local_app_data),
        }
    }
}

/// One place to look.
#[derive(Debug, Clone, PartialEq, Eq)]
pub enum Probe {
    /// Ask the lookup program. Each path it lists that exists is a
    /// candidate, with links resolved and the extended-length prefix
    /// stripped.
    Lookup,
    /// For each entry of the directory `dir`: the entry joined with
    /// `suffix` is a candidate if it exists.
    Children { dir: String, suffix: String },
    /// If `path` is a directory, as for `Children`; else `path` itself is a
    /// candidate if it exists.
    Bundle { path: String, suffix: String },
    /// `base` joined with `first`, and then with `second` if there is one, is
    /// a candidate if it exists.
    File { base: String, first: String, second: Option<String> },
}

/// A [`Probe`] as a mathematical value.
pub ghost enum ProbeModel {
    Lookup,
    Children { dir: Seq<char>, suffix: Seq<char> },
    Bundle { path: Seq<char>, suffix: Seq<char> },
    File { base: Seq<char>, first: Seq<char>, second: Option<Seq<char>> },
}

impl View for Probe {
    type V = ProbeModel;

    open spec fn view(&self) -> ProbeModel {
        match self {
            Probe::Lookup => ProbeModel::Lookup,
            Probe::Children { dir, suffix } => ProbeModel::Children { dir: dir@, suffix: suffix@ },
            Probe::Bundle { path, suffix } => ProbeModel::Bundle { path: path@, suffix: suffix@ },
            Probe::File { base, first, second } => ProbeModel::File {
                base: base@,
                first: first@,
                second: text_of(*second),
            },
        }
    }
}

/// The probes of a list as mathematical values.
pub open spec fn probes(list: Seq<Probe>) -> Seq<ProbeModel> {
    Seq::new(list.len(), |i: int| list[i]@)
}

/// The directories under which Linux distributions install Java.
pub open spec fn linux_roots() -> Seq<Seq<char>> {
    seq!["/usr/lib/jvm"@, "/usr/java"@, "/opt/java"@, "/opt/jdk"@, "/opt/openjdk"@]
}

/// The places where macOS and Homebrew keep Java.
pub open spec fn mac_roots() -> Seq<Seq<char>> {
    seq![
        "/Library/Java/JavaVirtualMachines"@,
        "/System/Library/Java/JavaVirtualMachines"@,
        "/usr/local/opt/openjdk/bin/java"@,
        "/opt/homebrew/opt/openjdk/bin/java"@,
    ]
}

/// The directories, below a base directory, into which the Windows
/// distributions of Java install.
pub open spec fn windows_vendors() -> Seq<Seq<char>> {
    seq![
        "\\Java"@,
        "\\Eclipse Adoptium"@,
        "\\AdoptOpenJDK"@,
        "\\Microsoft\\jdk"@,
        "\\Zulu"@,
        "\\Amazon Corretto"@,
        "\\BellSoft\\LibericaJDK"@,
        "\\Programs\\Eclipse Adoptium"@,
    ]
}

/// The base directories of Windows: the two program directories, with their
/// usual places where the environment does not name them, and the user's
/// local application data, empty where the environment does not name it.
pub open spec fn windows_bases(env: EnvModel) -> Seq<Seq<char>> {
    seq![
        match env.program_files {
            Some(dir) => dir,
            None => "C:\\Program Files"@,
        },
        match env.program_files_x86 {
            Some(dir) => dir,
            None => "C:\\Program Files (x86)"@,
        },
        match env.local_app_data {
            Some(dir) => dir,
            None => ""@,
        },
    ]
}

/// A `Children` probe for each of `dirs`, in order.
pub open spec fn children_of(dirs: Seq<Seq<char>>, suffix: Seq<char>) -> Seq<ProbeModel> {
    Seq::new(dirs.len(), |i: int| ProbeModel::Children { dir: dirs[i], suffix })
}

/// A `Bundle` probe for each of `paths`, in order.
pub open spec fn bundles_of(paths: Seq<Seq<char>>, suffix: Seq<char>) -> Seq<ProbeModel> {
    Seq::new(paths.len(), |i: int| ProbeModel::Bundle { path: paths[i], suffix })
}

/// Every vendor directory below every base directory, base by base.
pub open spec fn windows_roots(env: EnvModel) -> Seq<Seq<char>> {
    Seq::new(24, |i: int| windows_bases(env)[i / 8] + windows_vendors()[i % 8])
}

/// The probe for the Java that SDKMAN! has made current, if the home
/// directory is known.
pub open spec fn sdkman_probe(env: EnvModel) -> Seq<ProbeModel> {
    match env.home {
        Some(home) => seq![
            ProbeModel::File {
                base: home,
                first: ".sdkman/candidates/java/current/bin/java"@,
                second: None,
            },
        ],
        None => seq![],
    }
}

/// The probe for the Java that `JAVA_HOME` names, if it is set.
pub open spec fn java_home_probe(platform: Platform, env: EnvModel) -> Seq<ProbeModel> {
    match env.java_home {
        Some(home) => seq![
            ProbeModel::File {
                base: home,
                first: "bin"@,
                second: Some(
                    if platform is Windows {
                        "java.exe"@
                    } else {
                        "java"@
                    },
                ),
            },
        ],
        None => seq![],
    }
}

/// The probes that are particular to a platform.
pub open spec fn platform_probes(platform: Platform, env: EnvModel) -> Seq<ProbeModel> {
    match platform {
        Platform::Linux => children_of(linux_roots(), "bin/java"@) + sdkman_probe(env),
        Platform::MacOs => bundles_of(mac_roots(), "Contents/Home/bin/java"@) + seq![
            ProbeModel::Children {
                dir: "/opt/homebrew/Cellar/openjdk"@,
                suffix: "libexec/openjdk.jdk/Contents/Home/bin/java"@,
            },
        ] + sdkman_probe(env),
        Platform::Windows => children_of(windows_roots(env), "bin\\java.exe"@),
        Platform::Other => seq![],
    }
}

/// The whole search: the lookup first, then the platform's own places, and
/// `JAVA_HOME` last.
pub open spec fn search_plan(platform: Platform, env: EnvModel) -> Seq<ProbeModel> {
    seq![ProbeModel::Lookup] + platform_probes(platform, env) + java_home_probe(platform, env)
}

/// Appends a `Children` probe.
fn push_children(plan: &mut Vec<Probe>, dir: String, suffix: &str)
    ensures
        probes(final(plan)@) == probes(old(plan)@).push(
            ProbeModel::Children { dir: dir@, suffix: suffix@ },
        ),
{
    plan.push(Probe::Children { dir, suffix: String::from_str(suffix) });
    assert(probes(plan@) =~= probes(old(plan)@).push(
        ProbeModel::Children { dir: dir@, suffix: suffix@ },
    ));
}

/// Appends a `Bundle` probe.
fn push_bundle(plan: &mut Vec<Probe>, path: &str, suffix: &str)
    ensures
        probes(final(plan)@) == probes(old(plan)@).push(
            ProbeModel::Bundle { path: path@, suffix: suffix@ },
        ),
{
    plan.push(Probe::Bundle { path: String::from_str(path), suffix: String::from_str(suffix) });
    assert(probes(plan@) =~= probes(old(plan)@).push(
        ProbeModel::Bundle { path: path@, suffix: suffix@ },
    ));
}

/// The probe for the Java that SDKMAN! has made current: there is one where
/// the home directory is known.
pub fn sdkman_java(env: &SearchEnv) -> (probe: Option<Probe>)
    ensures
        sdkman_probe(env@) == match probe {
            Some(p) => seq![p@],
            None => seq![],
        },
{
    match &env.home {
        Some(home) => Some(
            Probe::File {
                base: home.clone(),
                first: String::from_str(".sdkman/candidates/java/current/bin/java"),
                second: None,
            },
        ),
        None => None,
    }
}

/// Appends the probe for SDKMAN!'s current Java.
fn push_sdkman(plan: &mut Vec<Probe>, env: &SearchEnv)
    ensures
        probes(final(plan)@) == probes(old(plan)@) + sdkman_probe(env@),
{
    match sdkman_java(env) {
        Some(probe) => {
            plan.push(probe);
        },
        None => {},
    }
    assert(probes(plan@) =~= probes(old(plan)@) + sdkman_probe(env@));
}

/// Appends the probe for `JAVA_HOME`.
fn push_java_home(plan: &mut Vec<Probe>, platform: Platform, env: &SearchEnv)
    ensures
        probes(final(plan)@) == probes(old(plan)@) + java_home_probe(platform, env@),
{
    match &env.java_home {
        Some(home) => {
            let name = match platform {
                Platform::Windows => String::from_str("java.exe"),
                _ => String::from_str("java"),
            };
            plan.push(
                Probe::File { base: home.clone(), first: String::from_str("bin"), second: Some(name) },
            );
        },
        None => {},
    }
    assert(probes(plan@) =~= probes(old(plan)@) + java_home_probe(platform, env@));
}

/// Appends the probes of the vendor directories below one Windows base
/// directory.
fn push_windows_base(plan: &mut Vec<Probe>, base: &str)
    ensures
        probes(final(plan)@) == probes(old(plan)@) + children_of(
            Seq::new(8, |i: int| base@ + windows_vendors()[i]),
            "bin\\java.exe"@,
        ),
{
    let suffix = "bin\\java.exe";
    push_children(plan, String::from_str(base).concat("\\Java"), suffix);
    push_children(plan, String::from_str(base).concat("\\Eclipse Adoptium"), suffix);
    push_children(plan, String::from_str(base).concat("\\AdoptOpenJDK"), suffix);
    push_children(plan, String::from_str(base).concat("\\Microsoft\\jdk"), suffix);
    push_children(plan, String::from_str(base).concat("\\Zulu"), suffix);
    push_children(plan, String::from_str(base).concat("\\Amazon Corretto"), suffix);
    push_children(plan, String::from_str(base).concat("\\BellSoft\\LibericaJDK"), suffix);
    push_children(plan, String::from_str(base).concat("\\Programs\\Eclipse Adoptium"), suffix);
    assert(probes(plan@) =~= probes(old(plan)@) + children_of(
        Seq::new(8, |i: int| base@ + windows_vendors()[i]),
        "bin\\java.exe"@,
    ));
}

/// The text of a variable, or `fallback` where it is not set.
fn or_default(value: &Option<String>, fallback: &str) -> (text: String)
    ensures
        text@ == match text_of(*value) {
            Some(t) => t,
            None => fallback@,
        },
{
    match value {
        Some(text) => text.clone(),
        None => String::from_str(fallback),
    }
}

/// The places to look for Java on `platform`, in the order in which they are
/// probed.
pub fn candidate_probes(platform: Platform, env: &SearchEnv) -> (plan: Vec<Probe>)
    ensures
        probes(plan@) == search_plan(platform, env@),
{
    let mut plan: Vec<Probe> = Vec::new();
    plan.push(Probe::Lookup);
    assert(probes(plan@) =~= seq![ProbeModel::Lookup]);
    match platform {
        Platform::Linux => {
            let suffix = "bin/java";
            push_children(&mut plan, String::from_str("/usr/lib/jvm"), suffix);
            push_children(&mut plan, String::from_str("/usr/java"), suffix);
            push_children(&mut plan, String::from_str("/opt/java"), suffix);
            push_children(&mut plan, String::from_str("/opt/jdk"), suffix);
            push_children(&mut plan, String::from_str("/opt/openjdk"), suffix);
            assert(probes(plan@) =~= seq![ProbeModel::Lookup] + children_of(
                linux_roots(),
                "bin/java"@,
            ));
            push_sdkman(&mut plan, env);
        },
        Platform::MacOs => {
            let suffix = "Contents/Home/bin/java";
            push_bundle(&mut plan, "/Library/Java/JavaVirtualMachines", suffix);
            push_bundle(&mut plan, "/System/Library/Java/JavaVirtualMachines", suffix);
            push_bundle(&mut plan, "/usr/local/opt/openjdk/bin/java", suffix);
            push_bundle(&mut plan, "/opt/homebrew/opt/openjdk/bin/java", suffix);
            push_children(
                &mut plan,
                String::from_str("/opt/homebrew/Cellar/openjdk"),
                "libexec/openjdk.jdk/Contents/Home/bin/java",
            );
            assert(probes(plan@) =~= seq![ProbeModel::Lookup] + bundles_of(
                mac_roots(),
                "Contents/Home/bin/java"@,
            ) + seq![
                ProbeModel::Children {
                    dir: "/opt/homebrew/Cellar/openjdk"@,
                    suffix: "libexec/openjdk.jdk/Contents/Home/bin/java"@,
                },
            ]);
            push_sdkman(&mut plan, env);
        },
        Platform::Windows => {
            let program_files = or_default(&env.program_files, "C:\\Program Files");
            let program_files_x86 = or_default(&env.program_files_x86, "C:\\Program Files (x86)");
            let local_app_data = or_default(&env.local_app_data, "");
            push_windows_base(&mut plan, program_files.as_str());
            push_windows_base(&mut plan, program_files_x86.as_str());
            push_windows_base(&mut plan, local_app_data.as_str());
            assert(probes(plan@) =~= seq![ProbeModel::Lookup] + children_of(
                windows_roots(env@),
                "bin\\java.exe"@,
            ));
        },
        Platform::Other => {
            assert(probes(plan@) =~= seq![ProbeModel::Lookup] + platform_probes(platform, env@));
        },
    }
    push_java_home(&mut plan, platform, env);
    plan
}

/// Every search begins with the lookup and probes `JAVA_HOME` last; a
/// platform of which nothing is known has no places of its own.
pub proof fn lemma_plan_shape(platform: Platform, env: EnvModel)
    ensures
        search_plan(platform, env).len() >= 1,
        search_plan(platform, env)[0] == ProbeModel::Lookup,
        env.java_home matches Some(home) ==> search_plan(platform, env).last()
            == java_home_probe(platform, env)[0],
        platform is Other && env.java_home is None ==> search_plan(platform, env)
            =~= seq![ProbeModel::Lookup],
        platform is Windows ==> search_plan(platform, env).len() == 25 + java_home_probe(
            platform,
            env,
        ).len(),
{
}

} // verus!
