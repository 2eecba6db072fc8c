//! Package installation: the names and states it uses, checksums, the
//! placement of package entries, template expansion in lifecycle steps, and
//! the concrete file operations each lifecycle step stands for.
use crate::digest::{compute_sha256, sha256_hex};
use crate::manifest::{clone_opt_string, clone_strings, opt_view, PluginManifest, PluginPermission, PluginRuntimeManifest, PluginSetupAction, PluginSetupCondition, PluginSetupStep};
use crate::paths::{contains_parent_dir, has_parent_dir, is_absolute, is_absolute_path, join_path, path_join};
use crate::permissions::{permission_keys_to_items, PluginPermissionGrantItem, grant_items};
use crate::runtime::views;
use crate::text::{append_str, concat2, concat3, decimal, ends_with_ignore_ascii_case, has_suffix_ignore_ascii_case, i32_to_decimal, owned, replace_all, replace_str, signed_decimal, str_eq, trim_ws, trim_ws_str, u64_to_decimal};
use vstd::prelude::*;

verus! {

pub const FILEUNI_PLUGIN_MARKET_BASE_URL: &'static str = "https://www.fileuni.com/api/plugins";

/// The manifest at the root of every plugin package.
pub const PLUGIN_MANIFEST_FILE_NAME: &'static str = "plugin.json";

/// The default configuration file of a plugin.
pub const PLUGIN_DEFAULT_CONFIG_FILE_NAME: &'static str = "config.toml";

pub const INSTALL_STATUS_PENDING: &'static str = "pending";

pub const INSTALL_STATUS_INSTALLED: &'static str = "installed";

pub const INSTALL_STATUS_RUNNING: &'static str = "running";

pub const INSTALL_STATUS_UNINSTALLED: &'static str = "uninstalled";

#[derive(Debug, Clone, PartialEq, Eq)]
pub struct InstallPluginResult {
    pub plugin_id: String,
    pub version: String,
    pub package_dir: String,
    pub checksum_sha256: String,
    pub prepared_runtime_kind: String,
}

#[derive(Debug, Clone)]
pub struct InstallPluginOptions {
    pub source_kind: String,
    pub market_origin: Option<String>,
    pub actor_user_id: Option<String>,
}

/// `SHA-256 mismatch: expected {expected} but computed {actual}`.
pub open spec fn sha_mismatch_message(expected: Seq<char>, actual: Seq<char>) -> Seq<char> {
    "SHA-256 mismatch: expected "@ + expected + " but computed "@ + actual
}

/// Checks downloaded bytes against the checksum a step names.
pub fn verify_sha256(data: &[u8], expected: &str) -> (r: Result<(), String>)
    ensures
        sha256_hex(data@) == expected@ ==> r is Ok,
        sha256_hex(data@) != expected@ ==> (r matches Err(e) && e@ == sha_mismatch_message(
            expected@,
            sha256_hex(data@),
        )),
{
    let actual = compute_sha256(data);
    if !str_eq(actual.as_str(), expected) {
        let mut e = concat3("SHA-256 mismatch: expected ", expected, " but computed ");
        append_str(&mut e, actual.as_str());
        return Err(e);
    }
    Ok(())
}

/// Where package entry `name` goes under `base`: refused when it is absolute
/// or climbs out through a `..` component.
pub fn safe_join(base: &str, name: &str) -> (r: Result<String, String>)
    ensures
        is_absolute_path(name@) ==> (r matches Err(e) && e@ == "zip entry cannot be absolute: "@
            + name@),
        !is_absolute_path(name@) && has_parent_dir(name@) ==> (r matches Err(e) && e@
            == "zip entry cannot escape package root: "@ + name@),
        !is_absolute_path(name@) && !has_parent_dir(name@) ==> (r matches Ok(p) && p@ == path_join(
            base@,
            name@,
        )),
{
    if is_absolute(name) {
        return Err(concat2("zip entry cannot be absolute: ", name));
    }
    if contains_parent_dir(name) {
        return Err(concat2("zip entry cannot escape package root: ", name));
    }
    Ok(join_path(base, name))
}

/// The directory a package version is unpacked to.
pub fn package_dir(packages_root: &str, plugin_id: &str, version: &str) -> (r: String)
    ensures
        r@ == path_join(path_join(packages_root@, plugin_id@), version@),
{
    let d = join_path(packages_root, plugin_id);
    join_path(d.as_str(), version)
}

/// The package checksum check at registration: a manifest that names a
/// checksum must name the one of the package bytes.
pub fn check_package_checksum(manifest: &PluginManifest, checksum_sha256: &str) -> (r: Result<
    (),
    String,
>)
    ensures
        (match manifest.checksum_sha256 {
            Some(c) => c@ != checksum_sha256@,
            None => false,
        }) ==> (r matches Err(e) && e@
            == "plugin package checksum does not match manifest checksum_sha256"@),
        (match manifest.checksum_sha256 {
            Some(c) => c@ == checksum_sha256@,
            None => true,
        }) ==> r is Ok,
{
    match &manifest.checksum_sha256 {
        Some(expected) => {
            if !str_eq(expected.as_str(), checksum_sha256) {
                return Err(owned("plugin package checksum does not match manifest checksum_sha256"));
            }
            Ok(())
        },
        None => Ok(()),
    }
}

/// The permission grants a newly registered plugin starts with: each
/// permission it asks for, none granted.
pub fn build_default_permission_grants(permissions: &Vec<PluginPermission>) -> (r: Vec<
    PluginPermissionGrantItem,
>)
    ensures
        grant_items(r@) == Seq::new(
            permissions@.len(),
            |i: int| (crate::manifest::permission_key(permissions@[i]), false),
        ),
{
    let none: Vec<String> = Vec::new();
    let r = permission_keys_to_items(permissions, &none);
    proof {
        assert(grant_items(r@) =~= Seq::new(
            permissions@.len(),
            |i: int| (crate::manifest::permission_key(permissions@[i]), false),
        ));
    }
    r
}

/// The name of the target architecture as packages refer to it:
/// `x86_64` is called `amd64`, everything else keeps its name.
pub open spec fn arch_name(arch: Seq<char>) -> Seq<char> {
    if arch == "x86_64"@ {
        "amd64"@
    } else {
        arch
    }
}

/// The template with `{version}`, `{os}`, `{arch}`, `{plugin_id}` and
/// `{name}` replaced, in that order; spaces in the name become `%20`.
pub open spec fn expand_template(
    template: Seq<char>,
    version: Seq<char>,
    plugin_id: Seq<char>,
    name: Seq<char>,
    os: Seq<char>,
    arch: Seq<char>,
) -> Seq<char> {
    replace_all(
        replace_all(
            replace_all(
                replace_all(replace_all(template, "{version}"@, version), "{os}"@, os),
                "{arch}"@,
                arch_name(arch),
            ),
            "{plugin_id}"@,
            plugin_id,
        ),
        "{name}"@,
        replace_all(name, " "@, "%20"@),
    )
}

/// Expands the placeholders of a lifecycle step field; `os` and `arch` are
/// the names of the host system and architecture.
pub fn resolve_template_vars(
    template: &str,
    version: &str,
    plugin_id: &str,
    name: &str,
    os: &str,
    arch: &str,
) -> (r: String)
    ensures
        r@ == expand_template(template@, version@, plugin_id@, name@, os@, arch@),
{
    proof {
        reveal_strlit("{version}");
        reveal_strlit("{os}");
        reveal_strlit("{arch}");
        reveal_strlit("{plugin_id}");
        reveal_strlit("{name}");
        reveal_strlit(" ");
    }
    let arch_str = if str_eq(arch, "x86_64") {
        "amd64"
    } else {
        arch
    };
    let name_encoded = replace_str(name, " ", "%20");
    let a = replace_str(template, "{version}", version);
    let b = replace_str(a.as_str(), "{os}", os);
    let c = replace_str(b.as_str(), "{arch}", arch_str);
    let d = replace_str(c.as_str(), "{plugin_id}", plugin_id);
    replace_str(d.as_str(), "{name}", name_encoded.as_str())
}

/// What must be looked up to decide a step condition.
#[derive(Debug, PartialEq, Eq)]
pub enum ConditionProbe {
    /// Whether this path exists.
    PathExists(String),
    /// Whether this environment variable is set.
    EnvVarSet(String),
}

/// The lookup a step condition needs: a path inside the package, or an
/// environment variable.
pub fn condition_probe(condition: &PluginSetupCondition, pkg_dir: &str) -> (r: ConditionProbe)
    ensures
        (match *condition {
            PluginSetupCondition::FileNotExists { file_not_exists } => (r matches ConditionProbe::PathExists(p) && p@
                == path_join(pkg_dir@, file_not_exists@)),
            PluginSetupCondition::FileExists { file_exists } => (r matches ConditionProbe::PathExists(p) && p@
                == path_join(pkg_dir@, file_exists@)),
            PluginSetupCondition::EnvNotSet { env_not_set } => (r matches ConditionProbe::EnvVarSet(v) && v@
                == env_not_set@),
        }),
{
    match condition {
        PluginSetupCondition::FileNotExists { file_not_exists } => ConditionProbe::PathExists(
            join_path(pkg_dir, file_not_exists.as_str()),
        ),
        PluginSetupCondition::FileExists { file_exists } => ConditionProbe::PathExists(
            join_path(pkg_dir, file_exists.as_str()),
        ),
        PluginSetupCondition::EnvNotSet { env_not_set } => ConditionProbe::EnvVarSet(
            env_not_set.clone(),
        ),
    }
}

pub open spec fn condition_holds_spec(condition: PluginSetupCondition, found: bool) -> bool {
    match condition {
        PluginSetupCondition::FileNotExists { .. } => !found,
        PluginSetupCondition::FileExists { .. } => found,
        PluginSetupCondition::EnvNotSet { .. } => !found,
    }
}

/// Whether a step runs, given what its probe found (the path exists, or the
/// variable is set).
pub fn condition_holds(condition: &PluginSetupCondition, found: bool) -> (r: bool)
    ensures
        r == condition_holds_spec(*condition, found),
{
    match condition {
        PluginSetupCondition::FileNotExists { .. } => !found,
        PluginSetupCondition::FileExists { .. } => found,
        PluginSetupCondition::EnvNotSet { .. } => !found,
    }
}

/// What a lifecycle step list is expanded with.
pub struct SetupContext {
    pub version: String,
    pub plugin_id: String,
    pub name: String,
    pub os: String,
    pub arch: String,
    /// Download URLs to use instead of the manifest's, keyed by the position
    /// (as decimal text) of the download among the downloads that run.
    pub download_url_overrides: Vec<(String, String)>,
}

/// The override for key `key`: the first entry with that key.
pub open spec fn override_for(entries: Seq<(String, String)>, key: Seq<char>) -> Option<Seq<char>>
    decreases entries.len(),
{
    if entries.len() == 0 {
        None
    } else if entries[0].0@ == key {
        Some(entries[0].1@)
    } else {
        override_for(entries.drop_first(), key)
    }
}

fn find_override(entries: &Vec<(String, String)>, key: &str) -> (r: Option<String>)
    ensures
        opt_view(r) == override_for(entries@, key@),
{
    let mut i: usize = 0;
    proof {
        assert(entries@.skip(0) =~= entries@);
    }
    while i < entries.len()
        invariant
            i <= entries.len(),
            override_for(entries@, key@) == override_for(entries@.skip(i as int), key@),
        decreases entries.len() - i,
    {
        proof {
            assert(entries@.skip(i as int).drop_first() =~= entries@.skip(i + 1));
        }
        if str_eq(entries[i].0.as_str(), key) {
            return Some(entries[i].1.clone());
        }
        i = i + 1;
    }
    None
}

pub open spec fn expand_opt(o: Option<String>, c: SetupContext) -> Option<Seq<char>> {
    match o {
        Some(t) => Some(expand_template(t@, c.version@, c.plugin_id@, c.name@, c.os@, c.arch@)),
        None => None,
    }
}

/// The texts of the fields of a step that templates and overrides touch.
pub struct ResolvedStepView {
    pub action: PluginSetupAction,
    pub url: Option<Seq<char>>,
    pub source: Option<Seq<char>>,
    pub dest: Option<Seq<char>>,
    pub symlink_target: Option<Seq<char>>,
}

pub open spec fn resolved_view(s: PluginSetupStep) -> ResolvedStepView {
    ResolvedStepView {
        action: s.action,
        url: opt_view(s.url),
        source: opt_view(s.source),
        dest: opt_view(s.dest),
        symlink_target: opt_view(s.symlink_target),
    }
}

/// A step as it runs: its URL, source, destination and link target with
/// the placeholders expanded, and a download's URL replaced by the override
/// for its position `download_index`, when there is one.
pub open spec fn resolved_step(
    step: PluginSetupStep,
    c: SetupContext,
    download_index: nat,
) -> ResolvedStepView {
    let url = expand_opt(step.url, c);
    ResolvedStepView {
        action: step.action,
        url: if step.action == PluginSetupAction::Download && override_for(
            c.download_url_overrides@,
            decimal(download_index),
        ) is Some {
            override_for(c.download_url_overrides@, decimal(download_index))
        } else {
            url
        },
        source: expand_opt(step.source, c),
        dest: expand_opt(step.dest, c),
        symlink_target: expand_opt(step.symlink_target, c),
    }
}

fn expand_field(o: &Option<String>, c: &SetupContext) -> (r: Option<String>)
    ensures
        opt_view(r) == expand_opt(*o, *c),
{
    match o {
        Some(t) => Some(
            resolve_template_vars(
                t.as_str(),
                c.version.as_str(),
                c.plugin_id.as_str(),
                c.name.as_str(),
                c.os.as_str(),
                c.arch.as_str(),
            ),
        ),
        None => None,
    }
}

fn clone_condition(c: &Option<PluginSetupCondition>) -> (r: Option<PluginSetupCondition>)
    ensures
        r == *c,
{
    match c {
        None => None,
        Some(PluginSetupCondition::FileNotExists { file_not_exists }) => Some(
            PluginSetupCondition::FileNotExists { file_not_exists: file_not_exists.clone() },
        ),
        Some(PluginSetupCondition::FileExists { file_exists }) => Some(
            PluginSetupCondition::FileExists { file_exists: file_exists.clone() },
        ),
        Some(PluginSetupCondition::EnvNotSet { env_not_set }) => Some(
            PluginSetupCondition::EnvNotSet { env_not_set: env_not_set.clone() },
        ),
    }
}

/// The step to run for `step` when its condition held (or it has none), and
/// the position of the next download; `None` and an unchanged position when
/// the condition did not hold. A download that runs takes up one position.
pub fn step_to_run(
    step: &PluginSetupStep,
    c: &SetupContext,
    condition_met: bool,
    download_index: usize,
) -> (r: (Option<PluginSetupStep>, usize))
    requires
        download_index < usize::MAX,
    ensures
        step.if_condition is Some && !condition_met ==> r.0 is None && r.1 == download_index,
        step.if_condition is None || condition_met ==> (r.0 matches Some(s) && resolved_view(s)
            == resolved_step(*step, *c, download_index as nat) && s.sha256 == step.sha256
            && s.archive == step.archive && s.strip_components == step.strip_components
            && s.mode == step.mode && crate::runtime::opt_list_views(s.args)
            == crate::runtime::opt_list_views(step.args) && s.content == step.content),
        step.if_condition is None || condition_met ==> r.1 == (if step.action
            == PluginSetupAction::Download {
            download_index + 1
        } else {
            download_index as int
        }),
{
    if step.if_condition.is_some() && !condition_met {
        return (None, download_index);
    }
    let mut url = expand_field(&step.url, c);
    let mut next = download_index;
    let is_download = match step.action {
        PluginSetupAction::Download => true,
        _ => false,
    };
    if is_download {
        let key = u64_to_decimal(download_index as u64);
        if let Some(o) = find_override(&c.download_url_overrides, key.as_str()) {
            url = Some(o);
        }
        next = download_index + 1;
    }
    let resolved = PluginSetupStep {
        action: step.action,
        url,
        source: expand_field(&step.source, c),
        dest: expand_field(&step.dest, c),
        archive_format: clone_opt_string(&step.archive_format),
        strip_components: step.strip_components,
        mode: clone_opt_string(&step.mode),
        args: match &step.args {
            Some(a) => Some(clone_strings(a)),
            None => None,
        },
        content: clone_opt_string(&step.content),
        sha256: clone_opt_string(&step.sha256),
        archive: clone_opt_string(&step.archive),
        if_condition: clone_condition(&step.if_condition),
        symlink_target: expand_field(&step.symlink_target, c),
    };
    (Some(resolved), next)
}

/// The file operation a lifecycle step stands for.
#[derive(Debug, PartialEq, Eq)]
pub enum SetupOperation {
    /// Fetch `url`; check the bytes against `sha256` when given; with an
    /// `archive` format, write them to `dest`, unpack them into
    /// `extract_dir` dropping `strip` leading components, and delete `dest`;
    /// otherwise write them to `dest`.
    Download {
        url: String,
        dest: String,
        sha256: Option<String>,
        archive: Option<String>,
        extract_dir: String,
        strip: u32,
    },
    /// Unpack `archive` (format told by its name) into `dest_dir`.
    Extract { archive: String, dest_dir: String, strip: u32 },
    /// Rename `from` to `to`, creating the parent of `to`.
    Move { from: String, to: String },
    /// Copy `from` to `to`, creating the parent of `to`.
    Copy { from: String, to: String },
    /// Create the link `link` pointing at `target`.
    Symlink { link: String, target: String },
    /// Set the permission bits of `path` to `mode`.
    Chmod { path: String, mode: u32 },
    /// Create `dir` and its parents.
    Mkdir { dir: String },
    /// Delete `path` (a directory with its contents) when it exists.
    Remove { path: String },
    /// Create or empty `path`.
    Touch { path: String },
    /// Write `content` to `path`.
    WriteFile { path: String, content: String },
    /// Run `program` (which must exist; made executable when it is not) with
    /// `args` in `cwd`.
    Run { program: String, args: Vec<String>, cwd: String },
}

/// The source of a step: an absolute one as is, a relative one under
/// `work_dir`.
pub open spec fn step_source(step: PluginSetupStep, work_dir: Seq<char>) -> Option<Seq<char>> {
    match step.source {
        Some(s) => Some(if is_absolute_path(s@) {
            s@
        } else {
            path_join(work_dir, s@)
        }),
        None => None,
    }
}

/// The destination of a step, under `pkg_dir`.
pub open spec fn step_dest(step: PluginSetupStep, pkg_dir: Seq<char>) -> Option<Seq<char>> {
    match step.dest {
        Some(d) => Some(path_join(pkg_dir, d@)),
        None => None,
    }
}

/// The octal digits `0` to `7`.
pub open spec fn is_octal_digit(c: char) -> bool {
    48 <= (c as u32) && (c as u32) <= 55
}

pub open spec fn octal_value(s: Seq<char>) -> nat
    decreases s.len(),
{
    if s.len() == 0 {
        0
    } else {
        octal_value(s.drop_last()) * 8 + ((s.last() as u32) - 48) as nat
    }
}

/// `u32::from_str_radix(s, 8)`: an optional `+`, then at least one octal
/// digit, the value fitting in 32 bits.
/// The digits of an octal number: without a leading `+`.
pub open spec fn octal_body(s: Seq<char>) -> Seq<char> {
    if s.len() > 0 && s[0] == '+' {
        s.drop_first()
    } else {
        s
    }
}

pub open spec fn parse_octal(s: Seq<char>) -> Option<u32> {
    let t = octal_body(s);
    if t.len() > 0 && (forall|i: int| 0 <= i < t.len() ==> is_octal_digit(#[trigger] t[i]))
        && octal_value(t) <= u32::MAX {
        Some(octal_value(t) as u32)
    } else {
        None
    }
}

proof fn lemma_parse_octal_none(s: Seq<char>, k: int)
    requires
        0 <= k < octal_body(s).len(),
        !is_octal_digit(octal_body(s)[k]) || octal_value(octal_body(s).take(k + 1)) > u32::MAX,
    ensures
        parse_octal(s) is None,
{
    let t = octal_body(s);
    if forall|j: int| 0 <= j < t.len() ==> is_octal_digit(#[trigger] t[j]) {
        assert(is_octal_digit(t[k]));
        lemma_octal_value_grows(t, k + 1);
    }
}

proof fn lemma_octal_value_grows(t: Seq<char>, i: int)
    requires
        0 <= i <= t.len(),
        forall|k: int| 0 <= k < t.len() ==> is_octal_digit(#[trigger] t[k]),
    ensures
        octal_value(t.take(i)) <= octal_value(t),
    decreases t.len() - i,
{
    if i < t.len() {
        lemma_octal_value_grows(t, i + 1);
        assert(t.take(i + 1).drop_last() =~= t.take(i));
    } else {
        assert(t.take(i) =~= t);
    }
}

/// Parses a permission mode written in octal.
pub fn parse_octal_mode(s: &str) -> (r: Option<u32>)
    ensures
        r == parse_octal(s@),
{
    let v = crate::text::chars_of(s);
    let start: usize = if v.len() > 0 && v[0] == '+' {
        1
    } else {
        0
    };
    let ghost t = octal_body(s@);
    proof {
        assert(t =~= v@.subrange(start as int, v@.len() as int));
    }
    if start == v.len() {
        return None;
    }
    let mut value: u64 = 0;
    let mut i: usize = start;
    while i < v.len()
        invariant
            start <= i <= v.len(),
            v@ == s@,
            t == v@.subrange(start as int, v@.len() as int),
            t == octal_body(s@),
            value == octal_value(t.take(i - start)),
            value <= u32::MAX,
            forall|k: int| 0 <= k < i - start ==> is_octal_digit(#[trigger] t[k]),
        decreases v.len() - i,
    {
        let c = v[i];
        let u = c as u32;
        if u < 48 || u > 55 {
            proof {
                assert(t[i - start] == c);
                assert(!is_octal_digit(t[i - start]));
                lemma_parse_octal_none(s@, i - start);
            }
            return None;
        }
        let next: u64 = value * 8 + (u - 48) as u64;
        proof {
            assert(t.take(i - start + 1).drop_last() =~= t.take(i - start));
            assert(t.take(i - start + 1).last() == c);
        }
        if next > u32::MAX as u64 {
            proof {
                assert(t[i - start] == c);
                assert(octal_value(t.take(i - start + 1)) == next);
                lemma_parse_octal_none(s@, i - start);
            }
            return None;
        }
        value = next;
        i = i + 1;
    }
    proof {
        assert(t.take(t.len() as int) =~= t);
    }
    Some(value as u32)
}

/// The operation a step stands for, or why it cannot run. Relative sources
/// are taken under `work_dir`, destinations under `pkg_dir`.
pub open spec fn setup_operation_error(step: PluginSetupStep, work_dir: Seq<char>, pkg_dir: Seq<char>) -> Option<Seq<char>> {
    let src = step_source(step, work_dir);
    let dst = step_dest(step, pkg_dir);
    match step.action {
        PluginSetupAction::Download => if step.url is None {
            Some("download action requires url"@)
        } else if dst is None {
            Some("download action requires dest"@)
        } else {
            None
        },
        PluginSetupAction::Extract => if src is None {
            Some("extract action requires source"@)
        } else {
            None
        },
        PluginSetupAction::Move => if src is None {
            Some("move action requires source"@)
        } else if dst is None {
            Some("move action requires dest"@)
        } else {
            None
        },
        PluginSetupAction::Copy => if src is None {
            Some("copy action requires source"@)
        } else if dst is None {
            Some("copy action requires dest"@)
        } else {
            None
        },
        PluginSetupAction::Symlink => if dst is None {
            Some("symlink action requires dest"@)
        } else if step.symlink_target is None && step.source is None {
            Some("symlink action requires symlink_target or source"@)
        } else {
            None
        },
        PluginSetupAction::Chmod => if src is None {
            Some("chmod action requires source"@)
        } else if step.mode is None {
            Some("chmod action requires mode"@)
        } else if parse_octal(step.mode->0@) is None {
            Some("invalid mode '"@ + step.mode->0@ + "': must be octal"@)
        } else {
            None
        },
        PluginSetupAction::Mkdir => if dst is None && step.source is None {
            Some("mkdir action requires source or dest"@)
        } else {
            None
        },
        PluginSetupAction::Remove => if dst is None && step.source is None {
            Some("remove action requires source or dest"@)
        } else {
            None
        },
        PluginSetupAction::Touch => if dst is None {
            Some("touch action requires dest"@)
        } else {
            None
        },
        PluginSetupAction::WriteFile => if dst is None {
            Some("write_file action requires dest"@)
        } else {
            None
        },
        PluginSetupAction::Run => if step.source is None {
            Some("run action requires source"@)
        } else {
            None
        },
    }
}

/// The texts of an operation.
pub enum SetupOperationView {
    Download {
        url: Seq<char>,
        dest: Seq<char>,
        sha256: Option<Seq<char>>,
        archive: Option<Seq<char>>,
        extract_dir: Seq<char>,
        strip: u32,
    },
    Extract { archive: Seq<char>, dest_dir: Seq<char>, strip: u32 },
    Move { from: Seq<char>, to: Seq<char> },
    Copy { from: Seq<char>, to: Seq<char> },
    Symlink { link: Seq<char>, target: Seq<char> },
    Chmod { path: Seq<char>, mode: u32 },
    Mkdir { dir: Seq<char> },
    Remove { path: Seq<char> },
    Touch { path: Seq<char> },
    WriteFile { path: Seq<char>, content: Seq<char> },
    Run { program: Seq<char>, args: Seq<Seq<char>>, cwd: Seq<char> },
}

pub open spec fn operation_view(o: SetupOperation) -> SetupOperationView {
    match o {
        SetupOperation::Download { url, dest, sha256, archive, extract_dir, strip } => SetupOperationView::Download {
            url: url@,
            dest: dest@,
            sha256: opt_view(sha256),
            archive: opt_view(archive),
            extract_dir: extract_dir@,
            strip,
        },
        SetupOperation::Extract { archive, dest_dir, strip } => SetupOperationView::Extract {
            archive: archive@,
            dest_dir: dest_dir@,
            strip,
        },
        SetupOperation::Move { from, to } => SetupOperationView::Move { from: from@, to: to@ },
        SetupOperation::Copy { from, to } => SetupOperationView::Copy { from: from@, to: to@ },
        SetupOperation::Symlink { link, target } => SetupOperationView::Symlink {
            link: link@,
            target: target@,
        },
        SetupOperation::Chmod { path, mode } => SetupOperationView::Chmod { path: path@, mode },
        SetupOperation::Mkdir { dir } => SetupOperationView::Mkdir { dir: dir@ },
        SetupOperation::Remove { path } => SetupOperationView::Remove { path: path@ },
        SetupOperation::Touch { path } => SetupOperationView::Touch { path: path@ },
        SetupOperation::WriteFile { path, content } => SetupOperationView::WriteFile {
            path: path@,
            content: content@,
        },
        SetupOperation::Run { program, args, cwd } => SetupOperationView::Run {
            program: program@,
            args: views(args@),
            cwd: cwd@,
        },
    }
}

/// The operation of a step that has everything its action needs.
pub open spec fn setup_operation(step: PluginSetupStep, work_dir: Seq<char>, pkg_dir: Seq<char>, extract_dir: Seq<char>) -> SetupOperationView {
    let src = step_source(step, work_dir);
    let dst = step_dest(step, pkg_dir);
    let strip = match step.strip_components {
        Some(n) => n,
        None => 0,
    };
    match step.action {
        PluginSetupAction::Download => SetupOperationView::Download {
            url: step.url->0@,
            dest: dst->0,
            sha256: opt_view(step.sha256),
            archive: opt_view(step.archive),
            extract_dir,
            strip,
        },
        PluginSetupAction::Extract => SetupOperationView::Extract {
            archive: src->0,
            dest_dir: match dst {
                Some(d) => d,
                None => pkg_dir,
            },
            strip,
        },
        PluginSetupAction::Move => SetupOperationView::Move { from: src->0, to: dst->0 },
        PluginSetupAction::Copy => SetupOperationView::Copy { from: src->0, to: dst->0 },
        PluginSetupAction::Symlink => SetupOperationView::Symlink {
            link: dst->0,
            target: match step.symlink_target {
                Some(t) => t@,
                None => step.source->0@,
            },
        },
        PluginSetupAction::Chmod => SetupOperationView::Chmod {
            path: src->0,
            mode: parse_octal(step.mode->0@)->0,
        },
        PluginSetupAction::Mkdir => SetupOperationView::Mkdir {
            dir: match dst {
                Some(d) => d,
                None => path_join(pkg_dir, step.source->0@),
            },
        },
        PluginSetupAction::Remove => SetupOperationView::Remove {
            path: match dst {
                Some(d) => d,
                None => if is_absolute_path(step.source->0@) {
                    step.source->0@
                } else {
                    path_join(pkg_dir, step.source->0@)
                },
            },
        },
        PluginSetupAction::Touch => SetupOperationView::Touch { path: dst->0 },
        PluginSetupAction::WriteFile => SetupOperationView::WriteFile {
            path: dst->0,
            content: match step.content {
                Some(c) => c@,
                None => ""@,
            },
        },
        PluginSetupAction::Run => SetupOperationView::Run {
            program: path_join(pkg_dir, step.source->0@),
            args: match step.args {
                Some(a) => views(a@),
                None => Seq::empty(),
            },
            cwd: pkg_dir,
        },
    }
}

fn source_of(step: &PluginSetupStep, work_dir: &str) -> (r: Option<String>)
    ensures
        opt_view(r) == step_source(*step, work_dir@),
{
    match &step.source {
        Some(s) => {
            if is_absolute(s.as_str()) {
                Some(s.clone())
            } else {
                Some(join_path(work_dir, s.as_str()))
            }
        },
        None => None,
    }
}

fn dest_of(step: &PluginSetupStep, pkg_dir: &str) -> (r: Option<String>)
    ensures
        opt_view(r) == step_dest(*step, pkg_dir@),
{
    match &step.dest {
        Some(d) => Some(join_path(pkg_dir, d.as_str())),
        None => None,
    }
}

/// The operation a step stands for. `extract_dir` is where a download with
/// an archive format is unpacked: the parent of its destination, or the
/// package directory when the destination has none.
pub fn plan_setup_step(
    step: &PluginSetupStep,
    work_dir: &str,
    pkg_dir: &str,
    extract_dir: &str,
) -> (r: Result<SetupOperation, String>)
    ensures
        setup_operation_error(*step, work_dir@, pkg_dir@) matches Some(e) ==> (r matches Err(m)
            && m@ == e),
        setup_operation_error(*step, work_dir@, pkg_dir@) is None ==> (r matches Ok(o)
            && operation_view(o) == setup_operation(*step, work_dir@, pkg_dir@, extract_dir@)),
{
    let src = source_of(step, work_dir);
    let dst = dest_of(step, pkg_dir);
    let strip = match step.strip_components {
        Some(n) => n,
        None => 0,
    };
    match step.action {
        PluginSetupAction::Download => {
            let url = match &step.url {
                Some(u) => u.clone(),
                None => {
                    return Err(owned("download action requires url"));
                },
            };
            let dest = match dst {
                Some(d) => d,
                None => {
                    return Err(owned("download action requires dest"));
                },
            };
            Ok(
                SetupOperation::Download {
                    url,
                    dest,
                    sha256: clone_opt_string(&step.sha256),
                    archive: clone_opt_string(&step.archive),
                    extract_dir: owned(extract_dir),
                    strip,
                },
            )
        },
        PluginSetupAction::Extract => match src {
            None => Err(owned("extract action requires source")),
            Some(archive) => {
                let dest_dir = match dst {
                    Some(d) => d,
                    None => owned(pkg_dir),
                };
                Ok(SetupOperation::Extract { archive, dest_dir, strip })
            },
        },
        PluginSetupAction::Move => match (src, dst) {
            (None, _) => Err(owned("move action requires source")),
            (Some(_), None) => Err(owned("move action requires dest")),
            (Some(from), Some(to)) => Ok(SetupOperation::Move { from, to }),
        },
        PluginSetupAction::Copy => match (src, dst) {
            (None, _) => Err(owned("copy action requires source")),
            (Some(_), None) => Err(owned("copy action requires dest")),
            (Some(from), Some(to)) => Ok(SetupOperation::Copy { from, to }),
        },
        PluginSetupAction::Symlink => match dst {
            None => Err(owned("symlink action requires dest")),
            Some(link) => {
                let target = match &step.symlink_target {
                    Some(t) => t.clone(),
                    None => match &step.source {
                        Some(s) => s.clone(),
                        None => {
                            return Err(owned("symlink action requires symlink_target or source"));
                        },
                    },
                };
                Ok(SetupOperation::Symlink { link, target })
            },
        },
        PluginSetupAction::Chmod => match src {
            None => Err(owned("chmod action requires source")),
            Some(path) => match &step.mode {
                None => Err(owned("chmod action requires mode")),
                Some(m) => match parse_octal_mode(m.as_str()) {
                    None => Err(concat3("invalid mode '", m.as_str(), "': must be octal")),
                    Some(mode) => Ok(SetupOperation::Chmod { path, mode }),
                },
            },
        },
        PluginSetupAction::Mkdir => match dst {
            Some(dir) => Ok(SetupOperation::Mkdir { dir }),
            None => match &step.source {
                Some(s) => Ok(SetupOperation::Mkdir { dir: join_path(pkg_dir, s.as_str()) }),
                None => Err(owned("mkdir action requires source or dest")),
            },
        },
        PluginSetupAction::Remove => match dst {
            Some(path) => Ok(SetupOperation::Remove { path }),
            None => match &step.source {
                Some(s) => {
                    let path = if is_absolute(s.as_str()) {
                        s.clone()
                    } else {
                        join_path(pkg_dir, s.as_str())
                    };
                    Ok(SetupOperation::Remove { path })
                },
                None => Err(owned("remove action requires source or dest")),
            },
        },
        PluginSetupAction::Touch => match dst {
            None => Err(owned("touch action requires dest")),
            Some(path) => Ok(SetupOperation::Touch { path }),
        },
        PluginSetupAction::WriteFile => match dst {
            None => Err(owned("write_file action requires dest")),
            Some(path) => {
                let content = match &step.content {
                    Some(c) => c.clone(),
                    None => owned(""),
                };
                Ok(SetupOperation::WriteFile { path, content })
            },
        },
        PluginSetupAction::Run => match &step.source {
            None => Err(owned("run action requires source")),
            Some(s) => {
                let program = join_path(pkg_dir, s.as_str());
                let args = crate::runtime::list_or_empty(&step.args);
                Ok(SetupOperation::Run { program, args, cwd: owned(pkg_dir) })
            },
        },
    }
}

/// `command '{program}' failed with exit code {code:?}: {stderr}` with the
/// standard error trimmed, the message of a run step whose program failed.
pub open spec fn run_failure_message(program: Seq<char>, code: Option<i32>, stderr: Seq<char>) -> Seq<char> {
    "command '"@ + program + "' failed with exit code "@ + (match code {
        Some(c) => "Some("@ + signed_decimal(c as int) + ")"@,
        None => "None"@,
    }) + ": "@ + trim_ws(stderr)
}

/// The message for a run step whose program ended unsuccessfully with
/// exit `code` (none when killed by a signal).
pub fn run_failure(program: &str, code: Option<i32>, stderr: &str) -> (r: String)
    ensures
        r@ == run_failure_message(program@, code, stderr@),
{
    let mut m = concat3("command '", program, "' failed with exit code ");
    match code {
        Some(c) => {
            let d = i32_to_decimal(c);
            append_str(&mut m, "Some(");
            append_str(&mut m, d.as_str());
            append_str(&mut m, ")");
        },
        None => append_str(&mut m, "None"),
    }
    append_str(&mut m, ": ");
    let t = trim_ws_str(stderr);
    append_str(&mut m, t.as_str());
    m
}

/// The archive formats a package step can unpack.
#[derive(Debug, Clone, Copy, PartialEq, Eq, Structural)]
pub enum ArchiveKind {
    Zip,
    TarGz,
    Gzip,
}

/// The format told by an archive's name (letters compared without regard
/// to ASCII case, as after `to_lowercase`): `.tar.gz` or `.tgz`, `.zip`,
/// `.gz`.
pub open spec fn archive_kind_of_name(path: Seq<char>) -> Option<ArchiveKind> {
    if has_suffix_ignore_ascii_case(path, ".tar.gz"@) || has_suffix_ignore_ascii_case(path, ".tgz"@) {
        Some(ArchiveKind::TarGz)
    } else if has_suffix_ignore_ascii_case(path, ".zip"@) {
        Some(ArchiveKind::Zip)
    } else if has_suffix_ignore_ascii_case(path, ".gz"@) {
        Some(ArchiveKind::Gzip)
    } else {
        None
    }
}

pub open spec fn archive_kind_name(k: ArchiveKind) -> Seq<char> {
    match k {
        ArchiveKind::Zip => "zip"@,
        ArchiveKind::TarGz => "tar.gz"@,
        ArchiveKind::Gzip => "gzip"@,
    }
}

/// The format name told by an archive's file name.
pub fn detect_archive_format(path: &str) -> (r: Option<&'static str>)
    ensures
        archive_kind_of_name(path@) matches Some(k) ==> (r matches Some(n) && n@ == archive_kind_name(k)),
        archive_kind_of_name(path@) is None ==> r is None,
{
    match detect_archive_kind(path) {
        Some(ArchiveKind::TarGz) => Some("tar.gz"),
        Some(ArchiveKind::Zip) => Some("zip"),
        Some(ArchiveKind::Gzip) => Some("gzip"),
        None => None,
    }
}

pub fn detect_archive_kind(path: &str) -> (r: Option<ArchiveKind>)
    ensures
        r == archive_kind_of_name(path@),
{
    if ends_with_ignore_ascii_case(path, ".tar.gz") || ends_with_ignore_ascii_case(path, ".tgz") {
        Some(ArchiveKind::TarGz)
    } else if ends_with_ignore_ascii_case(path, ".zip") {
        Some(ArchiveKind::Zip)
    } else if ends_with_ignore_ascii_case(path, ".gz") {
        Some(ArchiveKind::Gzip)
    } else {
        None
    }
}

/// The format an archive is unpacked as: the one a download step names
/// (`zip`, `tar.gz` or `tgz`, `gzip`), else the one told by its file name.
pub open spec fn archive_kind_for(format: Option<Seq<char>>, path: Seq<char>) -> Option<ArchiveKind> {
    match format {
        Some(f) => if f == "zip"@ {
            Some(ArchiveKind::Zip)
        } else if f == "tar.gz"@ || f == "tgz"@ {
            Some(ArchiveKind::TarGz)
        } else if f == "gzip"@ {
            Some(ArchiveKind::Gzip)
        } else {
            archive_kind_of_name(path)
        },
        None => archive_kind_of_name(path),
    }
}

/// The format to unpack an archive as, or the refusal of an unknown one.
pub fn choose_archive_kind(format: Option<&str>, path: &str) -> (r: Result<ArchiveKind, String>)
    ensures
        archive_kind_for(
            match format {
                Some(f) => Some(f@),
                None => None,
            },
            path@,
        ) matches Some(k) ==> r == Ok::<ArchiveKind, String>(k),
        archive_kind_for(
            match format {
                Some(f) => Some(f@),
                None => None,
            },
            path@,
        ) is None ==> (r matches Err(e) && e@ == "unsupported archive format: "@ + path@),
{
    let k = match format {
        Some(f) => {
            if str_eq(f, "zip") {
                Some(ArchiveKind::Zip)
            } else if str_eq(f, "tar.gz") || str_eq(f, "tgz") {
                Some(ArchiveKind::TarGz)
            } else if str_eq(f, "gzip") {
                Some(ArchiveKind::Gzip)
            } else {
                detect_archive_kind(path)
            }
        },
        None => detect_archive_kind(path),
    };
    match k {
        Some(k) => Ok(k),
        None => Err(concat2("unsupported archive format: ", path)),
    }
}

/// The components of a path after dropping the first `n`, put back
/// together; `None` when there are not more than `n`.
pub open spec fn strip_components_spec(components: Seq<Seq<char>>, n: nat) -> Option<Seq<char>> {
    if components.len() <= n {
        None
    } else {
        Some(join_all(components.skip(n as int)))
    }
}

/// The path made of `components` in order.
pub open spec fn join_all(components: Seq<Seq<char>>) -> Seq<char>
    decreases components.len(),
{
    if components.len() == 0 {
        Seq::empty()
    } else {
        path_join(join_all(components.drop_last()), components.last())
    }
}

/// Drops the first `n` components of a path given by its components.
pub fn strip_prefix_components(components: &Vec<String>, n: u32) -> (r: Option<String>)
    ensures
        opt_view(r) == strip_components_spec(views(components@), n as nat),
{
    if components.len() <= n as usize {
        return None;
    }
    proof {
        reveal_strlit("");
    }
    let mut result = owned("");
    let start = n as usize;
    let mut i: usize = start;
    let ghost rest = views(components@).skip(start as int);
    proof {
        assert(rest.take(0) =~= Seq::<Seq<char>>::empty());
    }
    while i < components.len()
        invariant
            start <= i <= components.len(),
            rest == views(components@).skip(start as int),
            result@ == join_all(rest.take(i - start)),
        decreases components.len() - i,
    {
        result = join_path(result.as_str(), components[i].as_str());
        proof {
            assert(rest.take(i - start + 1).drop_last() =~= rest.take(i - start));
        }
        i = i + 1;
    }
    proof {
        assert(rest.take(rest.len() as int) =~= rest);
    }
    Some(result)
}

/// What preparing a package's runtime reports, given whether the file it
/// runs (`PluginManifest::runtime_artifact`, under the install root) is
/// there: the runtime kind, or why it cannot run.
pub open spec fn prepared_kind(m: PluginManifest, install_root: Seq<char>, artifact_exists: bool) -> Result<
    Seq<char>,
    Seq<char>,
> {
    match m.runtime {
        PluginRuntimeManifest::WasmComponent(w) => if artifact_exists {
            Ok("wasm-component"@)
        } else {
            Err("wasm runtime artifact not found: "@ + path_join(install_root, w.artifact@))
        },
        PluginRuntimeManifest::WasmModule(w) => if artifact_exists {
            Ok("wasm-module"@)
        } else {
            Err("wasm runtime artifact not found: "@ + path_join(install_root, w.artifact@))
        },
        PluginRuntimeManifest::Process(p) => if artifact_exists {
            Ok("process"@)
        } else {
            Err("process runtime program not found: "@ + path_join(install_root, p.program@))
        },
        PluginRuntimeManifest::Docker(d) => if crate::runtime::docker::docker_source(d) is None {
            Err("docker runtime has no image/archive/compose source"@)
        } else {
            Ok("docker"@)
        },
    }
}

fn handle_kind(r: Result<crate::runtime::RuntimeHandle, String>) -> (k: Result<String, String>)
    ensures
        r matches Ok(h) ==> k == Ok::<String, String>(h.runtime_kind),
        r matches Err(e) ==> k == Err::<String, String>(e),
{
    match r {
        Ok(h) => Ok(h.runtime_kind),
        Err(e) => Err(e),
    }
}

/// Prepares a materialised package's runtime and reports its kind.
pub fn validate_prepared_runtime(manifest: &PluginManifest, install_root: &str, artifact_exists: bool) -> (r: Result<
    String,
    String,
>)
    ensures
        match prepared_kind(*manifest, install_root@, artifact_exists) {
            Ok(k) => r matches Ok(s) && s@ == k,
            Err(m) => r matches Err(e) && e@ == m,
        },
{
    match &manifest.runtime {
        PluginRuntimeManifest::WasmComponent(w) => handle_kind(
            crate::runtime::wasm::prepare_wasm_runtime(
                manifest.id.as_str(),
                install_root,
                w,
                "wasm-component",
                artifact_exists,
            ),
        ),
        PluginRuntimeManifest::WasmModule(w) => handle_kind(
            crate::runtime::wasm::prepare_wasm_runtime(
                manifest.id.as_str(),
                install_root,
                w,
                "wasm-module",
                artifact_exists,
            ),
        ),
        PluginRuntimeManifest::Process(p) => handle_kind(
            crate::runtime::process::prepare_process_runtime(
                manifest.id.as_str(),
                install_root,
                p,
                artifact_exists,
            ),
        ),
        PluginRuntimeManifest::Docker(d) => handle_kind(
            crate::runtime::docker::prepare_docker_runtime(manifest.id.as_str(), d),
        ),
    }
}

/// The package files whose presence registration checks, under the
/// install root: the runtime's artifact or program, and a docker
/// runtime's image archive and compose file.
pub struct BasicCheckPaths {
    pub artifact: Option<String>,
    pub oci_archive: Option<String>,
    pub compose_file: Option<String>,
}

fn joined_opt(install_root: &str, rel: &Option<String>) -> (r: Option<String>)
    ensures
        match *rel {
            Some(p) => r matches Some(q) && q@ == path_join(install_root@, p@),
            None => r is None,
        },
{
    match rel {
        Some(p) => Some(join_path(install_root, p.as_str())),
        None => None,
    }
}

pub fn basic_check_paths(manifest: &PluginManifest, install_root: &str) -> (r: BasicCheckPaths)
    ensures
        match manifest.runtime {
            PluginRuntimeManifest::WasmComponent(w) => (r.artifact matches Some(a) && a@ == path_join(
                install_root@,
                w.artifact@,
            )) && r.oci_archive is None && r.compose_file is None,
            PluginRuntimeManifest::WasmModule(w) => (r.artifact matches Some(a) && a@ == path_join(
                install_root@,
                w.artifact@,
            )) && r.oci_archive is None && r.compose_file is None,
            PluginRuntimeManifest::Process(p) => (r.artifact matches Some(a) && a@ == path_join(
                install_root@,
                p.program@,
            )) && r.oci_archive is None && r.compose_file is None,
            PluginRuntimeManifest::Docker(d) => r.artifact is None && (match d.oci_archive {
                Some(o) => r.oci_archive matches Some(q) && q@ == path_join(install_root@, o@),
                None => r.oci_archive is None,
            }) && (match d.compose_file {
                Some(c) => r.compose_file matches Some(q) && q@ == path_join(install_root@, c@),
                None => r.compose_file is None,
            }),
        },
{
    match &manifest.runtime {
        PluginRuntimeManifest::WasmComponent(w) => BasicCheckPaths {
            artifact: Some(join_path(install_root, w.artifact.as_str())),
            oci_archive: None,
            compose_file: None,
        },
        PluginRuntimeManifest::WasmModule(w) => BasicCheckPaths {
            artifact: Some(join_path(install_root, w.artifact.as_str())),
            oci_archive: None,
            compose_file: None,
        },
        PluginRuntimeManifest::Process(p) => BasicCheckPaths {
            artifact: Some(join_path(install_root, p.program.as_str())),
            oci_archive: None,
            compose_file: None,
        },
        PluginRuntimeManifest::Docker(d) => BasicCheckPaths {
            artifact: None,
            oci_archive: joined_opt(install_root, &d.oci_archive),
            compose_file: joined_opt(install_root, &d.compose_file),
        },
    }
}

/// The checks registration makes before anything is recorded, given which
/// of the `basic_check_paths` files exist: the runtime's file must be in the
/// package; a docker runtime must name an image, archive or compose file,
/// and the archive and compose file it names must be in the package.
pub open spec fn basic_check(m: PluginManifest, artifact_exists: bool, oci_archive_exists: bool, compose_file_exists: bool) -> Result<
    (),
    Seq<char>,
> {
    match m.runtime {
        PluginRuntimeManifest::WasmComponent(w) => if artifact_exists {
            Ok(())
        } else {
            Err("wasm artifact '"@ + w.artifact@ + "' not found in package"@)
        },
        PluginRuntimeManifest::WasmModule(w) => if artifact_exists {
            Ok(())
        } else {
            Err("wasm artifact '"@ + w.artifact@ + "' not found in package"@)
        },
        PluginRuntimeManifest::Process(p) => if artifact_exists {
            Ok(())
        } else {
            Err("process program '"@ + p.program@ + "' not found in package"@)
        },
        PluginRuntimeManifest::Docker(d) => if d.image is None && d.oci_archive is None
            && d.compose_file is None {
            Err("docker runtime must specify image, oci_archive, or compose_file"@)
        } else if d.oci_archive is Some && !oci_archive_exists {
            Err("docker oci_archive '"@ + d.oci_archive->0@ + "' not found in package"@)
        } else if d.compose_file is Some && !compose_file_exists {
            Err("docker compose_file '"@ + d.compose_file->0@ + "' not found in package"@)
        } else {
            Ok(())
        },
    }
}

pub fn validate_prepared_runtime_basic(
    manifest: &PluginManifest,
    artifact_exists: bool,
    oci_archive_exists: bool,
    compose_file_exists: bool,
) -> (r: Result<(), String>)
    ensures
        match basic_check(*manifest, artifact_exists, oci_archive_exists, compose_file_exists) {
            Ok(_) => r is Ok,
            Err(m) => r matches Err(e) && e@ == m,
        },
{
    match &manifest.runtime {
        PluginRuntimeManifest::WasmComponent(w) => {
            if !artifact_exists {
                return Err(concat3("wasm artifact '", w.artifact.as_str(), "' not found in package"));
            }
        },
        PluginRuntimeManifest::WasmModule(w) => {
            if !artifact_exists {
                return Err(concat3("wasm artifact '", w.artifact.as_str(), "' not found in package"));
            }
        },
        PluginRuntimeManifest::Process(p) => {
            if !artifact_exists {
                return Err(concat3("process program '", p.program.as_str(), "' not found in package"));
            }
        },
        PluginRuntimeManifest::Docker(d) => {
            if d.image.is_none() && d.oci_archive.is_none() && d.compose_file.is_none() {
                return Err(owned("docker runtime must specify image, oci_archive, or compose_file"));
            }
            if let Some(a) = &d.oci_archive {
                if !oci_archive_exists {
                    return Err(concat3("docker oci_archive '", a.as_str(), "' not found in package"));
                }
            }
            if let Some(c) = &d.compose_file {
                if !compose_file_exists {
                    return Err(concat3("docker compose_file '", c.as_str(), "' not found in package"));
                }
            }
        },
    }
    Ok(())
}

/// What registering a package records, once its bytes hashed to
/// `checksum_sha256`: where it is unpacked, its pending version row, the
/// permission grants it starts with (none granted), the audit entry, and
/// the answer to the request.
pub struct RegistrationPlan {
    pub package_dir: String,
    pub version_record: crate::registry::PluginVersionRecord,
    pub grants: Vec<PluginPermissionGrantItem>,
    pub audit: crate::registry::AuditEntry,
    pub result: InstallPluginResult,
}

pub fn plan_registration(
    manifest: &PluginManifest,
    checksum_sha256: &str,
    packages_root: &str,
    options: &InstallPluginOptions,
) -> (r: Result<RegistrationPlan, String>)
    ensures
        (match manifest.checksum_sha256 {
            Some(c) => c@ != checksum_sha256@,
            None => false,
        }) ==> (r matches Err(e) && e@
            == "plugin package checksum does not match manifest checksum_sha256"@),
        (match manifest.checksum_sha256 {
            Some(c) => c@ == checksum_sha256@,
            None => true,
        }) ==> (r matches Ok(p) && {
            let dir = path_join(path_join(packages_root@, manifest.id@), manifest.version@);
            &&& p.package_dir@ == dir
            &&& p.version_record.plugin_id@ == manifest.id@
            &&& p.version_record.version@ == manifest.version@
            &&& p.version_record.package_path@ == dir
            &&& (p.version_record.checksum_sha256 matches Some(c) && c@ == checksum_sha256@)
            &&& p.version_record.install_status@ == "pending"@
            &&& !p.version_record.installed
            &&& grant_items(p.grants@) == Seq::new(
                manifest.permissions@.len(),
                |i: int| (crate::manifest::permission_key(manifest.permissions@[i]), false),
            )
            &&& p.audit.plugin_id@ == manifest.id@
            &&& p.audit.action@ == "register"@
            &&& p.audit.message@ == crate::registry::audit_message(
                crate::registry::AuditAction::Register,
                manifest.id@,
                manifest.version@,
            )
            &&& opt_view(p.audit.actor_user_id) == opt_view(options.actor_user_id)
            &&& p.result.plugin_id@ == manifest.id@
            &&& p.result.version@ == manifest.version@
            &&& p.result.package_dir@ == dir
            &&& p.result.checksum_sha256@ == checksum_sha256@
            &&& p.result.prepared_runtime_kind@ == crate::manifest::runtime_kind_str(
                crate::manifest::manifest_kind(*manifest),
            )
        }),
{
    match check_package_checksum(manifest, checksum_sha256) {
        Err(e) => return Err(e),
        Ok(_) => {},
    }
    let dir = package_dir(packages_root, manifest.id.as_str(), manifest.version.as_str());
    let version_record = crate::registry::pending_version_record(
        manifest.id.as_str(),
        manifest.version.as_str(),
        dir.as_str(),
        checksum_sha256,
    );
    let grants = build_default_permission_grants(&manifest.permissions);
    let audit = crate::registry::audit_entry(
        crate::registry::AuditAction::Register,
        manifest.id.as_str(),
        manifest.version.as_str(),
        &options.actor_user_id,
    );
    let kind = manifest.runtime_kind();
    let result = InstallPluginResult {
        plugin_id: manifest.id.clone(),
        version: manifest.version.clone(),
        package_dir: dir.clone(),
        checksum_sha256: owned(checksum_sha256),
        prepared_runtime_kind: owned(kind.as_kebab_str()),
    };
    Ok(RegistrationPlan { package_dir: dir, version_record, grants, audit, result })
}

/// The directory of the version a materialisation replaces: the plugin's
/// previous version, when there was one and it differs. Its upgrade
/// commands run and its directory is removed.
pub fn replaced_version_dir(packages_root: &str, plugin_id: &str, previous: &Option<String>, version: &str) -> (r: Option<
    String,
>)
    ensures
        match *previous {
            Some(old) => if old@ != version@ {
                r matches Some(d) && d@ == path_join(path_join(packages_root@, plugin_id@), old@)
            } else {
                r is None
            },
            None => r is None,
        },
{
    match previous {
        Some(old) => {
            if str_eq(old.as_str(), version) {
                None
            } else {
                Some(package_dir(packages_root, plugin_id, old.as_str()))
            }
        },
        None => None,
    }
}

/// The answer to a materialisation: no checksum is reported, the runtime
/// kind is the one its preparation gave.
pub fn materialize_result(packages_root: &str, plugin_id: &str, version: &str, prepared_kind: String) -> (r:
    InstallPluginResult)
    ensures
        r.plugin_id@ == plugin_id@,
        r.version@ == version@,
        r.package_dir@ == path_join(path_join(packages_root@, plugin_id@), version@),
        r.checksum_sha256@ == Seq::<char>::empty(),
        r.prepared_runtime_kind == prepared_kind,
{
    proof {
        reveal_strlit("");
    }
    InstallPluginResult {
        plugin_id: owned(plugin_id),
        version: owned(version),
        package_dir: package_dir(packages_root, plugin_id, version),
        checksum_sha256: owned(""),
        prepared_runtime_kind: prepared_kind,
    }
}

/// The conditions a step can carry: `file_exists` holds exactly when its
/// probe finds the path; `file_not_exists` and `env_not_set` are negative
/// conditions, which hold exactly when their probe finds nothing (the path
/// is missing, the variable is unset), so they never agree with a positive
/// condition on the same probe result.
pub proof fn lemma_negative_conditions_hold_when_nothing_is_found(p: String, v: String, found: bool)
    ensures
        condition_holds_spec(PluginSetupCondition::FileExists { file_exists: p }, found) == found,
        condition_holds_spec(PluginSetupCondition::FileNotExists { file_not_exists: p }, found) == !found,
        condition_holds_spec(PluginSetupCondition::EnvNotSet { env_not_set: v }, found) == !found,
        condition_holds_spec(PluginSetupCondition::EnvNotSet { env_not_set: v }, found)
            != condition_holds_spec(PluginSetupCondition::FileExists { file_exists: p }, found),
        condition_holds_spec(PluginSetupCondition::EnvNotSet { env_not_set: v }, found)
            == condition_holds_spec(PluginSetupCondition::FileNotExists { file_not_exists: p }, found),
{
}

} // verus!
