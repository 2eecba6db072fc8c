//! Reading plugin packages, which are zip archives: the manifest text at
//! the package root, and the file operations that unpack a package into
//! its directory, with the permissions each unpacked file gets.
use crate::installer::{strip_components_spec, strip_prefix_components};
use crate::paths::{has_parent_dir, is_absolute_path, join_path, path_components, path_file_name, path_file_stem, path_join, path_parent, std_path_components, std_path_file_name, std_path_file_stem, std_path_parent};
use crate::text::{append_str, concat2, concat3, ends_with_str, has_suffix, u64_to_decimal, decimal};
use vstd::prelude::*;

verus! {

/// `std::io::Cursor`, the in-memory reader a package is read through.
#[verifier::external_type_specification]
#[verifier::external_body]
#[verifier::reject_recursive_types(T)]
pub struct ExCursor<T>(std::io::Cursor<T>);

/// `zip::ZipArchive`, an opened package.
#[verifier::external_type_specification]
#[verifier::external_body]
#[verifier::reject_recursive_types(R)]
pub struct ExZipArchive<R>(zip::ZipArchive<R>);

/// What `ZipArchive::new` reads from a package's bytes: for each entry, in
/// the archive's order, its name, its unix mode, and what reading it gives:
/// `None` when the entry cannot be opened (`by_index` fails), `Some(None)`
/// when it opens but its data cannot be read back, `Some(Some(d))` for its
/// contents `d`; `None` when the bytes are not an archive.
pub uninterp spec fn zip_listing(bytes: Seq<u8>) -> Option<Seq<(Seq<char>, Option<u32>, Option<Option<Seq<u8>>>)>>;

/// The entries an opened package holds, as `zip_listing` describes them.
pub uninterp spec fn zip_contents(a: zip::ZipArchive<std::io::Cursor<Vec<u8>>>) -> Seq<(Seq<char>, Option<u32>, Option<Option<Seq<u8>>>)>;

/// The text `Read::read_to_string` makes of an entry's contents: `None`
/// when they are not UTF-8.
pub uninterp spec fn utf8_text(bytes: Seq<u8>) -> Option<Seq<char>>;

/// No two entries of a listing have the same name (the archive keeps its
/// entries in a map keyed by name).
pub open spec fn names_distinct(es: Seq<(Seq<char>, Option<u32>, Option<Option<Seq<u8>>>)>) -> bool {
    forall|i: int, j: int| 0 <= i < es.len() && 0 <= j < es.len() && i != j ==> #[trigger] es[i].0 != #[trigger] es[j].0
}

/// What `ZipFile::enclosed_name` makes of an entry name: the name as a
/// relative path that does not climb above its root, or `None`.
pub uninterp spec fn zip_enclosed_name(name: Seq<char>) -> Option<Seq<char>>;

/// `ZipArchive::new` over a copy of the package bytes; the error as text.
#[verifier::external_body]
fn open_archive(bytes: &[u8]) -> (r: Result<zip::ZipArchive<std::io::Cursor<Vec<u8>>>, String>)
    ensures
        r is Ok <==> zip_listing(bytes@) is Some,
        r matches Ok(a) ==> zip_listing(bytes@) == Some(zip_contents(a)),
        r matches Ok(a) ==> names_distinct(zip_contents(a)),
{
    zip::ZipArchive::new(std::io::Cursor::new(bytes.to_vec())).map_err(|e| e.to_string())
}

/// `ZipArchive::len`: the number of entries.
#[verifier::external_body]
fn archive_len(a: &zip::ZipArchive<std::io::Cursor<Vec<u8>>>) -> (r: usize)
    ensures
        r == zip_contents(*a).len(),
{
    a.len()
}

/// `ZipArchive::by_index`, with the entry it gives turned into plain
/// values: its name (`ZipFile::name`), its unix mode (`ZipFile::unix_mode`),
/// its enclosed name (`ZipFile::enclosed_name`) and its contents
/// (`Read::read_to_end`, or the error reading them). It fails exactly for
/// an entry that cannot be opened; the archive's entries stay as they were.
#[verifier::external_body]
fn archive_entry(a: &mut zip::ZipArchive<std::io::Cursor<Vec<u8>>>, i: usize) -> (r: Result<
    (String, Option<u32>, Option<String>, Result<Vec<u8>, String>),
    String,
>)
    requires
        i < zip_contents(*old(a)).len(),
    ensures
        zip_contents(*final(a)) == zip_contents(*old(a)),
        r is Err <==> zip_contents(*old(a))[i as int].2 is None,
        r matches Ok(e) ==> ({
            let m = zip_contents(*old(a))[i as int];
            &&& e.0@ == m.0
            &&& e.1 == m.1
            &&& crate::manifest::opt_view(e.2) == zip_enclosed_name(m.0)
            &&& match m.2 {
                Some(Some(d)) => e.3 matches Ok(x) && x@ == d,
                _ => e.3 is Err,
            }
        }),
{
    let mut f = a.by_index(i).map_err(|e| e.to_string())?;
    let name = f.name().to_string();
    let mode = f.unix_mode();
    let enclosed = f.enclosed_name().map(|p| p.to_string_lossy().to_string());
    let mut buf = Vec::new();
    let data = match std::io::Read::read_to_end(&mut f, &mut buf) {
        Ok(_) => Ok(buf),
        Err(e) => Err(e.to_string()),
    };
    Ok((name, mode, enclosed, data))
}

/// `ZipArchive::by_name`, with the entry it gives read as text
/// (`Read::read_to_string`, or the error reading it). It fails when no
/// entry has that name or the entry cannot be opened; readable contents
/// that are UTF-8 come back as text, anything else read as an error.
#[verifier::external_body]
fn archive_text_named(a: &mut zip::ZipArchive<std::io::Cursor<Vec<u8>>>, name: &str) -> (r: Result<
    Result<String, String>,
    String,
>)
    ensures
        zip_contents(*final(a)) == zip_contents(*old(a)),
        (forall|i: int| 0 <= i < zip_contents(*old(a)).len() ==> #[trigger] zip_contents(*old(a))[i].0 != name@)
            ==> r is Err,
        forall|i: int|
            0 <= i < zip_contents(*old(a)).len() && #[trigger] zip_contents(*old(a))[i].0 == name@
                ==> match zip_contents(*old(a))[i].2 {
                None => r is Err,
                Some(None) => r matches Ok(Err(_)),
                Some(Some(d)) => match utf8_text(d) {
                    Some(t) => r matches Ok(Ok(s)) && s@ == t,
                    None => r matches Ok(Err(_)),
                },
            },
{
    let mut f = a.by_name(name).map_err(|e| e.to_string())?;
    let mut text = String::new();
    match std::io::Read::read_to_string(&mut f, &mut text) {
        Ok(_) => Ok(Ok(text)),
        Err(e) => Ok(Err(e.to_string())),
    }
}

/// `prefix` begins `s`.
pub open spec fn begins_with(s: Seq<char>, prefix: Seq<char>) -> bool {
    prefix.len() <= s.len() && s.subrange(0, prefix.len() as int) == prefix
}

proof fn lemma_begins_with_concat(p: Seq<char>, q: Seq<char>)
    ensures
        begins_with(p + q, p),
{
    assert((p + q).subrange(0, p.len() as int) =~= p);
}

/// Reads the manifest text at the root of a package: the bytes must be a
/// zip archive, and it must hold a `plugin.json` that opens and whose
/// contents are text.
pub fn read_manifest_text_from_zip_bytes(zip_bytes: &[u8]) -> (r: Result<String, String>)
    ensures
        zip_listing(zip_bytes@) is None ==> (r matches Err(e) && begins_with(
            e@,
            "invalid plugin package: "@,
        )),
        (zip_listing(zip_bytes@) matches Some(es) && forall|i: int|
            0 <= i < es.len() ==> #[trigger] es[i].0 != "plugin.json"@) ==> (r matches Err(e)
            && begins_with(e@, "plugin.json is required in plugin package root: "@)),
        zip_listing(zip_bytes@) matches Some(es) ==> forall|i: int|
            0 <= i < es.len() && #[trigger] es[i].0 == "plugin.json"@ ==> match es[i].2 {
                None => r matches Err(e) && begins_with(
                    e@,
                    "plugin.json is required in plugin package root: "@,
                ),
                Some(None) => r matches Err(e) && begins_with(e@, "failed to read plugin.json: "@),
                Some(Some(d)) => match utf8_text(d) {
                    Some(t) => r matches Ok(s) && s@ == t,
                    None => r matches Err(e) && begins_with(e@, "failed to read plugin.json: "@),
                },
            },
{
    let mut archive = match open_archive(zip_bytes) {
        Ok(a) => a,
        Err(e) => {
            proof {
                lemma_begins_with_concat("invalid plugin package: "@, e@);
            }
            return Err(concat2("invalid plugin package: ", e.as_str()));
        },
    };
    let name = "plugin.json";
    proof {
        reveal_strlit("plugin.json");
    }
    let ghost es = zip_contents(archive);
    assert(zip_listing(zip_bytes@) == Some(es));
    match archive_text_named(&mut archive, name) {
        Err(e) => {
            proof {
                lemma_begins_with_concat("plugin.json is required in plugin package root: "@, e@);
            }
            Err(concat2("plugin.json is required in plugin package root: ", e.as_str()))
        },
        Ok(Err(e)) => {
            proof {
                lemma_begins_with_concat("failed to read plugin.json: "@, e@);
            }
            Err(concat2("failed to read plugin.json: ", e.as_str()))
        },
        Ok(Ok(t)) => Ok(t),
    }
}

/// A zip entry name that stands for a directory: it ends with `/` or `\`.
pub open spec fn is_dir_name(n: Seq<char>) -> bool {
    n.len() > 0 && (n.last() == '/' || n.last() == '\\')
}

/// An entry name that stays inside the package directory.
pub open spec fn entry_safe(n: Seq<char>) -> bool {
    !is_absolute_path(n) && !has_parent_dir(n)
}

/// Why an unsafe entry name is refused.
pub open spec fn unsafe_entry_message(n: Seq<char>) -> Seq<char> {
    if is_absolute_path(n) {
        "zip entry cannot be absolute: "@ + n
    } else {
        "zip entry cannot escape package root: "@ + n
    }
}

/// A file unpacked into a `runtime` directory is made executable, unless it
/// is a wasm module.
pub open spec fn runtime_executable(out: Seq<char>) -> bool {
    &&& std_path_parent(out) matches Some(p) && std_path_file_name(p) == Some("runtime"@)
    &&& std_path_file_name(out) matches Some(n) && !has_suffix(n, ".wasm"@)
}

/// The permissions an unpacked file gets: the entry's unix mode (`0o644`
/// when it has none), with `0o755` added for runtime executables.
pub open spec fn unpacked_mode(out: Seq<char>, mode: Option<u32>) -> u32 {
    let base: u32 = match mode {
        Some(m) => m,
        None => 0o644u32,
    };
    if runtime_executable(out) {
        base | 0o755u32
    } else {
        base
    }
}

/// A file operation of unpacking a package.
#[derive(Debug, Clone, PartialEq, Eq)]
pub enum ExtractOp {
    /// Create the directory `path` (and its parents).
    CreateDir { path: String },
    /// Create `parent` (and its parents) when there is one, write `data` to
    /// `path`, then give it permissions `mode`.
    WriteFile { path: String, parent: Option<String>, data: Vec<u8>, mode: u32 },
    /// As `WriteFile`, leaving the permissions the file is created with.
    WriteFileKeepMode { path: String, parent: Option<String>, data: Vec<u8> },
}

/// `op` unpacks the entry `e` (name, unix mode, contents) under `target`.
pub open spec fn unpacks(op: ExtractOp, target: Seq<char>, e: (Seq<char>, Option<u32>, Option<Option<Seq<u8>>>)) -> bool {
    let out = path_join(target, e.0);
    if is_dir_name(e.0) {
        op matches ExtractOp::CreateDir { path } && path@ == out
    } else {
        &&& op matches ExtractOp::WriteFile { path, parent, data, mode }
        &&& path@ == out
        &&& crate::manifest::opt_view(parent) == std_path_parent(out)
        &&& e.2 == Some(Some(data@))
        &&& mode == unpacked_mode(out, e.1)
    }
}

/// An entry at which unpacking stops: it cannot be opened, its name leaves
/// the package directory, or it is a file whose contents cannot be read.
pub open spec fn blocks_unpacking(e: (Seq<char>, Option<u32>, Option<Option<Seq<u8>>>)) -> bool {
    ||| e.2 is None
    ||| !entry_safe(e.0)
    ||| !is_dir_name(e.0) && e.2 == Some(None::<Seq<u8>>)
}

/// The message unpacking stops with at entry `k`, checked in the order the
/// entry is handled: opening it, then its name, then reading its contents.
pub open spec fn stop_reason(m: Seq<char>, k: nat, e: (Seq<char>, Option<u32>, Option<Option<Seq<u8>>>)) -> bool {
    if e.2 is None {
        begins_with(m, "failed to read zip entry "@ + decimal(k) + ": "@)
    } else if !entry_safe(e.0) {
        m == unsafe_entry_message(e.0)
    } else {
        begins_with(m, "failed to read zip entry '"@ + e.0 + "': "@)
    }
}

/// The file operations that unpack a package, in entry order, up to the
/// first entry that cannot be unpacked, and why unpacking stopped there.
pub struct ZipExtraction {
    pub ops: Vec<ExtractOp>,
    pub error: Option<String>,
}

fn is_dir_entry(name: &str) -> (r: bool)
    ensures
        r == is_dir_name(name@),
{
    proof {
        reveal_strlit("/");
        reveal_strlit("\\");
        assert("/"@ =~= seq!['/']);
        assert("\\"@ =~= seq!['\\']);
        if name@.len() > 0 {
            assert(name@.subrange(name@.len() - 1, name@.len() as int) =~= seq![name@.last()]);
        }
    }
    let a = ends_with_str(name, "/");
    let b = ends_with_str(name, "\\");
    proof {
        if a {
            assert(name@.subrange(name@.len() - 1, name@.len() as int)[0] == '/');
        }
        if b {
            assert(name@.subrange(name@.len() - 1, name@.len() as int)[0] == '\\');
        }
    }
    a || b
}

fn unpacked_file_mode(out: &str, mode: Option<u32>) -> (r: u32)
    ensures
        r == unpacked_mode(out@, mode),
{
    let mut m: u32 = match mode {
        Some(x) => x,
        None => 0o644,
    };
    let in_runtime = match path_parent(out) {
        Some(p) => match path_file_name(p.as_str()) {
            Some(n) => crate::text::str_eq(n.as_str(), "runtime"),
            None => false,
        },
        None => false,
    };
    let not_wasm = match path_file_name(out) {
        Some(n) => !ends_with_str(n.as_str(), ".wasm"),
        None => false,
    };
    if in_runtime && not_wasm {
        m = m | 0o755;
    }
    m
}

/// Plans the unpacking of a package's bytes into `target_dir`: the bytes
/// must be a zip archive; each entry then becomes a directory or a written
/// file under `target_dir`, in order, until one cannot be unpacked.
pub fn plan_plugin_zip_extraction(zip_bytes: &[u8], target_dir: &str) -> (r: Result<ZipExtraction, String>)
    ensures
        zip_listing(zip_bytes@) is None ==> (r matches Err(e) && begins_with(
            e@,
            "invalid plugin package: "@,
        )),
        zip_listing(zip_bytes@) matches Some(es) ==> (r matches Ok(x) && {
            &&& x.ops@.len() <= es.len()
            &&& forall|k: int|
                0 <= k < x.ops@.len() ==> !blocks_unpacking(es[k]) && unpacks(
                    #[trigger] x.ops@[k],
                    target_dir@,
                    es[k],
                )
            &&& x.error is None ==> x.ops@.len() == es.len()
            &&& x.error matches Some(m) ==> x.ops@.len() < es.len() && blocks_unpacking(
                es[x.ops@.len() as int],
            ) && stop_reason(m@, x.ops@.len(), es[x.ops@.len() as int])
            // A package whose entries all open, have safe names and readable
            // contents is unpacked in full, one operation per entry.
            &&& (forall|k: int| 0 <= k < es.len() ==> !blocks_unpacking(#[trigger] es[k]))
                ==> x.error is None && x.ops@.len() == es.len()
        }),
{
    let mut archive = match open_archive(zip_bytes) {
        Ok(a) => a,
        Err(e) => {
            proof {
                lemma_begins_with_concat("invalid plugin package: "@, e@);
            }
            return Err(concat2("invalid plugin package: ", e.as_str()));
        },
    };
    let ghost es = zip_contents(archive);
    let n = archive_len(&archive);
    let mut ops: Vec<ExtractOp> = Vec::new();
    let mut i: usize = 0;
    while i < n
        invariant
            i <= n,
            n == es.len(),
            zip_contents(archive) == es,
            zip_listing(zip_bytes@) == Some(es),
            ops@.len() == i,
            forall|k: int| 0 <= k < i ==> !blocks_unpacking(#[trigger] es[k]),
            forall|k: int| 0 <= k < i ==> unpacks(#[trigger] ops@[k], target_dir@, es[k]),
        decreases n - i,
    {
        let entry = match archive_entry(&mut archive, i) {
            Ok(e) => e,
            Err(e) => {
                let idx = u64_to_decimal(i as u64);
                let mut m = concat3("failed to read zip entry ", idx.as_str(), ": ");
                append_str(&mut m, e.as_str());
                proof {
                    lemma_begins_with_concat("failed to read zip entry "@ + decimal(i as nat) + ": "@, e@);
                    assert(m@ =~= "failed to read zip entry "@ + decimal(i as nat) + ": "@ + e@);
                    assert(stop_reason(m@, ops@.len(), es[ops@.len() as int]));
                }
                return Ok(ZipExtraction { ops, error: Some(m) });
            },
        };
        let (name, mode, _enclosed, data) = entry;
        proof {
            assert(name@ == es[i as int].0);
            assert(mode == es[i as int].1);
        }
        let out = match crate::installer::safe_join(target_dir, name.as_str()) {
            Ok(p) => p,
            Err(e) => {
                proof {
                    assert(!entry_safe(es[i as int].0));
                    assert(e@ == unsafe_entry_message(es[i as int].0));
                    assert(stop_reason(e@, ops@.len(), es[ops@.len() as int]));
                }
                return Ok(ZipExtraction { ops, error: Some(e) });
            },
        };
        if is_dir_entry(name.as_str()) {
            ops.push(ExtractOp::CreateDir { path: out });
        } else {
            let bytes = match data {
                Ok(d) => d,
                Err(e) => {
                    let mut m = concat3("failed to read zip entry '", name.as_str(), "': ");
                    append_str(&mut m, e.as_str());
                    proof {
                        lemma_begins_with_concat("failed to read zip entry '"@ + name@ + "': "@, e@);
                        assert(m@ =~= "failed to read zip entry '"@ + name@ + "': "@ + e@);
                        assert(stop_reason(m@, ops@.len(), es[ops@.len() as int]));
                    }
                    return Ok(ZipExtraction { ops, error: Some(m) });
                },
            };
            let parent = path_parent(out.as_str());
            let file_mode = unpacked_file_mode(out.as_str(), mode);
            ops.push(ExtractOp::WriteFile { path: out, parent, data: bytes, mode: file_mode });
        }
        i = i + 1;
    }
    Ok(ZipExtraction { ops, error: None })
}

/// The path an unpacking operation writes.
pub open spec fn op_path(op: ExtractOp) -> Seq<char> {
    match op {
        ExtractOp::CreateDir { path } => path@,
        ExtractOp::WriteFile { path, .. } => path@,
        ExtractOp::WriteFileKeepMode { path, .. } => path@,
    }
}

/// Whatever an unpacking plan creates or writes lies under the directory
/// the package is unpacked into: its path begins with that directory.
pub proof fn lemma_unpacked_paths_stay_inside(
    target: Seq<char>,
    e: (Seq<char>, Option<u32>, Option<Option<Seq<u8>>>),
    op: ExtractOp,
)
    requires
        entry_safe(e.0),
        unpacks(op, target, e),
    ensures
        begins_with(op_path(op), target),
{
    let n = e.0;
    if target.len() == 0 {
        assert(begins_with(op_path(op), target)) by {
            assert(op_path(op).subrange(0, 0) =~= target);
        }
    } else if target.last() == '/' {
        lemma_begins_with_concat(target, n);
    } else {
        lemma_begins_with_concat(target, seq!['/'] + n);
        assert(target + seq!['/'] + n =~= target + (seq!['/'] + n));
    }
}

/// Where an archive entry is unpacked under `dest` when the first `strip`
/// components of its path are dropped: nowhere when it has no enclosed name
/// or no more than `strip` components.
pub open spec fn stripped_target(dest: Seq<char>, name: Seq<char>, strip: nat) -> Option<Seq<char>> {
    match zip_enclosed_name(name) {
        None => None,
        Some(p) => if strip == 0 {
            Some(path_join(dest, p))
        } else {
            match strip_components_spec(std_path_components(p), strip) {
                Some(q) => Some(path_join(dest, q)),
                None => None,
            }
        },
    }
}

/// `op` unpacks entry `e` to `out`: a directory entry is created, a file is
/// written with its contents and given its unix mode when it has one.
pub open spec fn strip_unpacks(op: ExtractOp, out: Seq<char>, e: (Seq<char>, Option<u32>, Option<Option<Seq<u8>>>)) -> bool {
    if is_dir_name(e.0) {
        op matches ExtractOp::CreateDir { path } && path@ == out
    } else {
        match e.1 {
            Some(m) => {
                &&& op matches ExtractOp::WriteFile { path, parent, data, mode }
                &&& path@ == out
                &&& crate::manifest::opt_view(parent) == std_path_parent(out)
                &&& e.2 == Some(Some(data@))
                &&& mode == m
            },
            None => {
                &&& op matches ExtractOp::WriteFileKeepMode { path, parent, data }
                &&& path@ == out
                &&& crate::manifest::opt_view(parent) == std_path_parent(out)
                &&& e.2 == Some(Some(data@))
            },
        }
    }
}

/// An entry at which stripped unpacking stops: it cannot be opened, or it
/// is a file that is not skipped and whose contents cannot be read.
pub open spec fn blocks_strip(dest: Seq<char>, strip: nat, e: (Seq<char>, Option<u32>, Option<Option<Seq<u8>>>)) -> bool {
    ||| e.2 is None
    ||| stripped_target(dest, e.0, strip) is Some && !is_dir_name(e.0) && e.2 == Some(None::<Seq<u8>>)
}

/// The plan for unpacking an archive with stripped paths: per entry, in
/// order, its operation or `None` when it is skipped, up to the entry that
/// could not be read, and the error there.
#[derive(Debug)]
pub struct ZipStripExtraction {
    pub steps: Vec<Option<ExtractOp>>,
    pub error: Option<String>,
}

/// Plans unpacking a zip archive (named `archive_label` in messages) into
/// `dest_dir`, dropping the first `strip` components of each entry's path.
/// Entries without an enclosed name, or with no more than `strip`
/// components, are skipped.
pub fn plan_zip_extraction_with_strip(zip_bytes: &[u8], archive_label: &str, dest_dir: &str, strip: u32) -> (r: Result<
    ZipStripExtraction,
    String,
>)
    ensures
        zip_listing(zip_bytes@) is None ==> (r matches Err(e) && begins_with(
            e@,
            "invalid zip '"@ + archive_label@ + "': "@,
        )),
        zip_listing(zip_bytes@) matches Some(es) ==> (r matches Ok(x) && {
            &&& x.steps@.len() <= es.len()
            &&& forall|k: int|
                0 <= k < x.steps@.len() ==> !blocks_strip(dest_dir@, strip as nat, es[k]) && match stripped_target(dest_dir@, es[k].0, strip as nat) {
                    None => (#[trigger] x.steps@[k]) is None,
                    Some(out) => x.steps@[k] matches Some(op) && strip_unpacks(op, out, es[k]),
                }
            &&& x.error is None ==> x.steps@.len() == es.len()
            &&& x.error matches Some(m) ==> {
                let k = x.steps@.len();
                &&& k < es.len()
                &&& blocks_strip(dest_dir@, strip as nat, es[k as int])
                &&& if es[k as int].2 is None {
                    begins_with(m@, "failed to read zip entry "@ + decimal(k) + ": "@)
                } else {
                    begins_with(m@, "failed to read zip entry '"@ + es[k as int].0 + "': "@)
                }
            }
            &&& (forall|k: int| 0 <= k < es.len() ==> !blocks_strip(dest_dir@, strip as nat, #[trigger] es[k]))
                ==> x.error is None && x.steps@.len() == es.len()
        }),
{
    let mut archive = match open_archive(zip_bytes) {
        Ok(a) => a,
        Err(e) => {
            let mut m = concat3("invalid zip '", archive_label, "': ");
            append_str(&mut m, e.as_str());
            proof {
                lemma_begins_with_concat("invalid zip '"@ + archive_label@ + "': "@, e@);
            }
            return Err(m);
        },
    };
    let ghost es = zip_contents(archive);
    let n = archive_len(&archive);
    let mut steps: Vec<Option<ExtractOp>> = Vec::new();
    let mut i: usize = 0;
    while i < n
        invariant
            i <= n,
            n == es.len(),
            zip_contents(archive) == es,
            zip_listing(zip_bytes@) == Some(es),
            steps@.len() == i,
            forall|k: int|
                0 <= k < i ==> !blocks_strip(dest_dir@, strip as nat, es[k]) && match stripped_target(dest_dir@, es[k].0, strip as nat) {
                    None => (#[trigger] steps@[k]) is None,
                    Some(out) => steps@[k] matches Some(op) && strip_unpacks(op, out, es[k]),
                },
        decreases n - i,
    {
        let entry = match archive_entry(&mut archive, i) {
            Ok(e) => e,
            Err(e) => {
                let idx = u64_to_decimal(i as u64);
                let mut m = concat3("failed to read zip entry ", idx.as_str(), ": ");
                append_str(&mut m, e.as_str());
                proof {
                    lemma_begins_with_concat("failed to read zip entry "@ + decimal(i as nat) + ": "@, e@);
                    assert(m@ =~= "failed to read zip entry "@ + decimal(i as nat) + ": "@ + e@);
                }
                return Ok(ZipStripExtraction { steps, error: Some(m) });
            },
        };
        let (name, mode, enclosed, data) = entry;
        let target: Option<String> = match enclosed {
            None => None,
            Some(p) => if strip == 0 {
                Some(join_path(dest_dir, p.as_str()))
            } else {
                let comps = path_components(p.as_str());
                match strip_prefix_components(&comps, strip) {
                    Some(q) => Some(join_path(dest_dir, q.as_str())),
                    None => None,
                }
            },
        };
        proof {
            assert(crate::manifest::opt_view(target) == stripped_target(dest_dir@, es[i as int].0, strip as nat));
        }
        match target {
            None => {
                steps.push(None);
            },
            Some(out) => {
                if is_dir_entry(name.as_str()) {
                    steps.push(Some(ExtractOp::CreateDir { path: out }));
                } else {
                    let bytes = match data {
                        Ok(d) => d,
                        Err(e) => {
                            let mut m = concat3("failed to read zip entry '", name.as_str(), "': ");
                            append_str(&mut m, e.as_str());
                            proof {
                                lemma_begins_with_concat("failed to read zip entry '"@ + name@ + "': "@, e@);
                                assert(m@ =~= "failed to read zip entry '"@ + name@ + "': "@ + e@);
                            }
                            return Ok(ZipStripExtraction { steps, error: Some(m) });
                        },
                    };
                    let parent = path_parent(out.as_str());
                    let op = match mode {
                        Some(m) => ExtractOp::WriteFile { path: out, parent, data: bytes, mode: m },
                        None => ExtractOp::WriteFileKeepMode { path: out, parent, data: bytes },
                    };
                    steps.push(Some(op));
                }
            },
        }
        i = i + 1;
    }
    Ok(ZipStripExtraction { steps, error: None })
}

/// What reading a gzip-compressed tar archive from `bytes` gives: the path
/// of each entry (`Entry::path`, as text) in order, up to the first failure,
/// and that failure when there is one — its kind (`0`: the entries cannot
/// be listed, `1`: an entry cannot be read, `2`: an entry's path cannot be
/// read) and the error as text.
pub uninterp spec fn tar_gz_listing(bytes: Seq<u8>) -> (Seq<Seq<char>>, Option<(u8, Seq<char>)>);

/// `tar::Archive::entries` over `flate2::read::GzDecoder`, each entry's
/// `path` as text; the listing is named.
#[verifier::external_body]
fn tar_gz_entries(bytes: &[u8]) -> (r: (Vec<String>, Option<(u8, String)>))
    ensures
        tar_gz_listing(bytes@) == (crate::runtime::views(r.0@), match r.1 {
            Some(f) => Some((f.0, f.1@)),
            None => None,
        }),
{
    let mut names: Vec<String> = Vec::new();
    let mut archive = tar::Archive::new(flate2::read::GzDecoder::new(bytes));
    let entries = match archive.entries() { Ok(e) => e, Err(e) => return (names, Some((0, e.to_string()))) };
    for entry in entries {
        let entry = match entry { Ok(x) => x, Err(e) => return (names, Some((1, e.to_string()))) };
        match entry.path() { Ok(p) => names.push(p.to_string_lossy().to_string()), Err(e) => return (names, Some((2, e.to_string()))) }
    }
    (names, None)
}

/// Where a tar entry with path `name` is unpacked under `dest` when the
/// first `strip` components are dropped; nowhere when it has no more than
/// `strip` components.
pub open spec fn tar_target(dest: Seq<char>, name: Seq<char>, strip: nat) -> Option<Seq<char>> {
    if strip == 0 {
        Some(path_join(dest, name))
    } else {
        match strip_components_spec(std_path_components(name), strip) {
            Some(q) => Some(path_join(dest, q)),
            None => None,
        }
    }
}

/// The message for a failure reading a tar archive.
pub open spec fn tar_failure_message(label: Seq<char>, kind: u8, e: Seq<char>) -> Seq<char> {
    if kind == 0 {
        "failed to read tar entries from '"@ + label + "': "@ + e
    } else if kind == 1 {
        "failed to read tar entry: "@ + e
    } else {
        "failed to read tar entry path: "@ + e
    }
}

/// Where each entry of a gzip-compressed tar archive (named `archive_label`
/// in messages) is unpacked under `dest_dir` with `strip` leading components
/// dropped (`None`: skipped), in order, up to the entry that could not be
/// read, and the error there.
pub struct TarGzTargets {
    pub targets: Vec<Option<String>>,
    pub error: Option<String>,
}

pub fn plan_tar_gz_targets(bytes: &[u8], archive_label: &str, dest_dir: &str, strip: u32) -> (r: TarGzTargets)
    ensures
        r.targets@.len() == tar_gz_listing(bytes@).0.len(),
        forall|k: int|
            0 <= k < r.targets@.len() ==> crate::manifest::opt_view(#[trigger] r.targets@[k]) == tar_target(
                dest_dir@,
                tar_gz_listing(bytes@).0[k],
                strip as nat,
            ),
        match tar_gz_listing(bytes@).1 {
            None => r.error is None,
            Some(f) => r.error matches Some(m) && m@ == tar_failure_message(archive_label@, f.0, f.1),
        },
{
    let (names, failure) = tar_gz_entries(bytes);
    let mut targets: Vec<Option<String>> = Vec::new();
    let mut i: usize = 0;
    while i < names.len()
        invariant
            i <= names.len(),
            targets@.len() == i,
            forall|k: int|
                0 <= k < i ==> crate::manifest::opt_view(#[trigger] targets@[k]) == tar_target(
                    dest_dir@,
                    names@[k]@,
                    strip as nat,
                ),
        decreases names.len() - i,
    {
        let name = names[i].as_str();
        let t = if strip == 0 {
            Some(join_path(dest_dir, name))
        } else {
            let comps = path_components(name);
            match strip_prefix_components(&comps, strip) {
                Some(q) => Some(join_path(dest_dir, q.as_str())),
                None => None,
            }
        };
        targets.push(t);
        i = i + 1;
    }
    proof {
        assert forall|k: int| 0 <= k < targets@.len() implies crate::manifest::opt_view(#[trigger] targets@[k])
            == tar_target(dest_dir@, tar_gz_listing(bytes@).0[k], strip as nat) by {
            assert(crate::runtime::views(names@)[k] == names@[k]@);
        }
    }
    let error = match failure {
        None => None,
        Some((kind, e)) => {
            let m = if kind == 0 {
                let mut m = concat3("failed to read tar entries from '", archive_label, "': ");
                append_str(&mut m, e.as_str());
                m
            } else if kind == 1 {
                concat2("failed to read tar entry: ", e.as_str())
            } else {
                concat2("failed to read tar entry path: ", e.as_str())
            };
            Some(m)
        },
    };
    TarGzTargets { targets, error }
}

/// What `flate2::read::GzDecoder` decompresses `bytes` to, or its error as
/// text.
pub uninterp spec fn gunzipped(bytes: Seq<u8>) -> Result<Seq<u8>, Seq<char>>;

/// `GzDecoder` read to the end; the result is named.
#[verifier::external_body]
fn gunzip(bytes: &[u8]) -> (r: Result<Vec<u8>, String>)
    ensures
        match r {
            Ok(v) => gunzipped(bytes@) == Ok::<Seq<u8>, Seq<char>>(v@),
            Err(e) => gunzipped(bytes@) == Err::<Seq<u8>, Seq<char>>(e@),
        },
{
    let mut out: Vec<u8> = Vec::new();
    match std::io::Read::read_to_end(&mut flate2::read::GzDecoder::new(bytes), &mut out) {
        Ok(_) => Ok(out),
        Err(e) => Err(e.to_string()),
    }
}

/// The single file a gzip-compressed archive at `archive_path` unpacks to:
/// `dest_dir` joined with the archive's file stem, holding the decompressed
/// bytes.
pub fn plan_gzip_single(archive_path: &str, dest_dir: &str, bytes: &[u8]) -> (r: Result<(String, Vec<u8>), String>)
    ensures
        std_path_file_stem(archive_path@) is None ==> (r matches Err(e) && e@
            == "cannot determine output name for '"@ + archive_path@ + "'"@),
        std_path_file_stem(archive_path@) matches Some(s) ==> match gunzipped(bytes@) {
            Ok(d) => r matches Ok(p) && p.0@ == path_join(dest_dir@, s) && p.1@ == d,
            Err(e) => r matches Err(m) && m@ == "failed to decompress '"@ + archive_path@ + "': "@ + e,
        },
{
    let stem = match path_file_stem(archive_path) {
        Some(s) => s,
        None => {
            return Err(concat3("cannot determine output name for '", archive_path, "'"));
        },
    };
    match gunzip(bytes) {
        Ok(d) => Ok((join_path(dest_dir, stem.as_str()), d)),
        Err(e) => {
            let mut m = concat3("failed to decompress '", archive_path, "': ");
            append_str(&mut m, e.as_str());
            Err(m)
        },
    }
}

} // verus!
