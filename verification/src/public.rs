//! The public routes a plugin is reached by: which UI asset a request
//! resolves to, which request headers are passed on to the plugin, who the
//! caller is forwarded as, and how the runtime's target address is made up.
use crate::paths::{contains_parent_dir, has_parent_dir, is_absolute, is_absolute_path, join_path, path_extension, path_join, std_path_extension};
use crate::digest::{hex_lower, hmac_sha256_hex, hmac_sha256_spec, constant_time_eq};
use crate::manifest::opt_view;
use vstd::utf8::encode_utf8;
use crate::text::{append_str, chars_of, concat2, concat3, has_prefix, i32_to_decimal, is_blank, is_blank_str, owned, signed_decimal, str_eq, starts_with_str, string_of, strip_trailing, trim_char, trim_char_str, trim_end_char_str, trim_ws, trim_ws_str};
use vstd::prelude::*;

verus! {

/// Where `name` lies under `base`; refused, as "invalid relative path:
/// {name}", when it is absolute or climbs out through `..`.
pub fn safe_join(base: &str, name: &str) -> (r: Result<String, String>)
    ensures
        (is_absolute_path(name@) || has_parent_dir(name@)) ==> (r matches Err(e) && e@
            == "invalid relative path: "@ + name@),
        !(is_absolute_path(name@) || has_parent_dir(name@)) ==> (r matches Ok(p) && p@ == path_join(
            base@,
            name@,
        )),
{
    if is_absolute(name) || contains_parent_dir(name) {
        return Err(concat2("invalid relative path: ", name));
    }
    Ok(join_path(base, name))
}

/// The hop-by-hop and framing headers that are not passed on to a plugin.
pub open spec fn hop_header(name: Seq<char>) -> bool {
    ||| name == "connection"@
    ||| name == "content-length"@
    ||| name == "host"@
    ||| name == "keep-alive"@
    ||| name == "proxy-authenticate"@
    ||| name == "proxy-authorization"@
    ||| name == "te"@
    ||| name == "trailer"@
    ||| name == "transfer-encoding"@
    ||| name == "upgrade"@
}

/// Whether a request header, by its (lower-case) name, is passed on.
pub fn should_forward_request_header(name: &str) -> (r: bool)
    ensures
        r == !hop_header(name@),
{
    let hop = str_eq(name, "connection") || str_eq(name, "content-length") || str_eq(name, "host")
        || str_eq(name, "keep-alive") || str_eq(name, "proxy-authenticate") || str_eq(
        name,
        "proxy-authorization",
    ) || str_eq(name, "te") || str_eq(name, "trailer") || str_eq(name, "transfer-encoding")
        || str_eq(name, "upgrade");
    !hop
}

/// A path whose extension (as `Path::extension` reads it) is `html` or
/// `htm`.
pub open spec fn html_like(value: Seq<char>) -> bool {
    std_path_extension(value) matches Some(e) && (e == "html"@ || e == "htm"@)
}

pub fn is_html_like_path(value: &str) -> (r: bool)
    ensures
        r == html_like(value@),
{
    match path_extension(value) {
        Some(ext) => str_eq(ext.as_str(), "html") || str_eq(ext.as_str(), "htm"),
        None => false,
    }
}

/// The page a UI bundle opens on: `index.html` for an empty root, the root
/// itself when it names an HTML file, else `index.html` inside it.
pub open spec fn ui_entry(ui_root: Seq<char>) -> Seq<char> {
    let trimmed = trim_char(ui_root, '/');
    if trimmed.len() == 0 {
        "index.html"@
    } else if html_like(trimmed) {
        trimmed
    } else {
        strip_trailing(trimmed, '/') + "/index.html"@
    }
}

pub fn ui_entry_relative_path(ui_root: &str) -> (r: String)
    ensures
        r@ == ui_entry(ui_root@),
{
    let trimmed = trim_char_str(ui_root, '/');
    let n = chars_of(trimmed.as_str());
    if n.len() == 0 {
        return owned("index.html");
    }
    if is_html_like_path(trimmed.as_str()) {
        return trimmed;
    }
    let base = trim_end_char_str(trimmed.as_str(), '/');
    concat2(base.as_str(), "/index.html")
}

/// The bundle file a UI request asks for: the entry page for an empty
/// path; the path itself when the root is empty or an HTML file; else the
/// path inside the root.
pub open spec fn ui_requested(ui_root: Seq<char>, path: Seq<char>) -> Seq<char> {
    let requested = trim_char(path, '/');
    let trimmed_root = trim_char(ui_root, '/');
    if requested.len() == 0 {
        ui_entry(ui_root)
    } else if trimmed_root.len() == 0 || html_like(trimmed_root) {
        requested
    } else {
        strip_trailing(trimmed_root, '/') + "/"@ + requested
    }
}

pub fn ui_requested_relative_path(ui_root: &str, path: &str) -> (r: String)
    ensures
        r@ == ui_requested(ui_root@, path@),
{
    let requested = trim_char_str(path, '/');
    if chars_of(requested.as_str()).len() == 0 {
        return ui_entry_relative_path(ui_root);
    }
    let trimmed_root = trim_char_str(ui_root, '/');
    if chars_of(trimmed_root.as_str()).len() == 0 || is_html_like_path(trimmed_root.as_str()) {
        return requested;
    }
    let base = trim_end_char_str(trimmed_root.as_str(), '/');
    concat3(base.as_str(), "/", requested.as_str())
}

/// The two files a UI request may be served from, under `{install}/ui`:
/// the entry page and the requested file (served when it exists).
pub fn ui_asset_paths(install_root: &str, ui_root: &str, path: &str) -> (r: Result<(String, String), String>)
    ensures
        ({
            let root = path_join(install_root@, "ui"@);
            let entry = ui_entry(ui_root@);
            let requested = ui_requested(ui_root@, path@);
            if is_absolute_path(entry) || has_parent_dir(entry) {
                r matches Err(e) && e@ == "invalid relative path: "@ + entry
            } else if is_absolute_path(requested) || has_parent_dir(requested) {
                r matches Err(e) && e@ == "invalid relative path: "@ + requested
            } else {
                r matches Ok(p) && p.0@ == path_join(root, entry) && p.1@ == path_join(root, requested)
            }
        }),
{
    let root = join_path(install_root, "ui");
    let entry_relative = ui_entry_relative_path(ui_root);
    let requested_relative = ui_requested_relative_path(ui_root, path);
    let entry_file = match safe_join(root.as_str(), entry_relative.as_str()) {
        Ok(p) => p,
        Err(e) => return Err(e),
    };
    let candidate = match safe_join(root.as_str(), requested_relative.as_str()) {
        Ok(p) => p,
        Err(e) => return Err(e),
    };
    Ok((entry_file, candidate))
}

/// The token of an authorization header that starts with the configured
/// prefix: what follows the prefix, trimmed, if anything is left.
pub open spec fn bearer_token_of(auth_header: Seq<char>, token_prefix: Seq<char>) -> Option<Seq<char>> {
    if !has_prefix(auth_header, token_prefix) {
        None
    } else {
        let token = trim_ws(auth_header.skip(token_prefix.len() as int));
        if token.len() == 0 {
            None
        } else {
            Some(token)
        }
    }
}

fn skip_chars(s: &str, n: usize) -> (r: String)
    requires
        n <= s@.len(),
    ensures
        r@ == s@.skip(n as int),
{
    let v = chars_of(s);
    let mut out: Vec<char> = Vec::new();
    let mut i: usize = n;
    while i < v.len()
        invariant
            n <= i <= v.len(),
            v@ == s@,
            out@ == v@.subrange(n as int, i as int),
        decreases v.len() - i,
    {
        out.push(v[i]);
        i = i + 1;
        proof {
            assert(out@ =~= v@.subrange(n as int, i as int));
        }
    }
    proof {
        assert(v@.subrange(n as int, v@.len() as int) =~= s@.skip(n as int));
    }
    string_of(&out)
}

pub fn bearer_token(auth_header: &str, token_prefix: &str) -> (r: Option<String>)
    ensures
        match bearer_token_of(auth_header@, token_prefix@) {
            Some(t) => r matches Some(s) && s@ == t,
            None => r is None,
        },
{
    if !starts_with_str(auth_header, token_prefix) {
        return None;
    }
    let n = chars_of(token_prefix).len();
    let rest = skip_chars(auth_header, n);
    let token = trim_ws_str(rest.as_str());
    if chars_of(token.as_str()).len() == 0 {
        return None;
    }
    Some(token)
}

/// The caller a request is forwarded as, read from verified token claims:
/// only an access token names one.
pub fn forwarded_user_from_claims(typ: &str, sub: &str, role_id: i16, username: &str) -> (r: Option<
    (String, i16, Option<String>),
>)
    ensures
        typ@ == "access"@ ==> (r matches Some(u) && u.0@ == sub@ && u.1 == role_id && (u.2 matches Some(
            n,
        ) && n@ == username@)),
        typ@ != "access"@ ==> r is None,
{
    if !str_eq(typ, "access") {
        return None;
    }
    Some((owned(sub), role_id, Some(owned(username))))
}

/// The websocket scheme for a runtime address: secure when the address is.
pub fn websocket_scheme(scheme: &str) -> (r: &'static str)
    ensures
        (scheme@ == "https"@ || scheme@ == "wss"@) ==> r@ == "wss"@,
        !(scheme@ == "https"@ || scheme@ == "wss"@) ==> r@ == "ws"@,
{
    if str_eq(scheme, "https") || str_eq(scheme, "wss") {
        "wss"
    } else {
        "ws"
    }
}

/// The segment being read is closed: kept when it is not empty.
pub open spec fn close_segment(cur: Seq<char>) -> Seq<Seq<char>> {
    if cur.len() > 0 {
        seq![cur]
    } else {
        Seq::empty()
    }
}

/// The non-empty pieces of `rest` between `/` separators, the first one
/// continuing `cur`.
pub open spec fn segments_from(rest: Seq<char>, cur: Seq<char>) -> Seq<Seq<char>>
    decreases rest.len(),
{
    if rest.len() == 0 {
        close_segment(cur)
    } else if rest[0] == '/' {
        close_segment(cur) + segments_from(rest.drop_first(), Seq::empty())
    } else {
        segments_from(rest.drop_first(), cur.push(rest[0]))
    }
}

/// `path.split('/').filter(|s| !s.is_empty())`.
pub open spec fn path_segments(path: Seq<char>) -> Seq<Seq<char>> {
    segments_from(path, Seq::empty())
}

/// The path segments appended to a runtime's base address: the prefix
/// (`api` or `ws`) when there is one, then the non-empty segments of the
/// requested path.
pub open spec fn target_segments(prefix: Seq<char>, path: Seq<char>) -> Seq<Seq<char>> {
    if prefix.len() > 0 {
        seq![prefix] + path_segments(path)
    } else {
        path_segments(path)
    }
}

pub fn runtime_target_segments(prefix: &str, path: &str) -> (r: Vec<String>)
    ensures
        crate::runtime::views(r@) == target_segments(prefix@, path@),
{
    let mut out: Vec<String> = Vec::new();
    if chars_of(prefix).len() > 0 {
        let p = owned(prefix);
        out.push(p);
        proof {
            crate::runtime::lemma_views_push(Seq::empty(), p);
            assert(out@ =~= Seq::<String>::empty().push(p));
        }
    }
    let ghost start = crate::runtime::views(out@);
    let v = chars_of(path);
    let mut cur: Vec<char> = Vec::new();
    let mut i: usize = 0;
    proof {
        assert(v@.skip(0) =~= v@);
    }
    while i < v.len()
        invariant
            i <= v.len(),
            v@ == path@,
            start == (if prefix@.len() > 0 { seq![prefix@] } else { Seq::<Seq<char>>::empty() }),
            crate::runtime::views(out@) + segments_from(v@.skip(i as int), cur@) == start
                + path_segments(path@),
        decreases v.len() - i,
    {
        let ghost rest = v@.skip(i as int);
        proof {
            assert(rest.drop_first() =~= v@.skip(i + 1));
        }
        let c = v[i];
        if c == '/' {
            let ghost before = crate::runtime::views(out@);
            let ghost old_out = out@;
            if cur.len() > 0 {
                let seg = string_of(&cur);
                out.push(seg);
                proof {
                    crate::runtime::lemma_views_push(old_out, seg);
                }
            }
            proof {
                assert(crate::runtime::views(out@) =~= before + close_segment(cur@));
                assert(before + close_segment(cur@) + segments_from(v@.skip(i + 1), Seq::empty())
                    =~= before + (close_segment(cur@) + segments_from(v@.skip(i + 1), Seq::empty())));
            }
            cur = Vec::new();
        } else {
            cur.push(c);
        }
        i = i + 1;
    }
    let ghost before = crate::runtime::views(out@);
    let ghost old_out = out@;
    if cur.len() > 0 {
        let seg = string_of(&cur);
        out.push(seg);
        proof {
            crate::runtime::lemma_views_push(old_out, seg);
        }
    }
    proof {
        assert(v@.skip(v@.len() as int) =~= Seq::<char>::empty());
        assert(crate::runtime::views(out@) =~= before + close_segment(cur@));
        assert(path_segments(path@) == segments_from(path@, Seq::empty()));
        if prefix@.len() > 0 {
            assert(start + path_segments(path@) =~= target_segments(prefix@, path@));
        } else {
            assert(start + path_segments(path@) =~= target_segments(prefix@, path@));
        }
    }
    out
}

/// The query passed on to a runtime: none when the request has none.
pub fn runtime_target_query(query: &str) -> (r: Option<String>)
    ensures
        query@.len() == 0 ==> r is None,
        query@.len() > 0 ==> (r matches Some(q) && q@ == query@),
{
    if chars_of(query).len() == 0 {
        None
    } else {
        Some(owned(query))
    }
}

/// The MIME type `mime_guess` gives a file by its extension.
pub uninterp spec fn guessed_content_type(path: Seq<char>) -> Seq<char>;

/// `mime_guess::from_path(..).first_or_octet_stream()`, as text: named;
/// its documentation promises `application/octet-stream` for a path with
/// no extension, and that is claimed too.
#[verifier::external_body]
fn guess_content_type(path: &str) -> (r: String)
    ensures
        r@ == guessed_content_type(path@),
        std_path_extension(path@) is None ==> r@ == "application/octet-stream"@,
{
    mime_guess::from_path(path).first_or_octet_stream().to_string()
}

/// The file a UI request is answered with, and its content type.
#[derive(Debug, Clone, PartialEq, Eq)]
pub struct UiAsset {
    pub path: String,
    pub content_type: String,
}

/// Serving is file first: the requested file when it exists, else the
/// entry page (so client-side routes still load the app).
pub fn select_ui_asset(entry_file: String, candidate: String, candidate_exists: bool) -> (r: UiAsset)
    ensures
        candidate_exists ==> r.path == candidate,
        !candidate_exists ==> r.path == entry_file,
        r.content_type@ == guessed_content_type(r.path@),
{
    let path = if candidate_exists {
        candidate
    } else {
        entry_file
    };
    let content_type = guess_content_type(path.as_str());
    UiAsset { path, content_type }
}

/// The text a user's identity is signed as: `{user_id}:{username}:{role_id}`
/// (an unknown name is empty).
pub open spec fn identity_signing_text(id: Seq<char>, role: Seq<char>, name: Option<Seq<char>>) -> Seq<char> {
    id + ":"@ + (match name {
        Some(n) => n,
        None => Seq::empty(),
    }) + ":"@ + role
}

/// The signature of a user's identity under the host secret: HMAC-SHA256 of
/// its signing text, in lowercase hex.
pub open spec fn identity_signature(secret: Seq<u8>, id: Seq<char>, role: Seq<char>, name: Option<Seq<char>>) -> Seq<char> {
    hex_lower(hmac_sha256_spec(secret, encode_utf8(identity_signing_text(id, role, name))))
}

/// The headers added to a request passed on to a plugin: the caller's
/// authorization (when not blank) as `X-Plugin-Authorization`, and the
/// caller's identity as `X-Plugin-User-ID`, `X-Plugin-User-Role`, when
/// known `X-Plugin-User-Name`, and `X-Plugin-User-Signature`, which signs
/// the identity with the host secret so that a plugin cannot forge it.
pub open spec fn identity_headers(
    secret: Seq<u8>,
    authorization: Option<Seq<char>>,
    user: Option<(Seq<char>, i16, Option<Seq<char>>)>,
) -> Seq<(Seq<char>, Seq<char>)> {
    (match authorization {
        Some(a) => if is_blank(a) {
            Seq::empty()
        } else {
            seq![("X-Plugin-Authorization"@, a)]
        },
        None => Seq::empty(),
    }) + (match user {
        Some((id, role, name)) => seq![
            ("X-Plugin-User-ID"@, id),
            ("X-Plugin-User-Role"@, signed_decimal(role as int)),
        ] + (match name {
            Some(n) => seq![("X-Plugin-User-Name"@, n)],
            None => Seq::empty(),
        }) + seq![("X-Plugin-User-Signature"@, identity_signature(secret, id, signed_decimal(role as int), name))],
        None => Seq::empty(),
    })
}

fn signing_text(id: &str, role: &str, name: Option<&str>) -> (r: String)
    ensures
        r@ == identity_signing_text(
            id@,
            role@,
            match name {
                Some(n) => Some(n@),
                None => None,
            },
        ),
{
    let mut m = concat2(id, ":");
    if let Some(n) = name {
        append_str(&mut m, n);
    }
    append_str(&mut m, ":");
    append_str(&mut m, role);
    proof {
        assert(m@ =~= identity_signing_text(
            id@,
            role@,
            match name {
                Some(n) => Some(n@),
                None => None,
            },
        ));
    }
    m
}

/// The signature header value for a user's identity.
pub fn sign_identity(secret: &[u8], id: &str, role: &str, name: Option<&str>) -> (r: String)
    ensures
        r@ == identity_signature(
            secret@,
            id@,
            role@,
            match name {
                Some(n) => Some(n@),
                None => None,
            },
        ),
{
    let m = signing_text(id, role, name);
    hmac_sha256_hex(secret, m.as_str())
}

pub fn plugin_identity_headers(
    secret: &[u8],
    authorization: Option<&str>,
    user: &Option<(String, i16, Option<String>)>,
) -> (r: Vec<(String, String)>)
    ensures
        crate::runtime::env_views(r@) == identity_headers(
            secret@,
            match authorization {
                Some(a) => Some(a@),
                None => None,
            },
            match *user {
                Some(u) => Some((u.0@, u.1, opt_view(u.2))),
                None => None,
            },
        ),
{
    let mut out: Vec<(String, String)> = Vec::new();
    if let Some(a) = authorization {
        if !is_blank_str(a) {
            out.push((owned("X-Plugin-Authorization"), owned(a)));
        }
    }
    let ghost first = crate::runtime::env_views(out@);
    proof {
        assert(first =~= identity_headers(
            secret@,
            match authorization {
                Some(a) => Some(a@),
                None => None,
            },
            None,
        ));
    }
    if let Some(u) = user {
        let role = i32_to_decimal(u.1 as i32);
        out.push((owned("X-Plugin-User-ID"), u.0.clone()));
        out.push((owned("X-Plugin-User-Role"), role.clone()));
        let name: Option<&str> = match &u.2 {
            Some(n) => {
                out.push((owned("X-Plugin-User-Name"), n.clone()));
                Some(n.as_str())
            },
            None => None,
        };
        let sig = sign_identity(secret, u.0.as_str(), role.as_str(), name);
        out.push((owned("X-Plugin-User-Signature"), sig));
    }
    proof {
        assert(crate::runtime::env_views(out@) =~= identity_headers(
            secret@,
            match authorization {
                Some(a) => Some(a@),
                None => None,
            },
            match *user {
                Some(u) => Some((u.0@, u.1, opt_view(u.2))),
                None => None,
            },
        ));
    }
    out
}

/// The identity a request to the host API carries in its `X-Plugin-User-*`
/// headers (id, role and name as texts), accepted only when its signature
/// is the one the host makes for it; otherwise the request is anonymous.
pub open spec fn verified_identity(
    secret: Seq<u8>,
    id: Option<Seq<char>>,
    role: Option<Seq<char>>,
    name: Option<Seq<char>>,
    signature: Option<Seq<char>>,
) -> Option<(Seq<char>, Seq<char>, Option<Seq<char>>)> {
    match (id, role, signature) {
        (Some(i), Some(r), Some(sig)) => if encode_utf8(sig) == encode_utf8(identity_signature(secret, i, r, name)) {
            Some((i, r, name))
        } else {
            None
        },
        _ => None,
    }
}

/// Checks the identity headers of a host API request: the signature is
/// recomputed and compared in constant time.
pub fn verify_identity(
    secret: &[u8],
    id: Option<&str>,
    role: Option<&str>,
    name: Option<&str>,
    signature: Option<&str>,
) -> (r: Option<(String, String, Option<String>)>)
    ensures
        match r {
            Some(t) => Some((t.0@, t.1@, opt_view(t.2))),
            None => None::<(Seq<char>, Seq<char>, Option<Seq<char>>)>,
        } == verified_identity(
            secret@,
            match id {
                Some(s) => Some(s@),
                None => None,
            },
            match role {
                Some(s) => Some(s@),
                None => None,
            },
            match name {
                Some(s) => Some(s@),
                None => None,
            },
            match signature {
                Some(s) => Some(s@),
                None => None,
            },
        ),
{
    match (id, role, signature) {
        (Some(i), Some(r), Some(g)) => {
            let expected = sign_identity(secret, i, r, name);
            if constant_time_eq(g.as_bytes(), expected.as_str().as_bytes()) {
                let n = match name {
                    Some(n) => Some(owned(n)),
                    None => None,
                };
                Some((owned(i), owned(r), n))
            } else {
                None
            }
        },
        _ => None,
    }
}

/// The signature the gateway puts on a user's identity is accepted by the
/// host API, with the same id, role and name.
pub proof fn lemma_signed_identity_verifies(secret: Seq<u8>, id: Seq<char>, role: i16, name: Option<Seq<char>>)
    ensures
        verified_identity(
            secret,
            Some(id),
            Some(signed_decimal(role as int)),
            name,
            Some(identity_signature(secret, id, signed_decimal(role as int), name)),
        ) == Some((id, signed_decimal(role as int), name)),
{
}

/// What `Url::parse(base)` gives: the URL's scheme, or the parse error as
/// text.
pub uninterp spec fn url_parse_scheme(base: Seq<char>) -> Result<Seq<char>, Seq<char>>;

/// What the url crate makes of the parsed `base` after `pop_if_empty` on
/// its path segments, pushing `segments` and setting the query: the URL as
/// text, or `None` when the base cannot be a base for routing.
pub uninterp spec fn url_routed(base: Seq<char>, segments: Seq<Seq<char>>, query: Option<Seq<char>>) -> Option<Seq<char>>;

/// What `Url::set_scheme(scheme)` makes of the URL `url`: the URL as text,
/// or `None` when the URL does not parse or refuses the scheme.
pub uninterp spec fn url_rescheme(url: Seq<char>, scheme: Seq<char>) -> Option<Seq<char>>;

/// `Url::parse` and `Url::scheme`; the result is named.
#[verifier::external_body]
fn parse_url_scheme(base: &str) -> (r: Result<String, String>)
    ensures
        match r {
            Ok(s) => url_parse_scheme(base@) == Ok::<Seq<char>, Seq<char>>(s@),
            Err(e) => url_parse_scheme(base@) == Err::<Seq<char>, Seq<char>>(e@),
        },
{
    url::Url::parse(base).map(|u| u.scheme().to_string()).map_err(|e| e.to_string())
}

/// `Url::parse`, `path_segments_mut` (`pop_if_empty`, `extend`) and
/// `set_query`, serialised; the result is named.
#[verifier::external_body]
fn route_url(base: &str, segments: &Vec<String>, query: Option<&str>) -> (r: Option<String>)
    requires
        url_parse_scheme(base@) is Ok,
    ensures
        crate::manifest::opt_view(r) == url_routed(
            base@,
            crate::runtime::views(segments@),
            match query {
                Some(q) => Some(q@),
                None => None,
            },
        ),
{
    let mut url = url::Url::parse(base).ok()?;
    url.path_segments_mut().ok()?.pop_if_empty().extend(segments);
    url.set_query(query);
    Some(url.to_string())
}

/// `Url::parse` and `Url::set_scheme`, serialised; the result is named.
#[verifier::external_body]
fn rescheme_url(u: &str, scheme: &str) -> (r: Option<String>)
    ensures
        crate::manifest::opt_view(r) == url_rescheme(u@, scheme@),
{
    let mut url = url::Url::parse(u).ok()?;
    url.set_scheme(scheme).ok()?;
    Some(url.to_string())
}

/// The address a request to a runtime is passed on to, given the runtime's
/// base address: the base's path with the prefix and the requested path's
/// segments pushed, the request's query, and for a websocket the `ws` or
/// `wss` scheme.
pub open spec fn runtime_target_url_spec(
    base: Seq<char>,
    prefix: Seq<char>,
    path: Seq<char>,
    query: Seq<char>,
    websocket: bool,
) -> Result<Seq<char>, Seq<char>> {
    match url_parse_scheme(base) {
        Err(e) => Err("invalid plugin base url: "@ + e),
        Ok(scheme) => match url_routed(
            base,
            target_segments(prefix, path),
            if query.len() == 0 {
                None
            } else {
                Some(query)
            },
        ) {
            None => Err("plugin base url cannot be a base for routing: "@ + base),
            Some(u) => if websocket {
                let ws = if scheme == "https"@ || scheme == "wss"@ {
                    "wss"@
                } else {
                    "ws"@
                };
                match url_rescheme(u, ws) {
                    Some(v) => Ok(v),
                    None => Err("invalid plugin websocket target scheme"@),
                }
            } else {
                Ok(u)
            },
        },
    }
}

pub fn runtime_target_url(base: &str, prefix: &str, path: &str, query: &str, websocket: bool) -> (r: Result<String, String>)
    ensures
        match r {
            Ok(u) => runtime_target_url_spec(base@, prefix@, path@, query@, websocket) == Ok::<
                Seq<char>,
                Seq<char>,
            >(u@),
            Err(e) => runtime_target_url_spec(base@, prefix@, path@, query@, websocket) == Err::<
                Seq<char>,
                Seq<char>,
            >(e@),
        },
{
    let scheme = match parse_url_scheme(base) {
        Ok(s) => s,
        Err(e) => return Err(concat2("invalid plugin base url: ", e.as_str())),
    };
    let segments = runtime_target_segments(prefix, path);
    let q = runtime_target_query(query);
    let qref: Option<&str> = match &q {
        Some(x) => Some(x.as_str()),
        None => None,
    };
    let routed = match route_url(base, &segments, qref) {
        Some(u) => u,
        None => return Err(concat2("plugin base url cannot be a base for routing: ", base)),
    };
    if websocket {
        let ws = websocket_scheme(scheme.as_str());
        match rescheme_url(routed.as_str(), ws) {
            Some(v) => Ok(v),
            None => {
                proof {
                    reveal_strlit("invalid plugin websocket target scheme");
                }
                Err(owned("invalid plugin websocket target scheme"))
            },
        }
    } else {
        Ok(routed)
    }
}

/// The claims of an access token that the gateway reads.
#[derive(Debug, Clone, PartialEq, Eq)]
pub struct AccessClaims {
    pub typ: String,
    pub sub: String,
    pub role_id: i16,
    pub username: String,
}

/// `jsonwebtoken::decode` with an HS256 `Validation` and the secret as key,
/// its claims read as `typ`, `sub`, `role_id` and `username`. Whether a
/// token decodes depends on the clock (its expiry is checked), so nothing
/// is claimed of the outcome.
#[verifier::external_body]
fn decode_access_claims(token: &str, secret: &[u8]) -> (r: Option<AccessClaims>) {
    let data = jsonwebtoken::decode::<serde_json::Value>(
        token,
        &jsonwebtoken::DecodingKey::from_secret(secret),
        &jsonwebtoken::Validation::new(jsonwebtoken::Algorithm::HS256),
    ).ok()?;
    let c = data.claims;
    Some(AccessClaims {
        typ: c.get("typ")?.as_str()?.to_string(),
        sub: c.get("sub")?.as_str()?.to_string(),
        role_id: i16::try_from(c.get("role_id")?.as_i64()?).ok()?,
        username: c.get("username")?.as_str()?.to_string(),
    })
}

/// The caller a request is forwarded as, given what its token decoded to:
/// only a decoded access token names one.
pub fn forwarded_user_from_token(claims: Option<AccessClaims>) -> (r: Option<(String, i16, Option<String>)>)
    ensures
        match claims {
            None => r is None,
            Some(c) => if c.typ@ == "access"@ {
                r matches Some(u) && u.0@ == c.sub@ && u.1 == c.role_id && (u.2 matches Some(n) && n@
                    == c.username@)
            } else {
                r is None
            },
        },
{
    match claims {
        None => None,
        Some(c) => forwarded_user_from_claims(c.typ.as_str(), c.sub.as_str(), c.role_id, c.username.as_str()),
    }
}

/// The caller named by the bearer token of an authorization header: none
/// when the header carries no token under the prefix; otherwise whatever
/// the decoded access token names.
pub fn forwarded_user_from_header(auth_header: &str, token_prefix: &str, secret: &[u8]) -> (r: Option<
    (String, i16, Option<String>),
>)
    ensures
        bearer_token_of(auth_header@, token_prefix@) is None ==> r is None,
        r matches Some(u) ==> u.2 is Some,
{
    let token = match bearer_token(auth_header, token_prefix) {
        Some(t) => t,
        None => return None,
    };
    let claims = decode_access_claims(token.as_str(), secret);
    forwarded_user_from_token(claims)
}

} // verus!
