//! One browser per profile.
//!
//! A second start on a profile hands its addresses to the first and ends. Who
//! owns the profile is decided by a lock; a socket next to it takes the
//! addresses.
use vstd::prelude::*;
use vstd::string::*;
use crate::text;
use crate::text::{chars_of, decimal, join, same_text, string_of, trim};

verus! {

/// Addresses taken from one message.
pub const MAX_FORWARD_URLS: usize = 100;

/// Bytes of one address.
pub const MAX_FORWARD_URL_LEN: usize = 1024;

/// Bytes of one message: the addresses, eight bytes of quoting for each, and
/// some slack.
pub const MAX_FORWARD_LINE_LEN: usize = 107_296;

/// Attempts to reach a browser that may be there.
pub const CONNECT_ATTEMPTS: u32 = 3;

/// Between two of them.
pub const CONNECT_RETRY_DELAY: u64 = 100_000_000;

/// How long a client may keep the accepting side waiting.
pub const ACCEPT_IO_TIMEOUT: u64 = 5_000_000_000;

/// The scheme of an address, as [`url::Url::parse`] and then
/// [`url::Url::scheme`] give it; `None` where the address does not parse.
pub uninterp spec fn url_scheme(url: Seq<char>) -> Option<Seq<char>>;

/// `url::Url::parse` of the address, and `url::Url::scheme` of what it gives.
/// Nothing is claimed of the scheme but that it depends on the address alone.
#[verifier::external_body]
fn parse_scheme(url: &str) -> (r: Option<String>)
    ensures
        match r {
            Some(s) => url_scheme(url@) == Some(s@),
            None => url_scheme(url@) is None,
        },
{
    match url::Url::parse(url) {
        Ok(parsed) => Some(parsed.scheme().to_string()),
        Err(_) => None,
    }
}

/// The SHA-256 digest of some bytes.
pub uninterp spec fn sha256_of(data: Seq<u8>) -> Seq<u8>;

/// `sha2::Sha256::digest`. It depends on the bytes alone and is 32 bytes long.
#[verifier::external_body]
fn sha256(data: &[u8]) -> (r: Vec<u8>)
    ensures
        r@ == sha256_of(data@),
        r@.len() == 32,
{
    <sha2::Sha256 as sha2::Digest>::digest(data).to_vec()
}

/// Some bytes in hexadecimal, two digits each, the high one first.
pub open spec fn hex_text(data: Seq<u8>) -> Seq<char> {
    Seq::new(
        data.len() * 2,
        |i: int|
            if i % 2 == 0 {
                text::hex_digit(data[i / 2] as int / 16)
            } else {
                text::hex_digit(data[i / 2] as int % 16)
            },
    )
}

/// `hex::encode`: two lower-case hexadecimal digits for each byte.
#[verifier::external_body]
fn hex_encode(data: &[u8]) -> (r: String)
    ensures
        r@ == hex_text(data@),
{
    hex::encode(data)
}

/// `String::from_utf8`: the string of these bytes, if they are valid UTF-8.
#[verifier::external_body]
fn utf8_text(bytes: Vec<u8>) -> (r: Option<String>)
    ensures
        r is Some <==> vstd::utf8::valid_utf8(bytes@),
        r matches Some(s) ==> vstd::utf8::encode_utf8(s@) == bytes@,
{
    String::from_utf8(bytes).ok()
}

/// The identifier that a digest gives: its first eight bytes in hexadecimal.
pub fn profile_id_of(digest: &[u8]) -> (r: String)
    requires
        digest@.len() >= 8,
    ensures
        r@ == hex_text(digest@.take(8)),
{
    let mut head: Vec<u8> = Vec::new();
    let mut i: usize = 0;
    while i < 8
        invariant
            i <= 8,
            digest@.len() >= 8,
            head@ == digest@.take(i as int),
        decreases 8 - i,
    {
        head.push(digest[i]);
        proof {
            assert(digest@.take(i as int).push(digest@[i as int]) =~= digest@.take(i as int + 1));
        }
        i = i + 1;
    }
    hex_encode(head.as_slice())
}

/// The identifier of a profile: the first eight bytes of the digest of its
/// cache path, in hexadecimal.
pub fn profile_id_from(cache_path: &str) -> (r: String)
    ensures
        r@ == hex_text(sha256_of(cache_path.spec_bytes()).take(8)),
        r@.len() == 16,
        forall|i: int| 0 <= i < 16 ==> is_hex_digit(#[trigger] r@[i]),
{
    let digest = sha256(cache_path.as_bytes());
    proof {
        law_profile_id_is_sixteen_hex_digits(digest@);
    }
    profile_id_of(digest.as_slice())
}

/// Whether a character is a lower-case hexadecimal digit.
pub open spec fn is_hex_digit(c: char) -> bool {
    '0' <= c <= '9' || 'a' <= c <= 'f'
}

/// Law: eight bytes in hexadecimal are sixteen lower-case hexadecimal digits, so
/// every profile identifier is.
pub proof fn law_profile_id_is_sixteen_hex_digits(digest: Seq<u8>)
    requires
        digest.len() >= 8,
    ensures
        hex_text(digest.take(8)).len() == 16,
        forall|i: int| 0 <= i < 16 ==> is_hex_digit(#[trigger] hex_text(digest.take(8))[i]),
{
    let t = hex_text(digest.take(8));
    assert forall|i: int| 0 <= i < 16 implies is_hex_digit(#[trigger] t[i]) by {
        let b = digest.take(8)[i / 2] as int;
        let d = if i % 2 == 0 { b / 16 } else { b % 16 };
        assert(0 <= d < 16);
        assert(t[i] == text::hex_digit(d));
    }
}

/// The schemes that may be handed over. Scripts and inline data may not.
pub open spec fn forwardable(scheme: Seq<char>) -> bool {
    ||| scheme == "http"@
    ||| scheme == "https"@
    ||| scheme == "file"@
    ||| scheme == "ftp"@
    ||| scheme == "ftps"@
    ||| scheme == "about"@
    ||| scheme == "chrome"@
    ||| scheme == "view-source"@
    ||| scheme == "mailto"@
    ||| scheme == "buffr"@
}

/// Whether a scheme may be handed over.
pub fn scheme_is_forwardable(scheme: &str) -> (r: bool)
    ensures
        r == forwardable(scheme@),
{
    same_text(scheme, "http") || same_text(scheme, "https") || same_text(scheme, "file")
        || same_text(scheme, "ftp") || same_text(scheme, "ftps") || same_text(scheme, "about")
        || same_text(scheme, "chrome") || same_text(scheme, "view-source") || same_text(
        scheme,
        "mailto",
    ) || same_text(scheme, "buffr")
}

/// Whether an address of `len` bytes with this scheme may be handed over.
pub open spec fn forward_allowed(len: usize, scheme: Option<Seq<char>>) -> bool {
    len <= MAX_FORWARD_URL_LEN && (scheme matches Some(s) && forwardable(s))
}

/// Whether an address may be handed over.
pub open spec fn safe_to_forward(url: Seq<char>) -> bool {
    forward_allowed(vstd::utf8::encode_utf8(url).len() as usize, url_scheme(url))
}

/// Whether an address of `len` bytes, whose scheme was found to be `scheme`, may
/// be handed over.
pub fn forward_verdict(len: usize, scheme: &Option<String>) -> (r: bool)
    ensures
        r == forward_allowed(
            len,
            match scheme {
                Some(s) => Some(s@),
                None => None,
            },
        ),
{
    if len > MAX_FORWARD_URL_LEN {
        return false;
    }
    match scheme {
        Some(s) => scheme_is_forwardable(s.as_str()),
        None => false,
    }
}

/// Whether an address may be handed over: it is short enough, it parses, and
/// its scheme is one of those that may.
pub fn is_safe_forward_url(url: &str) -> (r: bool)
    ensures
        r == safe_to_forward(url@),
{
    if url.len() > MAX_FORWARD_URL_LEN {
        return false;
    }
    forward_verdict(url.len(), &parse_scheme(url))
}

/// Law: an address whose scheme is `javascript` or `data`, or that does not
/// parse, is never handed over.
pub proof fn law_scripts_are_never_forwarded(len: usize, scheme: Option<Seq<char>>)
    requires
        scheme is None || scheme == Some("javascript"@) || scheme == Some("data"@),
    ensures
        !forward_allowed(len, scheme),
{
    reveal_strlit("javascript");
    reveal_strlit("data");
    reveal_strlit("http");
    reveal_strlit("https");
    reveal_strlit("file");
    reveal_strlit("ftp");
    reveal_strlit("ftps");
    reveal_strlit("about");
    reveal_strlit("chrome");
    reveal_strlit("view-source");
    reveal_strlit("mailto");
    reveal_strlit("buffr");
    assert("data"@[0] == 'd');
    assert("javascript"@.len() == 10);
}

/// What one start sends to another.
#[derive(Debug)]
pub struct ForwardPayload {
    pub urls: Vec<String>,
}

/// The addresses that may be handed over, in order.
pub open spec fn safe_ones(urls: Seq<Seq<char>>) -> Seq<Seq<char>>
    decreases urls.len(),
{
    if urls.len() == 0 {
        Seq::empty()
    } else {
        let rest = safe_ones(urls.drop_last());
        if safe_to_forward(urls.last()) { rest.push(urls.last()) } else { rest }
    }
}

/// What is taken of a message: of its first [`MAX_FORWARD_URLS`] addresses
/// those that may be handed over.
pub open spec fn gated(urls: Seq<Seq<char>>) -> Seq<Seq<char>> {
    safe_ones(
        if urls.len() <= MAX_FORWARD_URLS { urls } else { urls.take(MAX_FORWARD_URLS as int) },
    )
}

/// Take what may be taken of a message.
pub fn gate_urls(urls: &Vec<String>) -> (r: Vec<String>)
    ensures
        text::texts(r@) == gated(text::texts(urls@)),
{
    let mut out: Vec<String> = Vec::new();
    let ghost all = text::texts(urls@);
    let n: usize = if urls.len() <= MAX_FORWARD_URLS { urls.len() } else { MAX_FORWARD_URLS };
    let mut i: usize = 0;
    proof {
        assert(all.take(0) =~= Seq::empty());
        assert(text::texts(out@) =~= safe_ones(all.take(0)));
    }
    while i < n
        invariant
            i <= n <= urls@.len(),
            all == text::texts(urls@),
            text::texts(out@) == safe_ones(all.take(i as int)),
        decreases n - i,
    {
        proof {
            let t = all.take(i as int + 1);
            assert(t.drop_last() =~= all.take(i as int));
            assert(t.last() == urls@[i as int]@);
        }
        if is_safe_forward_url(urls[i].as_str()) {
            let ghost before = out@;
            let u: String = urls[i].clone();
            out.push(u);
            proof {
                assert(text::texts(out@) =~= text::texts(before).push(urls@[i as int]@));
            }
        }
        i = i + 1;
    }
    proof {
        if urls@.len() <= MAX_FORWARD_URLS {
            assert(all.take(n as int) =~= all);
        }
    }
    out
}

/// Only addresses that may be handed over are, and no more than were sent.
proof fn lemma_safe_ones(urls: Seq<Seq<char>>)
    ensures
        safe_ones(urls).len() <= urls.len(),
        forall|i: int|
            0 <= i < safe_ones(urls).len() ==> safe_to_forward(#[trigger] safe_ones(urls)[i]),
    decreases urls.len(),
{
    if urls.len() > 0 {
        lemma_safe_ones(urls.drop_last());
    }
}

/// Law: a message opens at most [`MAX_FORWARD_URLS`] addresses, and every one of
/// them may be handed over.
pub proof fn law_forwarded_urls_are_few_and_safe(urls: Seq<Seq<char>>)
    ensures
        gated(urls).len() <= MAX_FORWARD_URLS,
        forall|i: int| 0 <= i < gated(urls).len() ==> safe_to_forward(#[trigger] gated(urls)[i]),
{
    lemma_safe_ones(urls);
    lemma_safe_ones(urls.take(MAX_FORWARD_URLS as int));
}

/// Why a directory is not private.
#[derive(Debug, Clone, Copy, PartialEq, Eq, Structural)]
pub enum DirRefusal {
    NotADirectory,
    /// It belongs to another user.
    Owner { owner: u32, uid: u32 },
    /// Others may enter it; its permission bits.
    Accessible { mode: u32 },
}

/// Whether a directory is ours alone, and if not, why.
pub open spec fn dir_verdict(is_dir: bool, owner: u32, uid: u32, mode: u32) -> Result<
    (),
    DirRefusal,
> {
    if !is_dir {
        Err(DirRefusal::NotADirectory)
    } else if owner != uid {
        Err(DirRefusal::Owner { owner, uid })
    } else if mode & 0o077 != 0 {
        Err(DirRefusal::Accessible { mode: mode & 0o7777 })
    } else {
        Ok::<(), DirRefusal>(())
    }
}

/// Whether a directory is ours alone: a real directory, owned by us, without
/// permissions for anyone else. The first test that fails is reported.
pub fn private_dir_verdict(is_dir: bool, owner: u32, uid: u32, mode: u32) -> (r: Result<
    (),
    DirRefusal,
>)
    ensures
        r == dir_verdict(is_dir, owner, uid, mode),
{
    if !is_dir {
        return Err(DirRefusal::NotADirectory);
    }
    if owner != uid {
        return Err(DirRefusal::Owner { owner, uid });
    }
    if mode & 0o077 != 0 {
        return Err(DirRefusal::Accessible { mode: mode & 0o7777 });
    }
    Ok(())
}

/// The directories to try, best first: below the run-time directory, if there
/// is one, then a directory of our own below the temporary one.
pub open spec fn runtime_dirs(xdg: Option<Seq<char>>, temp_dir: Seq<char>, uid: u32) -> Seq<
    Seq<char>,
> {
    let own = text::joined(temp_dir, "buffr-"@ + text::decimal_text(uid as nat));
    match xdg {
        Some(x) => if x.len() == 0 {
            seq![own]
        } else {
            seq![text::joined(x, "buffr"@), own]
        },
        None => seq![own],
    }
}

/// The directories to try for the socket, best first.
pub fn runtime_dir_candidates(xdg: &Option<String>, temp_dir: &str, uid: u32) -> (r: Vec<String>)
    ensures
        text::texts(r@) == runtime_dirs(
            match xdg {
                Some(x) => Some(x@),
                None => None,
            },
            temp_dir@,
            uid,
        ),
{
    let mut name: String = "buffr-".to_owned();
    name.append(decimal(uid as u64).as_str());
    let own = join(temp_dir, name.as_str());
    let mut out: Vec<String> = Vec::new();
    if let Some(x) = xdg {
        if !x.as_str().is_empty() {
            out.push(join(x.as_str(), "buffr"));
        }
    }
    out.push(own);
    proof {
        let want = runtime_dirs(
            match xdg {
                Some(x) => Some(x@),
                None => None,
            },
            temp_dir@,
            uid,
        );
        assert(text::texts(out@).len() == want.len());
        assert(text::texts(out@) =~= want);
    }
    out
}

/// The socket of a profile in a run-time directory.
pub open spec fn socket_text(runtime_dir: Seq<char>, profile_id: Seq<char>) -> Seq<char> {
    text::joined(runtime_dir, "buffr-"@ + profile_id + ".sock"@)
}

/// The socket of a profile in a run-time directory.
pub fn socket_path_for(runtime_dir: &str, profile_id: &str) -> (r: String)
    ensures
        r@ == socket_text(runtime_dir@, profile_id@),
{
    let mut name: String = "buffr-".to_owned();
    name.append(profile_id);
    name.append(".sock");
    join(runtime_dir, name.as_str())
}

/// The name of the named pipe of a profile, where there are no sockets.
pub fn pipe_name_for(profile_id: &str) -> (r: String)
    ensures
        r@ == "\\\\.\\pipe\\buffr-"@ + profile_id@,
{
    let mut name: String = "\\\\.\\pipe\\buffr-".to_owned();
    name.append(profile_id);
    name
}

/// The temporary name a socket is bound to before it is renamed into place.
pub fn bind_name_for(pid: u32) -> (r: String)
    ensures
        r@ == ".buffr-bind-"@ + text::decimal_text(pid as nat) + ".sock"@,
{
    let mut name: String = ".buffr-bind-".to_owned();
    name.append(decimal(pid as u64).as_str());
    name.append(".sock");
    name
}

/// Where the file name of a path begins: after the last slash.
pub open spec fn name_start(path: Seq<char>) -> int
    decreases path.len(),
{
    if path.len() == 0 {
        0
    } else if path.last() == '/' {
        path.len() as int
    } else {
        name_start(path.drop_last())
    }
}

/// Where the extension of a path begins: at the last dot of its file name,
/// unless that is its first character; at its end where there is none.
pub open spec fn stem_end(path: Seq<char>, from: int) -> int
    decreases path.len(),
{
    if path.len() == 0 || path.len() <= from + 1 {
        -1
    } else if path.last() == '.' {
        path.len() - 1
    } else {
        stem_end(path.drop_last(), from)
    }
}

/// A path with its extension, if it has one, replaced.
pub open spec fn with_extension(path: Seq<char>, ext: Seq<char>) -> Seq<char> {
    let e = stem_end(path, name_start(path));
    (if e < 0 { path } else { path.take(e) }).push('.') + ext
}

/// Where the last component of a path ends: slashes and components of a single
/// dot that follow it do not count.
pub open spec fn last_end(path: Seq<char>) -> int
    decreases path.len(),
{
    if path.len() == 0 {
        0
    } else if path.last() == '/' {
        last_end(path.drop_last())
    } else if path.last() == '.' && path.len() > 1 && path[path.len() - 2] == '/' {
        last_end(path.drop_last())
    } else {
        path.len() as int
    }
}

/// Whether the last component of a path, which ends with it, is a name.
pub open spec fn ends_in_name(path: Seq<char>) -> bool {
    let name = path.skip(name_start(path));
    name.len() > 0 && name != "."@ && name != ".."@
}

/// A path whose last component has another extension, and ends with it. A path
/// without a name at its end stays as it is.
pub open spec fn extension_set(path: Seq<char>, ext: Seq<char>) -> Seq<char> {
    let named = path.take(last_end(path));
    if ends_in_name(named) {
        with_extension(named, ext)
    } else {
        path
    }
}

/// A path ends where its last component does, at the latest.
proof fn lemma_last_end(path: Seq<char>)
    ensures
        0 <= last_end(path) <= path.len(),
    decreases path.len(),
{
    if path.len() > 0 {
        lemma_last_end(path.drop_last());
    }
}

/// The path `v[..len]` with another extension.
fn extended(v: &Vec<char>, len: usize) -> (r: String)
    requires
        len <= v@.len(),
        ends_in_name(v@.take(len as int)),
    ensures
        r@ == with_extension(v@.take(len as int), "lock"@),
{
    let ghost p = v@.take(len as int);
    let mut start: usize = len;
    proof {
        assert(p.take(len as int) =~= p);
    }
    while start > 0 && v[start - 1] != '/'
        invariant
            start <= len <= v@.len(),
            p == v@.take(len as int),
            name_start(p.take(start as int)) == name_start(p),
        decreases start,
    {
        proof {
            assert(p.take(start as int).drop_last() =~= p.take(start - 1));
        }
        start = start - 1;
    }
    assert(start == name_start(p)) by {
        if start > 0 {
            assert(p.take(start as int).last() == '/');
        }
    }
    let mut end: usize = len;
    while end - start > 1 && v[end - 1] != '.'
        invariant
            start <= end <= len <= v@.len(),
            start < len,
            p == v@.take(len as int),
            stem_end(p.take(end as int), start as int) == stem_end(p, start as int),
        decreases end,
    {
        proof {
            assert(p.take(end as int).drop_last() =~= p.take(end - 1));
        }
        end = end - 1;
    }
    proof {
        if end > start + 1 {
            assert(p.take(end as int).last() == '.');
        }
    }
    let cut: usize = if end - start > 1 { end - 1 } else { len };
    let mut out = string_of(v, 0, cut);
    proof {
        assert(out@ =~= p.take(cut as int));
        if end <= start + 1 {
            assert(stem_end(p, start as int) == -1);
            assert(p.take(cut as int) =~= p);
        }
    }
    out.push('.');
    out.append("lock");
    out
}

/// Whether `v[..len]` ends in a name; it does not end in a slash.
fn named_at(v: &Vec<char>, len: usize) -> (r: bool)
    requires
        len <= v@.len(),
        len > 0 ==> v@[len - 1] != '/',
    ensures
        r == ends_in_name(v@.take(len as int)),
{
    let ghost p = v@.take(len as int);
    let ghost name = p.skip(name_start(p));
    proof {
        reveal_strlit(".");
        reveal_strlit("..");
        lemma_name_start(p);
    }
    if len == 0 {
        return false;
    }
    if v[len - 1] != '.' {
        proof {
            assert(name.last() == p.last());
        }
        return true;
    }
    if len == 1 || v[len - 2] == '/' {
        proof {
            lemma_name_start(p.drop_last());
            assert(name =~= "."@);
        }
        return false;
    }
    if v[len - 2] != '.' {
        proof {
            lemma_name_start(p.drop_last());
            assert(name[name.len() - 2] == p[len - 2]);
        }
        return true;
    }
    if len == 2 || v[len - 3] == '/' {
        proof {
            lemma_name_start(p.drop_last());
            lemma_name_start(p.drop_last().drop_last());
            assert(name =~= ".."@);
        }
        return false;
    }
    proof {
        lemma_name_start(p.drop_last());
        lemma_name_start(p.drop_last().drop_last());
        assert(name.len() > 2);
    }
    true
}

/// A name begins in its path, and before the end of one that ends in no slash.
proof fn lemma_name_start(path: Seq<char>)
    ensures
        0 <= name_start(path) <= path.len(),
        path.len() > 0 && path.last() != '/' ==> name_start(path) < path.len(),
        path.len() > 0 && path.last() == '/' ==> name_start(path) == path.len(),
    decreases path.len(),
{
    if path.len() > 0 && path.last() != '/' {
        lemma_name_start(path.drop_last());
    }
}

/// The lock next to a socket: the path with its extension, if it has one,
/// replaced.
pub fn lock_path_for(socket_path: &str) -> (r: String)
    ensures
        r@ == extension_set(socket_path@, "lock"@),
{
    let v = chars_of(socket_path);
    let mut len: usize = v.len();
    proof {
        assert(v@.take(v@.len() as int) =~= v@);
    }
    while len > 0 && (v[len - 1] == '/' || (v[len - 1] == '.' && len > 1 && v[len - 2] == '/'))
        invariant
            len <= v@.len(),
            last_end(v@.take(len as int)) == last_end(v@),
        decreases len,
    {
        proof {
            assert(v@.take(len as int).drop_last() =~= v@.take(len - 1));
        }
        len = len - 1;
    }
    assert(len == last_end(v@)) by {
        lemma_last_end(v@);
    }
    if named_at(&v, len) {
        extended(&v, len)
    } else {
        socket_path.to_string()
    }
}

/// What asking for the profile's lock led to.
#[derive(Debug, Clone, Copy, PartialEq, Eq, Structural)]
pub enum LockOutcome {
    /// It is ours.
    Held,
    /// A live process has it.
    Contended,
    /// It could not be asked for.
    Failed,
}

/// What a lock call returned.
pub open spec fn lock_meaning(rc: i32, errno: Option<i32>, would_block: i32, again: i32) -> LockOutcome {
    if rc == 0 {
        LockOutcome::Held
    } else if errno == Some(would_block) || errno == Some(again) {
        LockOutcome::Contended
    } else {
        LockOutcome::Failed
    }
}

/// What a lock call returned: zero where the lock is ours, else an error, of
/// which two mean that it is taken.
pub fn lock_outcome(rc: i32, errno: Option<i32>, would_block: i32, again: i32) -> (r: LockOutcome)
    ensures
        r == lock_meaning(rc, errno, would_block, again),
{
    if rc == 0 {
        return LockOutcome::Held;
    }
    match errno {
        Some(code) => {
            if code == would_block || code == again {
                LockOutcome::Contended
            } else {
                LockOutcome::Failed
            }
        },
        None => LockOutcome::Failed,
    }
}

/// What one attempt to hand the addresses over led to.
#[derive(Debug)]
pub enum ConnectOutcome {
    /// They were taken.
    Forwarded,
    /// A live browser refused them, or closed without an answer.
    Rejected(String),
    /// Nobody is listening: what is left of the socket may be replaced.
    Stale,
    /// It cannot be told whether somebody is listening, so the socket must
    /// not be replaced.
    Ambiguous(String),
}

/// An outcome without its strings.
pub enum OutcomeView {
    Forwarded,
    Rejected(Seq<char>),
    Stale,
    Ambiguous(Seq<char>),
}

impl View for ConnectOutcome {
    type V = OutcomeView;

    open spec fn view(&self) -> OutcomeView {
        match self {
            ConnectOutcome::Forwarded => OutcomeView::Forwarded,
            ConnectOutcome::Rejected(m) => OutcomeView::Rejected(m@),
            ConnectOutcome::Stale => OutcomeView::Stale,
            ConnectOutcome::Ambiguous(m) => OutcomeView::Ambiguous(m@),
        }
    }
}

/// Why a connection failed.
#[derive(Debug)]
pub enum ConnectError {
    NotFound,
    ConnectionRefused,
    /// Anything else, in words.
    Other(String),
}

/// What a failed connection means.
pub open spec fn error_meaning(e: ConnectError) -> OutcomeView {
    match e {
        ConnectError::NotFound => OutcomeView::Stale,
        ConnectError::ConnectionRefused => OutcomeView::Stale,
        ConnectError::Other(m) => OutcomeView::Ambiguous(m@),
    }
}

/// A failed connection means that nobody listens only where the socket is
/// missing or refuses.
pub fn classify_connect_error(e: ConnectError) -> (r: ConnectOutcome)
    ensures
        r@ == error_meaning(e),
{
    match e {
        ConnectError::NotFound => ConnectOutcome::Stale,
        ConnectError::ConnectionRefused => ConnectOutcome::Stale,
        ConnectError::Other(m) => ConnectOutcome::Ambiguous(m),
    }
}

/// What an answer of `n` bytes means. Everything but `OK` is a refusal.
pub open spec fn ack_meaning(n: usize, ack: Seq<char>) -> OutcomeView {
    let line = text::trimmed(ack);
    if n == 0 || line.len() == 0 {
        OutcomeView::Rejected("server closed without an ack"@)
    } else if line == "OK"@ {
        OutcomeView::Forwarded
    } else {
        OutcomeView::Rejected(line)
    }
}

/// Judge the answer of a running browser.
pub fn classify_ack(n: usize, ack: &str) -> (r: ConnectOutcome)
    ensures
        r@ == ack_meaning(n, ack@),
{
    let line = trim(ack);
    if n == 0 || line.as_str().is_empty() {
        return ConnectOutcome::Rejected("server closed without an ack".to_owned());
    }
    if same_text(line.as_str(), "OK") {
        return ConnectOutcome::Forwarded;
    }
    ConnectOutcome::Rejected(line)
}

/// What follows an attempt.
pub enum RetryStep {
    /// Wait [`CONNECT_RETRY_DELAY`] and try again.
    Retry,
    /// This is the outcome.
    Done(ConnectOutcome),
}

/// Whether attempt number `attempt` is repeated.
pub open spec fn repeats(attempt: u32, outcome: OutcomeView) -> bool {
    outcome is Ambiguous && attempt < CONNECT_ATTEMPTS
}

/// Judge attempt number `attempt`, counted from one: only an attempt that left
/// it open whether somebody listens is repeated, up to [`CONNECT_ATTEMPTS`].
pub fn after_attempt(attempt: u32, outcome: ConnectOutcome) -> (r: RetryStep)
    ensures
        r is Retry <==> repeats(attempt, outcome@),
        r matches RetryStep::Done(o) ==> o == outcome,
{
    match outcome {
        ConnectOutcome::Ambiguous(m) => {
            if attempt < CONNECT_ATTEMPTS {
                RetryStep::Retry
            } else {
                RetryStep::Done(ConnectOutcome::Ambiguous(m))
            }
        },
        ConnectOutcome::Forwarded => RetryStep::Done(ConnectOutcome::Forwarded),
        ConnectOutcome::Rejected(m) => RetryStep::Done(ConnectOutcome::Rejected(m)),
        ConnectOutcome::Stale => RetryStep::Done(ConnectOutcome::Stale),
    }
}

/// Why a start fails.
#[derive(Debug)]
pub enum AcquireError {
    /// The running browser refused the addresses.
    Refused(String),
    /// There may be a running browser, but it cannot be reached.
    Unreachable(String),
    /// Another process owns the profile and takes nothing.
    NotAccepting(String),
}

impl AcquireError {
    /// The failure in words; `socket_path` is the socket that was tried.
    pub open spec fn text(self, socket_path: Seq<char>) -> Seq<char> {
        match self {
            AcquireError::Refused(m) => {
                "the running buffr instance refused the forwarded URL(s) (second instance exits; nothing was opened): "@
                    + m@
            },
            AcquireError::Unreachable(m) => {
                "could not reach the existing buffr instance on "@ + socket_path
                    + " and will not replace its socket (last error: "@ + m@
                    + "). If no buffr is running, remove that file and retry."@
            },
            AcquireError::NotAccepting(m) => {
                "another buffr process owns this profile but is not accepting connections ("@ + m@
                    + "); refusing to start a second instance"@
            },
        }
    }

    /// The failure in words; `socket_path` is the socket that was tried.
    pub fn message(&self, socket_path: &str) -> (r: String)
        ensures
            r@ == self.text(socket_path@),
    {
        match self {
            AcquireError::Refused(m) => {
                let mut s: String =
                    "the running buffr instance refused the forwarded URL(s) (second instance exits; nothing was opened): ".to_owned();
                s.append(m.as_str());
                s
            },
            AcquireError::Unreachable(m) => {
                let mut s: String = "could not reach the existing buffr instance on ".to_owned();
                s.append(socket_path);
                s.append(" and will not replace its socket (last error: ");
                s.append(m.as_str());
                s.append("). If no buffr is running, remove that file and retry.");
                s
            },
            AcquireError::NotAccepting(m) => {
                let mut s: String =
                    "another buffr process owns this profile but is not accepting connections (".to_owned();
                s.append(m.as_str());
                s.append("); refusing to start a second instance");
                s
            },
        }
    }
}

/// How far a start has come.
#[derive(Debug, Clone, Copy, PartialEq, Eq, Structural)]
pub enum AcquirePhase {
    /// Handing the addresses over.
    Forwarding,
    /// Nobody listens: asking for the lock.
    Locking,
    /// The lock is taken after all: handing them over again.
    ForwardingAgain,
}

/// What happened.
#[derive(Debug)]
pub enum AcquireEvent {
    Outcome(ConnectOutcome),
    LockHeld,
    LockContended,
}

/// What a start does next.
#[derive(Debug)]
pub enum AcquireResult {
    /// The running browser took the addresses: exit.
    Forwarded,
    /// Ask for the lock.
    TryLock,
    /// Hand the addresses over again.
    ForwardAgain,
    /// The profile is ours: bind the socket.
    Owner,
    /// Give up.
    Fail(AcquireError),
}

/// A result without its strings.
pub enum ResultView {
    Forwarded,
    TryLock,
    ForwardAgain,
    Owner,
    Refused(Seq<char>),
    Unreachable(Seq<char>),
    NotAccepting(Seq<char>),
}

impl View for AcquireResult {
    type V = ResultView;

    open spec fn view(&self) -> ResultView {
        match self {
            AcquireResult::Forwarded => ResultView::Forwarded,
            AcquireResult::TryLock => ResultView::TryLock,
            AcquireResult::ForwardAgain => ResultView::ForwardAgain,
            AcquireResult::Owner => ResultView::Owner,
            AcquireResult::Fail(AcquireError::Refused(m)) => ResultView::Refused(m@),
            AcquireResult::Fail(AcquireError::Unreachable(m)) => ResultView::Unreachable(m@),
            AcquireResult::Fail(AcquireError::NotAccepting(m)) => ResultView::NotAccepting(m@),
        }
    }
}

/// What follows an outcome of the first round.
pub open spec fn after_forward(o: OutcomeView) -> ResultView {
    match o {
        OutcomeView::Forwarded => ResultView::Forwarded,
        OutcomeView::Rejected(m) => ResultView::Refused(m),
        OutcomeView::Stale => ResultView::TryLock,
        OutcomeView::Ambiguous(m) => ResultView::Unreachable(m),
    }
}

/// What follows an outcome of the second round.
pub open spec fn after_second_forward(o: OutcomeView) -> ResultView {
    match o {
        OutcomeView::Forwarded => ResultView::Forwarded,
        OutcomeView::Rejected(m) => ResultView::NotAccepting(m),
        OutcomeView::Stale => ResultView::NotAccepting("socket not listening"@),
        OutcomeView::Ambiguous(m) => ResultView::NotAccepting(m),
    }
}

/// One step of acquiring a profile.
pub open spec fn acquired(phase: AcquirePhase, event: AcquireEvent) -> ResultView {
    match event {
        AcquireEvent::Outcome(o) => if phase == AcquirePhase::Forwarding {
            after_forward(o@)
        } else {
            after_second_forward(o@)
        },
        AcquireEvent::LockHeld => ResultView::Owner,
        AcquireEvent::LockContended => ResultView::ForwardAgain,
    }
}

/// One step of acquiring a profile.
pub fn try_acquire(phase: AcquirePhase, event: AcquireEvent) -> (r: AcquireResult)
    requires
        phase == AcquirePhase::Locking <==> !(event is Outcome),
    ensures
        r@ == acquired(phase, event),
{
    match event {
        AcquireEvent::LockHeld => AcquireResult::Owner,
        AcquireEvent::LockContended => AcquireResult::ForwardAgain,
        AcquireEvent::Outcome(o) => match phase {
            AcquirePhase::Forwarding => match o {
                ConnectOutcome::Forwarded => AcquireResult::Forwarded,
                ConnectOutcome::Rejected(m) => AcquireResult::Fail(AcquireError::Refused(m)),
                ConnectOutcome::Stale => AcquireResult::TryLock,
                ConnectOutcome::Ambiguous(m) => AcquireResult::Fail(AcquireError::Unreachable(m)),
            },
            AcquirePhase::ForwardingAgain => match o {
                ConnectOutcome::Forwarded => AcquireResult::Forwarded,
                ConnectOutcome::Rejected(m) => AcquireResult::Fail(AcquireError::NotAccepting(m)),
                ConnectOutcome::Stale => AcquireResult::Fail(
                    AcquireError::NotAccepting("socket not listening".to_owned()),
                ),
                ConnectOutcome::Ambiguous(m) => AcquireResult::Fail(AcquireError::NotAccepting(m)),
            },
            AcquirePhase::Locking => AcquireResult::TryLock,
        },
    }
}

/// Law: a start asks for the lock only where nobody listens, and takes the
/// profile only with the lock: whatever the attempts said, a socket that may be
/// live is never taken over.
pub proof fn law_a_live_socket_is_never_taken_over(o: OutcomeView)
    ensures
        after_forward(o) is TryLock <==> o is Stale,
        !(after_forward(o) is Owner),
        !(after_second_forward(o) is Owner),
        !(after_second_forward(o) is TryLock),
{
}

/// A line from a client.
#[derive(Debug, PartialEq, Eq)]
pub enum CappedLine {
    /// A line, with its line feed.
    Line(String),
    /// The client closed without sending anything.
    Eof,
    /// No line feed within the cap, or before the client closed.
    TooLong,
}

/// Where the first line feed within the cap is.
pub open spec fn line_feed_at(data: Seq<u8>, i: int) -> bool {
    &&& 0 <= i < data.len()
    &&& i < MAX_FORWARD_LINE_LEN
    &&& data[i] == 10
    &&& forall|k: int| 0 <= k < i ==> data[k] != 10
}

/// What is read of a stream: up to its first line feed, and no more than the
/// cap.
pub open spec fn read_part(data: Seq<u8>, part: Seq<u8>) -> bool {
    ||| exists|i: int| #[trigger] line_feed_at(data, i) && part == data.take(i + 1)
    ||| (forall|i: int| !#[trigger] line_feed_at(data, i)) && part == (if data.len()
        <= MAX_FORWARD_LINE_LEN {
        data
    } else {
        data.take(MAX_FORWARD_LINE_LEN as int)
    })
}

/// Read one line of at most [`MAX_FORWARD_LINE_LEN`] bytes of what a client
/// sent. `None` where what was read is not valid UTF-8.
pub fn read_capped_line(data: &[u8]) -> (r: Option<CappedLine>)
    ensures
        exists|part: Seq<u8>| #[trigger]
            read_part(data@, part) && match r {
                None => !vstd::utf8::valid_utf8(part),
                Some(CappedLine::Eof) => data@.len() == 0,
                Some(CappedLine::Line(s)) => part.len() > 0 && part.last() == 10
                    && vstd::utf8::encode_utf8(s@) == part,
                Some(CappedLine::TooLong) => vstd::utf8::valid_utf8(part) && part.len() > 0
                    && part.last() != 10,
            },
        data@.len() == 0 ==> r == Some(CappedLine::Eof),
{
    if data.len() == 0 {
        proof {
            assert(read_part(data@, data@));
        }
        return Some(CappedLine::Eof);
    }
    let mut part: Vec<u8> = Vec::new();
    let mut i: usize = 0;
    let mut found = false;
    while i < data.len() && i < MAX_FORWARD_LINE_LEN && !found
        invariant
            i <= data@.len(),
            i <= MAX_FORWARD_LINE_LEN,
            part@ == data@.take(i as int),
            found ==> i > 0 && line_feed_at(data@, i - 1),
            !found ==> forall|k: int| 0 <= k < i ==> data@[k] != 10,
        decreases data.len() - i,
    {
        let b = data[i];
        part.push(b);
        proof {
            assert(data@.take(i as int).push(data@[i as int]) =~= data@.take(i as int + 1));
        }
        if b == 10 {
            found = true;
        }
        i = i + 1;
    }
    let ghost bytes = part@;
    proof {
        if found {
            assert(line_feed_at(data@, i - 1) && bytes == data@.take(i - 1 + 1));
            assert(bytes.last() == 10);
        } else {
            assert(forall|k: int| !#[trigger] line_feed_at(data@, k));
            if data@.len() <= MAX_FORWARD_LINE_LEN {
                assert(bytes =~= data@);
            }
            assert(bytes.last() == data@[i - 1]);
        }
        assert(read_part(data@, bytes));
    }
    match utf8_text(part) {
        None => None,
        Some(s) => {
            if found {
                Some(CappedLine::Line(s))
            } else {
                Some(CappedLine::TooLong)
            }
        },
    }
}

/// Law: the cap leaves room for a message of as many addresses of full length as
/// are taken.
pub proof fn law_cap_admits_a_full_message()
    ensures
        MAX_FORWARD_LINE_LEN > MAX_FORWARD_URLS * MAX_FORWARD_URL_LEN,
        MAX_FORWARD_LINE_LEN == MAX_FORWARD_URLS * (MAX_FORWARD_URL_LEN + 8) + 4096,
{
    assert(MAX_FORWARD_URLS * MAX_FORWARD_URL_LEN == 102_400) by (nonlinear_arith)
        requires
            MAX_FORWARD_URLS == 100,
            MAX_FORWARD_URL_LEN == 1024,
    ;
    assert(MAX_FORWARD_URLS * (MAX_FORWARD_URL_LEN + 8) == 103_200) by (nonlinear_arith)
        requires
            MAX_FORWARD_URLS == 100,
            MAX_FORWARD_URL_LEN == 1024,
    ;
}

/// What is known of the other end of a connection.
#[derive(Debug, Clone, Copy, PartialEq, Eq, Structural)]
pub enum PeerCreds {
    /// Asking failed.
    Unreadable,
    /// The platform reports no user.
    NoUid,
    /// The other end runs as this user.
    Uid(u32),
}

/// Whether the other end may hand us addresses.
pub open spec fn may_send(creds: PeerCreds, own_uid: u32) -> bool {
    match creds {
        PeerCreds::Unreadable => true,
        PeerCreds::NoUid => true,
        PeerCreds::Uid(uid) => uid == own_uid,
    }
}

/// Whether the other end may hand us addresses: it runs as us, or it cannot be
/// determined as whom it runs. Some platforms report no user, and refusing there
/// would break forwarding altogether.
pub fn peer_is_us(creds: PeerCreds, own_uid: u32) -> (r: bool)
    ensures
        r == may_send(creds, own_uid),
{
    match creds {
        PeerCreds::Unreadable => true,
        PeerCreds::NoUid => true,
        PeerCreds::Uid(uid) => uid == own_uid,
    }
}

/// The answer to a client.
#[derive(Debug, Clone, Copy, PartialEq, Eq, Structural)]
pub enum Reply {
    /// The addresses, or some of them, are being opened.
    Taken,
    /// Nothing is opened.
    Refused,
    /// No answer: the client is gone or cannot be read.
    Silent,
}

impl Reply {
    /// What is sent.
    pub open spec fn line(self) -> Seq<char> {
        match self {
            Reply::Taken => "OK\n"@,
            Reply::Refused => "ERR\n"@,
            Reply::Silent => Seq::empty(),
        }
    }

    /// What is sent.
    pub fn text(self) -> (r: String)
        ensures
            r@ == self.line(),
    {
        match self {
            Reply::Taken => "OK\n".to_owned(),
            Reply::Refused => "ERR\n".to_owned(),
            Reply::Silent => String::new(),
        }
    }
}

/// What a connection amounts to, before its message is parsed.
pub enum ConnectionStep {
    /// Answer, and read no further.
    Answer(Reply),
    /// Parse this text.
    Parse(String),
}

/// A step without its string.
pub enum StepView {
    Answer(Reply),
    Parse(Seq<char>),
}

impl View for ConnectionStep {
    type V = StepView;

    open spec fn view(&self) -> StepView {
        match self {
            ConnectionStep::Answer(reply) => StepView::Answer(*reply),
            ConnectionStep::Parse(t) => StepView::Parse(t@),
        }
    }
}

/// What a connection amounts to.
pub open spec fn judged(peer_ok: bool, line: Option<CappedLine>) -> StepView {
    if !peer_ok {
        StepView::Answer(Reply::Refused)
    } else {
        match line {
            None => StepView::Answer(Reply::Silent),
            Some(CappedLine::Eof) => StepView::Answer(Reply::Silent),
            Some(CappedLine::TooLong) => StepView::Answer(Reply::Refused),
            Some(CappedLine::Line(l)) => StepView::Parse(text::trimmed(l@)),
        }
    }
}

/// Judge a connection: a stranger is refused, a client that sent nothing
/// readable is left alone, one that sent no full line is refused. `line` is
/// `None` where reading failed.
pub fn judge_connection(peer_ok: bool, line: Option<CappedLine>) -> (r: ConnectionStep)
    ensures
        r@ == judged(peer_ok, line),
{
    if !peer_ok {
        return ConnectionStep::Answer(Reply::Refused);
    }
    match line {
        None => ConnectionStep::Answer(Reply::Silent),
        Some(CappedLine::Eof) => ConnectionStep::Answer(Reply::Silent),
        Some(CappedLine::TooLong) => ConnectionStep::Answer(Reply::Refused),
        Some(CappedLine::Line(l)) => ConnectionStep::Parse(trim(l.as_str())),
    }
}

/// The answer to a message, and the addresses to open.
pub open spec fn accepted(urls: Option<Seq<Seq<char>>>) -> (Reply, Seq<Seq<char>>) {
    let open = match urls {
        Some(u) => gated(u),
        None => Seq::empty(),
    };
    (if open.len() > 0 { Reply::Taken } else { Reply::Refused }, open)
}

/// Judge a parsed message; `None` where it did not parse. Returns the answer and
/// the addresses to open.
pub fn accept_payload(payload: Option<ForwardPayload>) -> (r: (Reply, Vec<String>))
    ensures
        (r.0, text::texts(r.1@)) == accepted(
            match payload {
                Some(p) => Some(text::texts(p.urls@)),
                None => None,
            },
        ),
{
    match payload {
        None => {
            let none: Vec<String> = Vec::new();
            proof {
                assert(text::texts(none@) =~= Seq::empty());
            }
            (Reply::Refused, none)
        },
        Some(p) => {
            let safe = gate_urls(&p.urls);
            proof {
                assert(text::texts(safe@).len() == safe@.len());
            }
            let reply = if safe.len() == 0 { Reply::Refused } else { Reply::Taken };
            (reply, safe)
        },
    }
}

/// Law: a client reports its addresses as taken exactly where the running
/// browser answered that it took some.
pub proof fn law_forwarded_means_accepted(reply: Reply, n: usize)
    requires
        n > 0,
    ensures
        ack_meaning(n, reply.line()) is Forwarded <==> reply == Reply::Taken,
        ack_meaning(0, reply.line()) is Rejected,
{
    reveal_strlit("OK\n");
    reveal_strlit("ERR\n");
    reveal_strlit("OK");
    let ok = "OK\n"@;
    let err = "ERR\n"@;
    text::lemma_trimmed_start(ok, 0);
    text::lemma_trimmed_start(err, 0);
    assert(ok.skip(0) =~= ok);
    assert(err.skip(0) =~= err);
    text::lemma_trimmed_end(ok, 2);
    text::lemma_trimmed_end(err, 3);
    assert(ok.take(2) =~= "OK"@);
    assert(err.take(3)[0] == 'E');
    assert("OK"@[0] == 'O');
    let none = Seq::<char>::empty();
    text::lemma_trimmed_start(none, 0);
    assert(none.skip(0) =~= none);
    text::lemma_trimmed_end(none, 0);
    assert(none.take(0) =~= none);
}

/// Law: bytes in hexadecimal are two digits each, the high one first, and read
/// back as the bytes.
pub proof fn law_hex_reads_back(data: Seq<u8>, i: int)
    requires
        0 <= i < data.len(),
    ensures
        ({
            let t = hex_text(data);
            let value = |c: char| if c <= '9' { c as int - 48 } else { c as int - 87 };
            &&& t.len() == 2 * data.len()
            &&& is_hex_digit(t[2 * i]) && is_hex_digit(t[2 * i + 1])
            &&& data[i] == 16 * value(t[2 * i]) + value(t[2 * i + 1])
        }),
{
    let b = data[i] as int;
    assert((2 * i) / 2 == i && (2 * i + 1) / 2 == i && (2 * i) % 2 == 0 && (2 * i + 1) % 2 == 1);
    text::law_hex_digits_are_lower_case(b / 16);
    text::law_hex_digits_are_lower_case(b % 16);
    assert(hex_text(data)[2 * i] == text::hex_digit(b / 16));
    assert(hex_text(data)[2 * i + 1] == text::hex_digit(b % 16));
}

/// Law: web pages, files, mail and the browser's own pages are handed over, as long
/// as the address is no longer than 1024 bytes; a longer one never is, whatever its
/// scheme.
pub proof fn law_pages_are_forwarded(len: usize, scheme: Seq<char>)
    ensures
        len > 1024 ==> !forward_allowed(len, Some(scheme)),
        len <= 1024 ==> (forward_allowed(len, Some(scheme)) <==> (scheme == "http"@ || scheme
            == "https"@ || scheme == "file"@ || scheme == "ftp"@ || scheme == "ftps"@ || scheme
            == "about"@ || scheme == "chrome"@ || scheme == "view-source"@ || scheme == "mailto"@
            || scheme == "buffr"@)),
{
}

/// Law: exactly the addresses that may be handed over are taken, in their order:
/// those of two lists are those of the first and then those of the second, and one
/// alone is taken where it may be. Of a longer message only the first hundred are
/// looked at.
pub proof fn law_safe_addresses_are_taken_in_order(
    a: Seq<Seq<char>>,
    b: Seq<Seq<char>>,
    url: Seq<char>,
)
    ensures
        safe_ones(a + b) == safe_ones(a) + safe_ones(b),
        safe_to_forward(url) ==> safe_ones(seq![url]) == seq![url],
        !safe_to_forward(url) ==> safe_ones(seq![url]).len() == 0,
        a.len() <= 100 ==> gated(a) == safe_ones(a),
        a.len() == 100 ==> gated(a + b) == safe_ones(a),
    decreases b.len(),
{
    let one = seq![url];
    assert(one.drop_last() =~= Seq::<Seq<char>>::empty());
    assert(safe_ones(one.drop_last()) == Seq::<Seq<char>>::empty());
    if safe_to_forward(url) {
        assert(safe_ones(one) =~= one);
    }
    if a.len() == 100 {
        assert((a + b).take(100) =~= a);
        if b.len() == 0 {
            assert(a + b =~= a);
        }
    }
    if b.len() == 0 {
        assert(a + b =~= a);
        assert(safe_ones(a) + Seq::<Seq<char>>::empty() =~= safe_ones(a));
    } else {
        law_safe_addresses_are_taken_in_order(a, b.drop_last(), url);
        assert((a + b).drop_last() =~= a + b.drop_last());
        assert((a + b).last() == b.last());
        assert(safe_ones(a + b) =~= safe_ones(a) + safe_ones(b));
    }
}

/// Law: a directory is accepted exactly where it is one, belongs to us, and neither
/// its group nor anyone else has a permission on it; otherwise the first of these
/// that fails is named.
pub proof fn law_only_our_own_directory_is_private(is_dir: bool, owner: u32, uid: u32, mode: u32)
    ensures
        ({
            let r = dir_verdict(is_dir, owner, uid, mode);
            &&& r is Ok <==> (is_dir && owner == uid && mode & 0o070 == 0 && mode & 0o007 == 0)
            &&& r == Err::<(), DirRefusal>(DirRefusal::NotADirectory) <==> !is_dir
            &&& r matches Err(DirRefusal::Owner { owner: o, uid: u }) ==> is_dir && o == owner && u
                == uid && owner != uid
            &&& is_dir && owner != uid ==> r is Err && r->Err_0 is Owner
        }),
{
    assert(mode & 0o077 == 0 <==> (mode & 0o070 == 0 && mode & 0o007 == 0)) by (bit_vector);
}

/// Law: the directories to try end with one of our own below the temporary one,
/// named by our user number; the run-time directory, where there is one, comes
/// before it.
pub proof fn law_own_directory_is_tried_last(xdg: Option<Seq<char>>, temp: Seq<char>, uid: u32)
    ensures
        ({
            let d = runtime_dirs(xdg, temp, uid);
            let there = xdg is Some && xdg->0.len() > 0;
            &&& d.last() == text::joined(temp, "buffr-"@ + text::decimal_text(uid as nat))
            &&& there ==> d.len() == 2 && d[0] == text::joined(xdg->0, "buffr"@)
            &&& !there ==> d.len() == 1
        }),
{
}

/// Law: two profiles have two sockets in a directory, and each lies in it.
pub proof fn law_profiles_have_sockets_of_their_own(dir: Seq<char>, a: Seq<char>, b: Seq<char>)
    ensures
        socket_text(dir, a) == socket_text(dir, b) ==> a == b,
        dir.is_prefix_of(socket_text(dir, a)),
        ".sock"@ == socket_text(dir, a).skip(socket_text(dir, a).len() - 5),
{
    reveal_strlit("buffr-");
    reveal_strlit(".sock");
    let na = "buffr-"@ + a + ".sock"@;
    let nb = "buffr-"@ + b + ".sock"@;
    let s = socket_text(dir, a);
    let t = socket_text(dir, b);
    let k = s.len() - na.len();
    assert(s.skip(k) =~= na);
    assert(s.subrange(0, dir.len() as int) =~= dir);
    assert(s.skip(s.len() - 5) =~= ".sock"@);
    if s == t {
        assert(t.skip(k) =~= nb);
        assert(na.len() == nb.len());
        assert(na.subrange(6, na.len() - 5) =~= a);
        assert(nb.subrange(6, nb.len() - 5) =~= b);
    }
}

/// A part without a slash does not move where the name begins.
proof fn lemma_name_start_skips(path: Seq<char>, part: Seq<char>)
    requires
        forall|k: int| 0 <= k < part.len() ==> #[trigger] part[k] != '/',
    ensures
        name_start(path + part) == name_start(path),
    decreases part.len(),
{
    if part.len() == 0 {
        assert(path + part =~= path);
    } else {
        assert((path + part).last() == part[part.len() - 1]);
        assert((path + part).drop_last() =~= path + part.drop_last());
        lemma_name_start_skips(path, part.drop_last());
    }
}

/// A part without a dot does not move where the extension begins.
proof fn lemma_stem_end_skips(path: Seq<char>, part: Seq<char>, from: int)
    requires
        path.len() > from + 1,
        from >= 0,
        forall|k: int| 0 <= k < part.len() ==> #[trigger] part[k] != '.',
    ensures
        stem_end(path + part, from) == stem_end(path, from),
    decreases part.len(),
{
    if part.len() == 0 {
        assert(path + part =~= path);
    } else {
        assert((path + part).last() == part[part.len() - 1]);
        assert((path + part).drop_last() =~= path + part.drop_last());
        lemma_stem_end_skips(path, part.drop_last(), from);
    }
}

/// Law: the lock of a socket lies next to it under the same name with another
/// extension: only what follows the last dot of the name is replaced.
pub proof fn law_lock_lies_next_to_its_socket(
    dir: Seq<char>,
    stem: Seq<char>,
    ext: Seq<char>,
    other: Seq<char>,
)
    requires
        dir.len() > 0 ==> dir.last() == '/',
        stem.len() > 0,
        ext.len() > 0,
        forall|k: int| 0 <= k < stem.len() ==> #[trigger] stem[k] != '/',
        forall|k: int| 0 <= k < ext.len() ==> #[trigger] ext[k] != '/' && ext[k] != '.',
    ensures
        extension_set(dir + stem + seq!['.'] + ext, other) == dir + stem + seq!['.'] + other,
{
    let head = dir + stem;
    let dotted = head + seq!['.'];
    let path = dotted + ext;
    let tail = seq!['.'] + ext;
    assert(path =~= dir + (stem + tail));
    let part = stem + tail;
    assert forall|k: int| 0 <= k < part.len() implies #[trigger] part[k] != '/' by {
        if k < stem.len() {
            assert(part[k] == stem[k]);
        } else if k > stem.len() {
            assert(part[k] == ext[k - stem.len() - 1]);
        }
    }
    lemma_name_start_skips(dir, part);
    assert(name_start(dir) == dir.len());
    let from = dir.len() as int;
    assert(name_start(path) == from);
    assert(path.last() == ext[ext.len() - 1]);
    assert(last_end(path) == path.len());
    assert(path.take(path.len() as int) =~= path);
    let name = path.skip(from);
    assert(name =~= part);
    reveal_strlit(".");
    reveal_strlit("..");
    assert(name.last() == ext[ext.len() - 1]);
    assert("."@.last() == '.' && ".."@.last() == '.');
    lemma_stem_end_skips(dotted, ext, from);
    assert(dotted.last() == '.');
    assert(stem_end(path, from) == head.len());
    assert(path.take(head.len() as int) =~= head);
    assert(head.push('.') + other =~= dir + stem + seq!['.'] + other);
}

/// Law: a lock is ours exactly where the call returned zero, and taken exactly
/// where it failed with one of the two errors that say so.
pub proof fn law_lock_is_ours_on_success(rc: i32, errno: Option<i32>, wb: i32, again: i32)
    ensures
        lock_meaning(rc, errno, wb, again) is Held <==> rc == 0,
        lock_meaning(rc, errno, wb, again) is Contended <==> (rc != 0 && errno is Some && (errno->0
            == wb || errno->0 == again)),
{
}

/// Law: only a missing or refusing socket is stale; any other failure leaves it
/// open whether somebody listens, and is passed on in its own words.
pub proof fn law_only_a_dead_socket_is_stale(e: ConnectError)
    ensures
        error_meaning(e) is Stale <==> (e is NotFound || e is ConnectionRefused),
        e matches ConnectError::Other(m) ==> error_meaning(e) == OutcomeView::Ambiguous(m@),
{
}

/// Law: only an attempt that left it open whether somebody listens is repeated, and
/// there are three attempts at most.
pub proof fn law_three_attempts(attempt: u32, o: OutcomeView)
    ensures
        repeats(attempt, o) ==> o is Ambiguous,
        o is Ambiguous ==> (repeats(attempt, o) <==> attempt < 3),
{
}

/// Law: an answer means that the addresses were taken only where it is `OK`, with
/// white space around it or none; any other answer is a refusal in its own words,
/// and no answer is a refusal too.
pub proof fn law_answers_other_than_ok_are_refusals(n: usize, ack: Seq<char>)
    ensures
        ({
            let m = ack_meaning(n, ack);
            let line = text::trimmed(ack);
            &&& m is Forwarded <==> (n > 0 && line == "OK"@)
            &&& m is Forwarded || m is Rejected
            &&& n > 0 && line.len() > 0 && line != "OK"@ ==> m == OutcomeView::Rejected(line)
        }),
{
    reveal_strlit("OK");
    assert("OK"@.len() == 2);
}

/// Law: how a start goes on. Addresses that were taken end it, in either round. A
/// refusal fails it with its reason, and so does a browser that may be there but
/// cannot be reached. The profile is ours only with the lock, which is asked for
/// only where nobody listens; where it is taken after all, the addresses are handed
/// over once more and no further.
pub proof fn law_a_start_forwards_owns_or_fails(phase: AcquirePhase, event: AcquireEvent)
    requires
        phase == AcquirePhase::Locking <==> !(event is Outcome),
    ensures
        ({
            let r = acquired(phase, event);
            let o = event->Outcome_0@;
            let first = phase == AcquirePhase::Forwarding;
            &&& r is Forwarded <==> (event is Outcome && o is Forwarded)
            &&& r is Owner <==> event is LockHeld
            &&& r is ForwardAgain <==> event is LockContended
            &&& r is TryLock <==> (event is Outcome && first && o is Stale)
            &&& event is Outcome && first && o is Rejected ==> r == ResultView::Refused(
                o->Rejected_0,
            )
            &&& event is Outcome && first && o is Ambiguous ==> r == ResultView::Unreachable(
                o->Ambiguous_0,
            )
            &&& event is Outcome && !first && o is Rejected ==> r == ResultView::NotAccepting(
                o->Rejected_0,
            )
            &&& event is Outcome && !first && o is Ambiguous ==> r == ResultView::NotAccepting(
                o->Ambiguous_0,
            )
            &&& event is Outcome && !first && o is Stale ==> r is NotAccepting
        }),
{
}

/// Whether `part` stands in `t` at `i`.
pub open spec fn stands_at(t: Seq<char>, i: int, part: Seq<char>) -> bool {
    0 <= i && i + part.len() <= t.len() && t.subrange(i, i + part.len()) == part
}

/// Law: a failed start says why: the reason stands in its message, and the socket
/// does where it cannot be reached.
pub proof fn law_failures_name_their_reason(m: String, socket: Seq<char>)
    ensures
        exists|i: int| #[trigger] stands_at(AcquireError::Refused(m).text(socket), i, m@),
        exists|i: int| #[trigger] stands_at(AcquireError::Unreachable(m).text(socket), i, m@),
        exists|i: int| #[trigger] stands_at(AcquireError::Unreachable(m).text(socket), i, socket),
        exists|i: int| #[trigger] stands_at(AcquireError::NotAccepting(m).text(socket), i, m@),
{
    let r = AcquireError::Refused(m).text(socket);
    let i = r.len() - m@.len();
    assert(r.subrange(i, i + m@.len()) =~= m@);
    assert(stands_at(r, i, m@));
    let u = AcquireError::Unreachable(m).text(socket);
    let a = "could not reach the existing buffr instance on "@;
    let b = " and will not replace its socket (last error: "@;
    let j = a.len() as int;
    let k = j + socket.len() + b.len();
    assert(u.subrange(j, j + socket.len()) =~= socket);
    assert(u.subrange(k, k + m@.len()) =~= m@);
    assert(stands_at(u, j, socket) && stands_at(u, k, m@));
    let n = AcquireError::NotAccepting(m).text(socket);
    let l = "another buffr process owns this profile but is not accepting connections ("@.len() as int;
    assert(n.subrange(l, l + m@.len()) =~= m@);
    assert(stands_at(n, l, m@));
}

/// Law: of what a client sent, the part up to and with the first line feed is read;
/// without one within the cap of 107296 bytes, no more than the cap is.
pub proof fn law_one_line_is_read(data: Seq<u8>, part: Seq<u8>, i: int)
    requires
        read_part(data, part),
    ensures
        part.len() <= 107_296,
        part.is_prefix_of(data),
        0 <= i < data.len() && i < 107_296 && data[i] == 10 && (forall|k: int|
            0 <= k < i ==> data[k] != 10) ==> part == data.take(i + 1),
        data.len() <= 107_296 && (forall|k: int| 0 <= k < data.len() ==> data[k] != 10) ==> part
            == data,
{
    assert(part =~= data.subrange(0, part.len() as int));
    if 0 <= i < data.len() && i < 107_296 && data[i] == 10 && (forall|k: int|
        0 <= k < i ==> data[k] != 10) {
        assert(line_feed_at(data, i));
        let j = choose|j: int| #[trigger] line_feed_at(data, j) && part == data.take(j + 1);
        assert(i == j);
    }
}

/// Law: a client that is known to run as another user is turned away; one that runs
/// as us, or of which that cannot be told, may hand addresses over.
pub proof fn law_strangers_are_turned_away(creds: PeerCreds, own: u32)
    ensures
        creds matches PeerCreds::Uid(u) ==> (may_send(creds, own) <==> u == own),
        creds is NoUid || creds is Unreadable ==> may_send(creds, own),
{
}

/// Law: a stranger is refused whatever they sent. Of the others, one that sent a
/// line has it parsed, without the white space around it; one that sent no full
/// line is refused, and one that is gone gets no answer.
pub proof fn law_only_a_full_line_is_parsed(peer_ok: bool, line: Option<CappedLine>)
    ensures
        ({
            let r = judged(peer_ok, line);
            &&& !peer_ok ==> r == StepView::Answer(Reply::Refused)
            &&& r is Parse <==> (peer_ok && line is Some && line->0 is Line)
            &&& r is Parse ==> r->Parse_0 == text::trimmed(line->0->Line_0@)
            &&& peer_ok && line is Some && line->0 is TooLong ==> r == StepView::Answer(
                Reply::Refused,
            )
            &&& peer_ok && (line is None || line->0 is Eof) ==> r == StepView::Answer(Reply::Silent)
        }),
{
}

/// Law: a message is answered as taken exactly where some address of it is opened,
/// and what is opened is what may be; a message that does not parse opens nothing.
pub proof fn law_taken_means_opened(urls: Seq<Seq<char>>)
    ensures
        accepted(None) == (Reply::Refused, Seq::<Seq<char>>::empty()),
        accepted(Some(urls)).0 is Taken <==> accepted(Some(urls)).1.len() > 0,
        !(accepted(Some(urls)).0 is Silent),
        urls.len() <= 100 ==> accepted(Some(urls)).1 == safe_ones(urls),
{
}

/// Law: the models of outcomes and steps keep their sort and their text.
pub proof fn law_outcomes_are_seen_whole(t: String, reply: Reply)
    ensures
        ConnectOutcome::Forwarded@ is Forwarded,
        ConnectOutcome::Stale@ is Stale,
        ConnectOutcome::Rejected(t)@ == OutcomeView::Rejected(t@),
        ConnectOutcome::Ambiguous(t)@ == OutcomeView::Ambiguous(t@),
        AcquireResult::Forwarded@ is Forwarded,
        AcquireResult::TryLock@ is TryLock,
        AcquireResult::ForwardAgain@ is ForwardAgain,
        AcquireResult::Owner@ is Owner,
        AcquireResult::Fail(AcquireError::Refused(t))@ == ResultView::Refused(t@),
        AcquireResult::Fail(AcquireError::Unreachable(t))@ == ResultView::Unreachable(t@),
        AcquireResult::Fail(AcquireError::NotAccepting(t))@ == ResultView::NotAccepting(t@),
        ConnectionStep::Answer(reply)@ == StepView::Answer(reply),
        ConnectionStep::Parse(t)@ == StepView::Parse(t@),
{
}

/// A name whose only dot, if any, is its first character has no extension.
proof fn lemma_no_extension(dir: Seq<char>, name: Seq<char>)
    requires
        forall|k: int| 1 <= k < name.len() ==> #[trigger] name[k] != '.',
    ensures
        stem_end(dir + name, dir.len() as int) == -1,
    decreases name.len(),
{
    let path = dir + name;
    if name.len() >= 2 {
        assert(path.last() == name[name.len() - 1]);
        assert(path.drop_last() =~= dir + name.drop_last());
        lemma_no_extension(dir, name.drop_last());
    }
}

/// Law: a name without an extension, one that starts with its only dot among them,
/// keeps all of itself and gets the extension at its end.
pub proof fn law_extension_is_added_where_there_is_none(
    dir: Seq<char>,
    name: Seq<char>,
    ext: Seq<char>,
)
    requires
        dir.len() > 0 ==> dir.last() == '/',
        name.len() > 0,
        name.len() == 1 ==> name[0] != '.',
        forall|k: int| 0 <= k < name.len() ==> #[trigger] name[k] != '/',
        forall|k: int| 1 <= k < name.len() ==> #[trigger] name[k] != '.',
    ensures
        extension_set(dir + name, ext) == dir + name + seq!['.'] + ext,
{
    let path = dir + name;
    lemma_name_start_skips(dir, name);
    assert(name_start(dir) == dir.len());
    assert(path.last() == name[name.len() - 1]);
    assert(last_end(path) == path.len());
    assert(path.take(path.len() as int) =~= path);
    assert(path.skip(dir.len() as int) =~= name);
    reveal_strlit(".");
    reveal_strlit("..");
    assert("."@.len() == 1 && "."@[0] == '.' && ".."@.len() == 2 && ".."@[1] == '.');
    lemma_no_extension(dir, name);
    assert(path.push('.') + ext =~= dir + name + seq!['.'] + ext);
}

} // verus!
