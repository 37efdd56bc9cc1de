//! Serving a static file over HTTP: when a request header is complete,
//! which file a request asks for, and the head of the response.

use vstd::prelude::*;
use vstd::utf8::{decode_utf8, encode_utf8, valid_utf8};

use crate::mime::{extension_to_mime_impl, known_mime_type};
use crate::text::{
    chars_of, concat_chars, decimal_chars, decimal_of, decode_text, ends_with_char, trim_end_of, replace_chars,
    replace_of, same_text, split_chars, split_of, string_of, trim_chars, trim_of, trim_start_of,
    views, Strip,
};

verus! {

/// A request header ends with an empty line.
pub open spec fn header_is_complete(buffer: Seq<u8>) -> bool {
    buffer.len() >= 4 && buffer.subrange(buffer.len() - 4, buffer.len() as int) == seq![
        13u8,
        10u8,
        13u8,
        10u8,
    ]
}

/// Whether the bytes read so far hold a whole request header, that is,
/// end with `\r\n\r\n`.
pub fn header_complete(buffer: &[u8]) -> (done: bool)
    requires
        buffer@.len() >= 4,
    ensures
        done == header_is_complete(buffer@),
{
    let n = buffer.len();
    let done = buffer[n - 4] == 13u8 && buffer[n - 3] == 10u8 && buffer[n - 2] == 13u8 && buffer[n
        - 1] == 10u8;
    assert(done ==> buffer@.subrange(n - 4, n as int) =~= seq![13u8, 10u8, 13u8, 10u8]);
    assert(buffer@.subrange(n - 4, n as int) == seq![13u8, 10u8, 13u8, 10u8] ==> {
        &&& buffer@.subrange(n - 4, n as int)[0] == buffer@[n - 4]
        &&& buffer@.subrange(n - 4, n as int)[1] == buffer@[n - 3]
        &&& buffer@.subrange(n - 4, n as int)[2] == buffer@[n - 2]
        &&& buffer@.subrange(n - 4, n as int)[3] == buffer@[n - 1]
    });
    done
}

/// Whether a byte, read as a Latin-1 character, is alphabetic in Unicode:
/// the ASCII letters, `ª`, `µ`, `º`, and `À` to `ÿ` without `×` and `÷`.
pub open spec fn latin1_is_alphabetic(b: u8) -> bool {
    ||| (65 <= b && b <= 90)
    ||| (97 <= b && b <= 122)
    ||| b == 0xaa
    ||| b == 0xb5
    ||| b == 0xba
    ||| (0xc0 <= b && b <= 0xff && b != 0xd7 && b != 0xf7)
}

/// Calls `char::is_alphabetic` on a byte read as a character: the result is
/// the Unicode `Alphabetic` property, which on the Latin-1 range holds
/// exactly for the characters that `latin1_is_alphabetic` lists.
#[verifier::external_body]
fn byte_is_alphabetic(b: u8) -> (alphabetic: bool)
    ensures
        alphabetic == latin1_is_alphabetic(b),
{
    (b as char).is_alphabetic()
}

/// Whether a connection speaks TLS, judged by its first two bytes: a plain
/// HTTP request starts with a method such as `GET`, so two letters; a TLS
/// record does not.
pub fn is_https_connection(first: u8, second: u8) -> (https: bool)
    ensures
        https == !(latin1_is_alphabetic(first) && latin1_is_alphabetic(second)),
{
    !(byte_is_alphabetic(first) && byte_is_alphabetic(second))
}

/// The address a listener binds: host, `:`, then the port in decimal.
pub open spec fn listen_address_of(host: Seq<char>, port: u32) -> Seq<char> {
    host + seq![':'] + decimal_of(port as nat)
}

/// The address a listener binds for a host and port.
pub fn listen_address(host: &str, port: u32) -> (address: String)
    ensures
        address@ == listen_address_of(host@, port),
{
    let mut address = String::from_str(host);
    address.append(":");
    let digits = decimal_chars(port as u64);
    let digits = string_of(digits.as_slice());
    address.append(digits.as_str());
    proof {
        reveal_strlit(":");
    }
    address
}

/// The text of a request header.
pub open spec fn request_text(header: Seq<u8>) -> Seq<char> {
    decode_utf8(header)
}

/// A request the server can handle: UTF-8, and either empty or holding at
/// least two spaces, so that a request target follows the method.
pub open spec fn request_is_answerable(header: Seq<u8>) -> bool {
    &&& valid_utf8(header)
    &&& (request_text(header).len() == 0 || split_of(request_text(header), seq![' ']).len() >= 3)
}

/// The request target: the second space-separated field of the request,
/// trimmed of white space, with each `%20` turned into a space.
pub open spec fn request_target_of(text: Seq<char>) -> Seq<char> {
    replace_of(
        trim_of(split_of(text, seq![' '])[1], Strip::WhiteSpace),
        seq!['%', '2', '0'],
        seq![' '],
    )
}

/// The file a target names, relative to the served folder: a target that
/// ends in `/` names the `index.html` of that folder; otherwise the target
/// without its leading and trailing slashes.
pub open spec fn relative_file_of(target: Seq<char>) -> Seq<char> {
    if ends_with_char(target, '/') {
        trim_start_of(target, Strip::Char('/')) + "index.html"@
    } else {
        trim_of(target, Strip::Char('/'))
    }
}

/// Trimming a character from the start leaves a sequence that is empty or
/// starts with another character.
proof fn lemma_trim_start_first(s: Seq<char>, c: char)
    ensures
        trim_start_of(s, Strip::Char(c)).len() == 0 || trim_start_of(s, Strip::Char(c))[0] != c,
    decreases s.len(),
{
    if s.len() > 0 && s[0] == c {
        lemma_trim_start_first(s.drop_first(), c);
    }
}

/// Trimming from the end leaves a prefix.
proof fn lemma_trim_end_prefix(s: Seq<char>, strip: Strip)
    ensures
        trim_end_of(s, strip).len() <= s.len(),
        trim_end_of(s, strip) == s.take(trim_end_of(s, strip).len() as int),
    decreases s.len(),
{
    if s.len() > 0 && strip.strips(s.last()) {
        lemma_trim_end_prefix(s.drop_last(), strip);
        let t = trim_end_of(s.drop_last(), strip);
        assert(s.drop_last().take(t.len() as int) =~= s.take(t.len() as int));
    } else {
        assert(s.take(s.len() as int) =~= s);
    }
}

/// Every request stays below the served folder's root in one respect: the
/// file path it names never starts with `/`, so joining it to the folder
/// cannot replace the folder by an absolute path.
pub proof fn lemma_relative_file_is_relative(target: Seq<char>)
    ensures
        relative_file_of(target).len() == 0 || relative_file_of(target)[0] != '/',
{
    lemma_trim_start_first(target, '/');
    let start = trim_start_of(target, Strip::Char('/'));
    if ends_with_char(target, '/') {
        reveal_strlit("index.html");
        if start.len() == 0 {
            assert(relative_file_of(target)[0] == 'i');
        } else {
            assert(relative_file_of(target)[0] == start[0]);
        }
    } else {
        lemma_trim_end_prefix(start, Strip::Char('/'));
        let r = trim_end_of(start, Strip::Char('/'));
        if r.len() > 0 {
            assert(r[0] == start.take(r.len() as int)[0]);
        }
    }
}

/// Whether the server can handle this request header.
pub fn request_is_well_formed(header: &[u8]) -> (ok: bool)
    ensures
        ok == request_is_answerable(header@),
{
    match decode_text(header) {
        None => false,
        Some(text) => {
            if text.len() == 0 {
                return true;
            }
            let space = vec![' '];
            assert(space@ =~= seq![' ']);
            let fields = split_chars(text.as_slice(), space.as_slice());
            assert(views(fields@).len() == fields@.len());
            fields.len() >= 3
        },
    }
}

/// The file a request asks for, relative to the served folder, or `None`
/// for an empty request.
pub fn request_file(header: &[u8]) -> (file: Option<Vec<char>>)
    requires
        request_is_answerable(header@),
    ensures
        file is None <==> request_text(header@).len() == 0,
        file matches Some(f) ==> f@ == relative_file_of(request_target_of(request_text(header@))),
{
    let text = match decode_text(header) {
        Some(t) => t,
        None => {
            proof {
                assert(false);
            }
            return None;
        },
    };
    if text.len() == 0 {
        return None;
    }
    let space = vec![' '];
    assert(space@ =~= seq![' ']);
    let fields = split_chars(text.as_slice(), space.as_slice());
    proof {
        assert(views(fields@).len() == fields@.len());
        assert(views(fields@)[1] == fields@[1]@);
    }
    let path = trim_chars(fields[1].as_slice(), Strip::WhiteSpace, true);
    let escaped_space = vec!['%', '2', '0'];
    let space_char = vec![' '];
    assert(escaped_space@ =~= seq!['%', '2', '0']);
    assert(space_char@ =~= seq![' ']);
    let path = replace_chars(path.as_slice(), escaped_space.as_slice(), space_char.as_slice());
    if path.len() > 0 && path[path.len() - 1] == '/' {
        let dir = trim_chars(path.as_slice(), Strip::Char('/'), false);
        let index = chars_of("index.html");
        Some(concat_chars(dir.as_slice(), index.as_slice()))
    } else {
        Some(trim_chars(path.as_slice(), Strip::Char('/'), true))
    }
}

/// The path that `Path::join` of std gives for a base and a relative path,
/// read back as text (the separator is the one of the platform the program
/// was built for).
pub uninterp spec fn joined_path(base: Seq<char>, relative: Seq<char>) -> Seq<char>;

/// The extension that `Path::extension` of std finds in a path.
pub uninterp spec fn path_extension_of(path: Seq<char>) -> Option<Seq<char>>;

/// The path that `Path::with_extension` of std gives for a path and an
/// extension, read back as text.
pub uninterp spec fn path_with_extension_of(path: Seq<char>, extension: Seq<char>) -> Seq<char>;

/// The character sequences of an optional string.
pub open spec fn option_view(o: Option<String>) -> Option<Seq<char>> {
    match o {
        Some(s) => Some(s@),
        None => None,
    }
}

/// Calls `Path::join` of std on two string paths and reads the result back
/// as text (exactly, since both parts are text): the result is
/// `joined_path` of the two.
#[verifier::external_body]
fn join_path(base: &str, relative: &str) -> (joined: String)
    ensures
        joined@ == joined_path(base@, relative@),
{
    std::path::Path::new(base).join(relative).to_string_lossy().into_owned()
}

/// Calls `Path::extension` of std on a string path: the result is
/// `path_extension_of` the path; when there is one, it is the part of the
/// file name after its last `.`, so it holds no `.`.
#[verifier::external_body]
fn path_extension(path: &str) -> (extension: Option<String>)
    ensures
        option_view(extension) == path_extension_of(path@),
        extension matches Some(e) ==> !e@.contains('.'),
{
    match std::path::Path::new(path).extension() {
        Some(e) => e.to_str().map(String::from),
        None => None,
    }
}

/// Calls `Path::with_extension` of std on a string path and reads the
/// result back as text: the result is `path_with_extension_of` the two. An
/// extension holding a path separator is left out, as std may refuse it.
#[verifier::external_body]
fn path_with_extension(path: &str, extension: &str) -> (changed: String)
    requires
        !extension@.contains('/'),
        !extension@.contains('\\'),
    ensures
        changed@ == path_with_extension_of(path@, extension@),
{
    std::path::Path::new(path).with_extension(extension).to_string_lossy().into_owned()
}

/// The file on disk that answers a request, and the extension that decides
/// its MIME type.
pub struct ServedFile {
    /// The path of the file.
    pub path: String,
    /// The extension of the file name as the platform's path rules found it,
    /// if any.
    pub found_extension: Option<String>,
    /// The extension by which the file is served: the one found, else `html`.
    pub extension: String,
}

/// The extension by which a file is served: the one its name has, else
/// `html`.
pub open spec fn served_extension_of(found: Option<Seq<char>>) -> Seq<char> {
    match found {
        Some(e) => e,
        None => "html"@,
    }
}

/// The path of the file served for a relative path under a folder: the
/// folder joined with the path, and, when the file name has no extension,
/// that path with the extension `html`.
pub open spec fn served_path_of(root: Seq<char>, relative: Seq<char>) -> Seq<char> {
    let joined = joined_path(root, relative);
    if path_extension_of(joined) is Some {
        joined
    } else {
        path_with_extension_of(joined, "html"@)
    }
}

/// Locates the file for a relative path under the served folder: the
/// folder joined with the path, and, when the file name has no extension,
/// the same path with `.html` added.
pub fn locate_file(root: &str, relative: &[char]) -> (file: ServedFile)
    ensures
        option_view(file.found_extension) == path_extension_of(joined_path(root@, relative@)),
        file.path@ == served_path_of(root@, relative@),
        file.extension@ == served_extension_of(path_extension_of(joined_path(root@, relative@))),
        file.found_extension matches Some(e) ==> !e@.contains('.'),
{
    let relative = string_of(relative);
    let joined = join_path(root, relative.as_str());
    let found = path_extension(joined.as_str());
    match found {
        Some(e) => {
            let extension = e.clone();
            ServedFile { path: joined, found_extension: Some(e), extension }
        },
        None => {
            proof {
                reveal_strlit("html");
            }
            let path = path_with_extension(joined.as_str(), "html");
            ServedFile { path, found_extension: None, extension: String::from_str("html") }
        },
    }
}

/// The head of a `200 OK` response: its MIME type, its length, and any
/// extra header lines (each introduced by `\r\n`).
pub open spec fn ok_head_of(mime: Seq<char>, length: nat, extra_headers: Seq<char>) -> Seq<char> {
    "HTTP/1.1 200 OK\r\nContent-type: "@ + mime + "\r\nContent-Length: "@ + decimal_of(length)
        + extra_headers + "\r\n\r\n"@
}

/// The whole response to a request for a file that cannot be read, with
/// any extra header lines (each introduced by `\r\n`).
pub open spec fn not_found_of(extra_headers: Seq<char>) -> Seq<char> {
    "HTTP/1.1 404 NOT FOUND"@ + extra_headers + "\r\n\r\n"@
}

/// What the server sends back for a request: a head, then (for a file that
/// was read) the file's bytes and, when `append_script` holds, the reload
/// script.
pub struct Response {
    pub head: String,
    pub append_script: bool,
}

/// Whether the reload script goes after a file: only for HTML, and only when
/// reloading is on.
pub open spec fn injects_script(extension: Seq<char>, reload: bool) -> bool {
    reload && extension == "html"@
}

/// Plans the response for a file that was read (`Some` of its length) or
/// could not be read (`None`). The announced length counts the reload script
/// exactly when it is sent.
pub fn plan_response(
    extension: &str,
    file_length: Option<usize>,
    reload: bool,
    script_length: usize,
    extra_headers: &str,
) -> (response: Response)
    requires
        file_length matches Some(n) ==> n + script_length <= usize::MAX,
    ensures
        file_length is None ==> response.head@ == not_found_of(extra_headers@)
            && !response.append_script,
        file_length matches Some(n) ==> {
            &&& response.append_script == injects_script(extension@, reload)
            &&& response.head@ == ok_head_of(
                known_mime_type(extension@),
                (n + if response.append_script {
                    script_length
                } else {
                    0
                }) as nat,
                extra_headers@,
            )
        },
{
    match file_length {
        None => {
            let mut head = String::from_str("HTTP/1.1 404 NOT FOUND");
            head.append(extra_headers);
            head.append("\r\n\r\n");
            Response { head, append_script: false }
        },
        Some(n) => {
            let content_type = extension_to_mime_impl(Some(extension));
            let append_script = reload && same_text(extension, "html");
            let content_length = if append_script {
                n + script_length
            } else {
                n
            };
            let mut head = String::from_str("HTTP/1.1 200 OK\r\nContent-type: ");
            head.append(content_type);
            head.append("\r\nContent-Length: ");
            let digits = decimal_chars(content_length as u64);
            let digits = string_of(digits.as_slice());
            head.append(digits.as_str());
            head.append(extra_headers);
            head.append("\r\n\r\n");
            Response { head, append_script }
        },
    }
}

/// The body sent after a `200 OK` head: the file, then the reload script
/// when it is due.
pub open spec fn body_of(contents: Seq<u8>, script: Seq<u8>, append_script: bool) -> Seq<u8> {
    if append_script {
        contents + script
    } else {
        contents
    }
}

/// `v` with the bytes of `more` put after it.
fn push_bytes(v: &mut Vec<u8>, more: &[u8])
    ensures
        final(v)@ == old(v)@ + more@,
{
    let ghost start = v@;
    let mut i: usize = 0;
    while i < more.len()
        invariant
            0 <= i <= more@.len(),
            v@ == start + more@.take(i as int),
        decreases more@.len() - i,
    {
        v.push(more[i]);
        i = i + 1;
        assert(v@ =~= start + more@.take(i as int));
    }
    assert(more@.take(more@.len() as int) =~= more@);
}

/// Every byte the server sends for a request, given the file's contents
/// (`None` when it cannot be read): a `404` head with the extra headers, or
/// a `200` head whose `Content-Length` is exactly the number of bytes that
/// follow it, then the file and, for HTML with reloading on, the script.
pub fn response_bytes(
    extension: &str,
    contents: Option<&[u8]>,
    reload: bool,
    script: &[u8],
    extra_headers: &str,
) -> (bytes: Vec<u8>)
    requires
        contents matches Some(c) ==> c@.len() + script@.len() <= usize::MAX,
    ensures
        contents is None ==> bytes@ == encode_utf8(not_found_of(extra_headers@)),
        contents matches Some(c) ==> {
            let body = body_of(c@, script@, injects_script(extension@, reload));
            bytes@ == encode_utf8(ok_head_of(known_mime_type(extension@), body.len(), extra_headers@))
                + body
        },
{
    match contents {
        None => {
            let plan = plan_response(extension, None, reload, script.len(), extra_headers);
            plan.head.as_str().as_bytes_vec()
        },
        Some(c) => {
            let plan = plan_response(extension, Some(c.len()), reload, script.len(), extra_headers);
            let mut bytes = plan.head.as_str().as_bytes_vec();
            push_bytes(&mut bytes, c);
            if plan.append_script {
                push_bytes(&mut bytes, script);
            }
            proof {
                let body = body_of(c@, script@, injects_script(extension@, reload));
                assert(body.len() == c@.len() + if plan.append_script {
                    script@.len()
                } else {
                    0
                });
            }
            bytes
        },
    }
}

/// The reload script goes after HTML files only, and only when reloading is
/// on: for any other file, or with reloading off, the body is the file alone
/// (so `Content-Length` is the file's length); for HTML with reloading on it
/// is the file, then the script.
pub proof fn lemma_script_only_for_html(
    extension: Seq<char>,
    reload: bool,
    contents: Seq<u8>,
    script: Seq<u8>,
)
    ensures
        (extension != "html"@ || !reload) ==> body_of(
            contents,
            script,
            injects_script(extension, reload),
        ) == contents,
        (extension == "html"@ && reload) ==> body_of(
            contents,
            script,
            injects_script(extension, reload),
        ) == contents + script,
{
}

/// No piece of a split holds the separator.
proof fn lemma_split_pieces_lack_separator(s: Seq<char>, c: char)
    ensures
        forall|i: int|
            0 <= i < split_of(s, seq![c]).len() ==> !(#[trigger] split_of(s, seq![c])[i]).contains(c),
    decreases s.len(),
{
    if s.len() == 0 {
        assert(!Seq::<char>::empty().contains(c));
    } else if crate::text::starts_with(s, seq![c]) {
        lemma_split_pieces_lack_separator(s.skip(1), c);
        assert(!Seq::<char>::empty().contains(c));
        let rest = split_of(s.skip(1), seq![c]);
        assert forall|i: int| 0 <= i < split_of(s, seq![c]).len() implies !(#[trigger] split_of(
            s,
            seq![c],
        )[i]).contains(c) by {
            if i > 0 {
                assert(split_of(s, seq![c])[i] == rest[i - 1]);
            }
        }
    } else {
        let rest = split_of(s.drop_first(), seq![c]);
        lemma_split_pieces_lack_separator(s.drop_first(), c);
        crate::text::lemma_split_nonempty(s.drop_first(), seq![c]);
        assert(s.take(1)[0] == s[0]);
        if s[0] == c {
            assert(s.take(1) =~= seq![c]);
        }
        assert forall|i: int| 0 <= i < split_of(s, seq![c]).len() implies !(#[trigger] split_of(
            s,
            seq![c],
        )[i]).contains(c) by {
            if i == 0 {
                let p = seq![s[0]] + rest[0];
                if p.contains(c) {
                    let k = choose|k: int| 0 <= k < p.len() && p[k] == c;
                    assert(k > 0);
                    assert(rest[0][k - 1] == c);
                }
            } else {
                assert(split_of(s, seq![c])[i] == rest[i]);
            }
        }
    }
}

/// Trimming the start leaves a suffix.
proof fn lemma_trim_start_suffix(s: Seq<char>, strip: Strip)
    ensures
        trim_start_of(s, strip).len() <= s.len(),
        trim_start_of(s, strip) == s.skip(s.len() - trim_start_of(s, strip).len()),
    decreases s.len(),
{
    if s.len() > 0 && strip.strips(s[0]) {
        lemma_trim_start_suffix(s.drop_first(), strip);
        let t = trim_start_of(s.drop_first(), strip);
        assert(s.drop_first().skip(s.drop_first().len() - t.len()) =~= s.skip(s.len() - t.len()));
    } else {
        assert(s.skip(0) =~= s);
    }
}

/// Trimming keeps out what was not there.
proof fn lemma_trim_lacks(s: Seq<char>, strip: Strip, c: char)
    requires
        !s.contains(c),
    ensures
        !trim_of(s, strip).contains(c),
{
    lemma_trim_start_suffix(s, strip);
    let t = trim_start_of(s, strip);
    lemma_trim_end_prefix(t, strip);
    let r = trim_end_of(t, strip);
    if r.contains(c) {
        let k = choose|k: int| 0 <= k < r.len() && r[k] == c;
        assert(r[k] == t.take(r.len() as int)[k]);
        assert(t[k] == s[s.len() - t.len() + k]);
    }
}

/// Turning each `%20` into a space is undone by turning each space back
/// into `%20`, for text that held no space.
pub proof fn lemma_unescape_then_escape(f: Seq<char>)
    requires
        !f.contains(' '),
    ensures
        replace_of(replace_of(f, seq!['%', '2', '0'], seq![' ']), seq![' '], seq!['%', '2', '0'])
            == f,
    decreases f.len(),
{
    let p = seq!['%', '2', '0'];
    let w = seq![' '];
    if f.len() == 0 {
    } else if crate::text::starts_with(f, p) {
        let rest = f.skip(3);
        assert(!rest.contains(' ')) by {
            if rest.contains(' ') {
                let k = choose|k: int| 0 <= k < rest.len() && rest[k] == ' ';
                assert(f[k + 3] == ' ');
            }
        }
        lemma_unescape_then_escape(rest);
        let x = replace_of(rest, p, w);
        assert(replace_of(f, p, w) == w + x);
        let y = w + x;
        assert(y.take(1) =~= w);
        assert(y.skip(1) =~= x);
        assert(replace_of(y, w, p) == p + replace_of(x, w, p));
        assert(f =~= f.take(3) + rest);
    } else {
        let rest = f.drop_first();
        assert(!rest.contains(' ')) by {
            if rest.contains(' ') {
                let k = choose|k: int| 0 <= k < rest.len() && rest[k] == ' ';
                assert(f[k + 1] == ' ');
            }
        }
        lemma_unescape_then_escape(rest);
        let x = replace_of(rest, p, w);
        assert(replace_of(f, p, w) == seq![f[0]] + x);
        let y = seq![f[0]] + x;
        assert(f[0] != ' ');
        assert(y.take(1)[0] == f[0]);
        if crate::text::starts_with(y, w) {
            assert(y.take(1)[0] == w[0]);
        }
        assert(y.drop_first() =~= x);
        assert(replace_of(y, w, p) == seq![f[0]] + replace_of(x, w, p));
        assert(f =~= seq![f[0]] + rest);
    }
}

/// Every `%20` of the request's target field, and nothing else, turns into
/// a space: putting `%20` back for each space of the target gives the
/// field (trimmed) exactly.
pub proof fn lemma_target_escapes_back(text: Seq<char>)
    requires
        split_of(text, seq![' ']).len() >= 2,
    ensures
        replace_of(request_target_of(text), seq![' '], seq!['%', '2', '0']) == trim_of(
            split_of(text, seq![' '])[1],
            Strip::WhiteSpace,
        ),
        !request_target_of(text).contains('%') || trim_of(split_of(text, seq![' '])[1], Strip::WhiteSpace).contains('%'),
{
    lemma_split_pieces_lack_separator(text, ' ');
    let field = split_of(text, seq![' '])[1];
    assert(!field.contains(' '));
    lemma_trim_lacks(field, Strip::WhiteSpace, ' ');
    let f = trim_of(field, Strip::WhiteSpace);
    lemma_unescape_then_escape(f);
    lemma_replace_keeps_out(f, '%');
}

/// Replacing `%20` by spaces brings in no character other than spaces.
proof fn lemma_replace_keeps_out(f: Seq<char>, c: char)
    requires
        c != ' ',
    ensures
        replace_of(f, seq!['%', '2', '0'], seq![' ']).contains(c) ==> f.contains(c),
    decreases f.len(),
{
    let p = seq!['%', '2', '0'];
    let w = seq![' '];
    if f.len() == 0 {
    } else if crate::text::starts_with(f, p) {
        lemma_replace_keeps_out(f.skip(3), c);
        let x = replace_of(f.skip(3), p, w);
        if (w + x).contains(c) {
            let k = choose|k: int| 0 <= k < (w + x).len() && (w + x)[k] == c;
            assert(k > 0);
            assert(x[k - 1] == c);
            let j = choose|j: int| 0 <= j < f.skip(3).len() && f.skip(3)[j] == c;
            assert(f[j + 3] == c);
        }
    } else {
        lemma_replace_keeps_out(f.drop_first(), c);
        let x = replace_of(f.drop_first(), p, w);
        if (seq![f[0]] + x).contains(c) {
            let k = choose|k: int| 0 <= k < (seq![f[0]] + x).len() && (seq![f[0]] + x)[k] == c;
            if k == 0 {
                assert(f[0] == c);
            } else {
                assert(x[k - 1] == c);
                let j = choose|j: int| 0 <= j < f.drop_first().len() && f.drop_first()[j] == c;
                assert(f[j + 1] == c);
            }
        }
    }
}

/// Whether `%20` occurs in `t`.
pub open spec fn has_escaped_space(t: Seq<char>) -> bool {
    exists|i: int| 0 <= i && i + 3 <= t.len() && #[trigger] t[i] == '%' && t[i + 1] == '2' && t[i + 2] == '0'
}

/// After the replacement, a first character other than a space was there
/// before.
proof fn lemma_unescaped_first(g: Seq<char>)
    ensures
        replace_of(g, seq!['%', '2', '0'], seq![' ']).len() > 0 && replace_of(
            g,
            seq!['%', '2', '0'],
            seq![' '],
        )[0] != ' ' ==> {
            &&& g.len() > 0
            &&& !crate::text::starts_with(g, seq!['%', '2', '0'])
            &&& replace_of(g, seq!['%', '2', '0'], seq![' ']) == seq![g[0]] + replace_of(
                g.drop_first(),
                seq!['%', '2', '0'],
                seq![' '],
            )
        },
{
}

/// No `%20` is left once each has been turned into a space.
pub proof fn lemma_no_escaped_space_left(f: Seq<char>)
    ensures
        !has_escaped_space(replace_of(f, seq!['%', '2', '0'], seq![' '])),
    decreases f.len(),
{
    let p = seq!['%', '2', '0'];
    let w = seq![' '];
    let r = replace_of(f, p, w);
    if f.len() == 0 {
    } else if crate::text::starts_with(f, p) {
        lemma_no_escaped_space_left(f.skip(3));
        let x = replace_of(f.skip(3), p, w);
        assert(r == w + x);
        if has_escaped_space(r) {
            let i = choose|i: int|
                0 <= i && i + 3 <= r.len() && #[trigger] r[i] == '%' && r[i + 1] == '2' && r[i + 2]
                    == '0';
            assert(i > 0);
            assert(x[i - 1] == '%' && x[i] == '2' && x[i + 1] == '0');
            assert(has_escaped_space(x));
        }
    } else {
        let g = f.drop_first();
        lemma_no_escaped_space_left(g);
        let x = replace_of(g, p, w);
        assert(r == seq![f[0]] + x);
        if has_escaped_space(r) {
            let i = choose|i: int|
                0 <= i && i + 3 <= r.len() && #[trigger] r[i] == '%' && r[i + 1] == '2' && r[i + 2]
                    == '0';
            if i > 0 {
                assert(x[i - 1] == '%' && x[i] == '2' && x[i + 1] == '0');
                assert(has_escaped_space(x));
            } else {
                assert(f[0] == '%');
                assert(x[0] == '2');
                lemma_unescaped_first(g);
                assert(g[0] == '2');
                let y = replace_of(g.drop_first(), p, w);
                assert(x == seq![g[0]] + y);
                assert(y[0] == '0');
                lemma_unescaped_first(g.drop_first());
                assert(g.drop_first()[0] == '0');
                assert(f[1] == '2' && f[2] == '0');
                assert(f.take(3) =~= p);
            }
        }
    }
}

/// Every `%20` of the request target turns into a space: none is left.
pub proof fn lemma_target_has_no_escaped_space(text: Seq<char>)
    ensures
        !has_escaped_space(request_target_of(text)),
{
    lemma_no_escaped_space_left(trim_of(split_of(text, seq![' '])[1], Strip::WhiteSpace));
}

/// The file a target names: for a target ending in `/`, the target without
/// its leading slashes followed by `index.html`; for any other target, a
/// path that neither starts nor ends with `/`.
pub proof fn lemma_relative_file_shape(target: Seq<char>)
    ensures
        ends_with_char(target, '/') ==> {
            let r = relative_file_of(target);
            &&& r.len() >= 10
            &&& r.skip(r.len() - 10) == "index.html"@
            &&& r.take(r.len() - 10) == trim_start_of(target, Strip::Char('/'))
        },
        !ends_with_char(target, '/') ==> {
            let r = relative_file_of(target);
            r.len() == 0 || (r[0] != '/' && r.last() != '/')
        },
{
    crate::text::lemma_trim_ends(target, Strip::Char('/'));
    if ends_with_char(target, '/') {
        reveal_strlit("index.html");
        let t = trim_start_of(target, Strip::Char('/'));
        let r = t + "index.html"@;
        assert(r.skip(r.len() - 10) =~= "index.html"@);
        assert(r.take(r.len() - 10) =~= t);
    }
}

} // verus!
