//! The calls into std and outside crates that the library makes, each behind
//! one trusted item whose contract restates what that function is documented
//! to do.

use vstd::prelude::*;

verus! {

/// A character that is never a separator other than `/`, never part of a
/// drive or share prefix, and never makes a `.` or `..` component: an ASCII
/// letter or digit, `_`, `-`, a space, or `/` itself.
pub open spec fn plain_path_char(c: char) -> bool {
    ('a' <= c <= 'z') || ('A' <= c <= 'Z') || ('0' <= c <= '9') || c == '_' || c == '-' || c
        == ' ' || c == '/'
}

/// The position of the last `/` of a text, or -1 when it has none.
pub open spec fn last_slash(s: Seq<char>) -> int
    decreases s.len(),
{
    if s.len() == 0 {
        -1
    } else if s.last() == '/' {
        s.len() - 1
    } else {
        last_slash(s.drop_last())
    }
}

/// The last `/` of a text lies within it.
pub proof fn last_slash_bounds(s: Seq<char>)
    ensures
        -1 <= last_slash(s) < s.len(),
        last_slash(s) >= 0 ==> s[last_slash(s)] == '/',
    decreases s.len(),
{
    if s.len() > 0 && s.last() != '/' {
        last_slash_bounds(s.drop_last());
    }
}

/// A nonempty path of plain characters that does not begin with `//`, does
/// not end with `/`, and whose final `/` does not follow another `/`: its
/// final component is the text after its last `/`.
pub open spec fn simple_path(s: Seq<char>) -> bool {
    &&& s.len() > 0
    &&& forall|i: int| 0 <= i < s.len() ==> plain_path_char(#[trigger] s[i])
    &&& !(s.len() >= 2 && s[0] == '/' && s[1] == '/')
    &&& last_slash(s) < s.len() - 1
    &&& last_slash(s) > 0 ==> s[last_slash(s) - 1] != '/'
}

/// A simple path without its final component: empty for a single component,
/// the root `/` for a component directly under it, else the text before the
/// last `/`.
pub open spec fn path_head(s: Seq<char>) -> Seq<char> {
    if last_slash(s) < 0 {
        Seq::empty()
    } else if last_slash(s) == 0 {
        seq!['/']
    } else {
        s.subrange(0, last_slash(s))
    }
}

/// A path on which every platform's path rules agree: it holds no `\`, does
/// not begin with `//`, and its second character is not `:` (no drive or
/// share prefix, and `/` is its only separator).
pub open spec fn portable_path(s: Seq<char>) -> bool {
    &&& forall|i: int| 0 <= i < s.len() ==> #[trigger] s[i] != '\\'
    &&& !(s.len() >= 2 && s[0] == '/' && s[1] == '/')
    &&& !(s.len() >= 2 && s[1] == ':')
}

/// A base path that a relative part is adjoined to plainly: it does not begin
/// with `\` or `//`, does not end with `\`, and is not a bare drive such as
/// `C:`.
pub open spec fn plain_base(s: Seq<char>) -> bool {
    &&& !(s.len() > 0 && s[0] == '\\')
    &&& !(s.len() >= 2 && s[0] == '/' && s[1] == '/')
    &&& !(s.len() > 0 && s.last() == '\\')
    &&& !(s.len() == 2 && s[1] == ':')
}

/// A nonempty relative part: it begins with no separator and holds no drive.
pub open spec fn relative_part(s: Seq<char>) -> bool {
    &&& s.len() > 0
    &&& s[0] != '/'
    &&& s[0] != '\\'
    &&& !(s.len() >= 2 && s[1] == ':')
}

/// `t` is `part` adjoined to `base`: the part alone after an empty base; the
/// two run together after a base that ends with `/`; otherwise the two with a
/// separator between them: `/`, or `\` where that is the platform's separator.
pub open spec fn joined_path(t: Seq<char>, base: Seq<char>, part: Seq<char>) -> bool {
    if base.len() == 0 {
        t == part
    } else if base.last() == '/' {
        t == base + part
    } else {
        t == base + seq!['/'] + part || t == base + seq!['\\'] + part
    }
}

/// `std::path::Path::join`, on paths given as text. Claimed, as its
/// documentation and `PathBuf::push` give it (a relative path is adjoined to
/// the base, with a separator only where the base does not end with one:
/// `"/etc"` joined with `"passwd"` is `"/etc/passwd"`): a relative part joined
/// to a plain base is `joined_path`. Absolute parts, which replace the base,
/// and bases with prefixes or a trailing `\` are left unsaid.
#[verifier::external_body]
pub(crate) fn path_join(base: &str, part: &str) -> (t: String)
    ensures
        plain_base(base@) && relative_part(part@) ==> joined_path(t@, base@, part@),
{
    std::path::Path::new(base).join(part).to_string_lossy().into_owned()
}

/// The text after the last `/` of a path (all of it when it has none).
pub open spec fn final_component(s: Seq<char>) -> Seq<char> {
    s.subrange(last_slash(s) + 1, s.len() as int)
}

/// The file name of a path separated by `/`: its last component once trailing
/// separators and `.` components are passed over; none when that is `..`, or
/// when nothing but a root or `.` is left.
pub open spec fn file_name_of(s: Seq<char>) -> Option<Seq<char>>
    decreases s.len(),
{
    if s.len() == 0 {
        None
    } else if s.last() == '/' {
        file_name_of(s.drop_last())
    } else if final_component(s) == "."@ {
        if last_slash(s) < 0 {
            None
        } else {
            proof {
                last_slash_bounds(s);
            }
            file_name_of(s.subrange(0, last_slash(s)))
        }
    } else if final_component(s) == ".."@ {
        None
    } else {
        Some(final_component(s))
    }
}

/// `std::path::Path::file_name`, on a path given as text. Claimed, as its
/// documentation gives it (`"tmp/foo.txt"` and `"foo.txt/."` have the name
/// `"foo.txt"`, `"/usr/bin/"` has `"bin"`, `"foo.txt/.."` and `"/"` have
/// none): a portable path's file name is `file_name_of`. Paths with `\` or a
/// prefix, whose reading differs between platforms, are left unsaid.
#[verifier::external_body]
pub(crate) fn path_file_name(path: &str) -> (name: Option<String>)
    ensures
        portable_path(path@) ==> match file_name_of(path@) {
            Some(n) => name is Some && name->0@ == n,
            None => name is None,
        },
{
    match std::path::Path::new(path).file_name() {
        Some(n) => Some(n.to_string_lossy().into_owned()),
        None => None,
    }
}

/// The position of the last `.` of a text, or -1 when it has none.
pub open spec fn last_dot(s: Seq<char>) -> int
    decreases s.len(),
{
    if s.len() == 0 {
        -1
    } else if s.last() == '.' {
        s.len() - 1
    } else {
        last_dot(s.drop_last())
    }
}

/// The extension of a file name: the text after its last `.`; none when it
/// has no `.`, or only a leading one.
pub open spec fn file_extension(name: Seq<char>) -> Option<Seq<char>> {
    if last_dot(name) <= 0 {
        None
    } else {
        Some(name.subrange(last_dot(name) + 1, name.len() as int))
    }
}

/// The extension of a path separated by `/`: that of its file name, if any.
pub open spec fn extension_of(s: Seq<char>) -> Option<Seq<char>> {
    match file_name_of(s) {
        Some(n) => file_extension(n),
        None => None,
    }
}

/// A character that separates path components on some platform: `/`, or `\`.
pub open spec fn is_separator(c: char) -> bool {
    c == '/' || c == '\\'
}

/// The position of the last `/` or `\` of a text, or -1 when it has none.
pub open spec fn last_separator(s: Seq<char>) -> int
    decreases s.len(),
{
    if s.len() == 0 {
        -1
    } else if is_separator(s.last()) {
        s.len() - 1
    } else {
        last_separator(s.drop_last())
    }
}

/// The text after the last `/` or `\` of a path (all of it when it has none).
pub open spec fn final_part(s: Seq<char>) -> Seq<char> {
    s.subrange(last_separator(s) + 1, s.len() as int)
}

/// A path whose extension every platform reads alike: it does not begin with
/// two separators (no share or device prefix), and its final part (after its
/// last `/` or `\`) is not empty, is not `..`, holds no `:`, and has a `.`
/// after its first character. Drive prefixes such as `C:` and `\`
/// separators are allowed.
pub open spec fn dotted_final_part(s: Seq<char>) -> bool {
    &&& !(s.len() >= 2 && is_separator(s[0]) && is_separator(s[1]))
    &&& last_separator(s) < s.len() - 1
    &&& final_part(s) != ".."@
    &&& forall|i: int| 0 <= i < final_part(s).len() ==> #[trigger] final_part(s)[i] != ':'
    &&& last_dot(final_part(s)) > 0
}

/// `std::path::Path::extension`, on a path given as text. Claimed, as its
/// documentation gives it (the part of the file name after its final `.`;
/// none without a file name or a `.`, or for a name that begins with its only
/// `.`): a portable path's extension is `extension_of`; a path whose final
/// part is a dotted name (`dotted_final_part`, such as `C:\renders\0001.png`)
/// has the extension of that final part, the same on every platform; and a
/// path without any `.` has none. Other paths are left unsaid.
#[verifier::external_body]
pub(crate) fn path_extension(path: &str) -> (ext: Option<String>)
    ensures
        portable_path(path@) ==> match extension_of(path@) {
            Some(e) => ext is Some && ext->0@ == e,
            None => ext is None,
        },
        dotted_final_part(path@) ==> ext is Some && Some(ext->0@) == file_extension(
            final_part(path@),
        ),
        !path@.contains('.') ==> ext is None,
{
    match std::path::Path::new(path).extension() {
        Some(e) => Some(e.to_string_lossy().into_owned()),
        None => None,
    }
}

/// `std::path::Path::parent`, on a path given as text: the path without its
/// final component. Claimed, as its documentation gives it (`"/foo/bar"` has
/// parent `"/foo"`, `"/foo"` has `"/"`, `"foo"` has `""`, `""` has none): a
/// simple path has the parent `path_head`; the empty path has none; and any
/// parent's text is a prefix of the path's text (std returns a sub-slice that
/// starts where the path does). Paths with `.` or `..` components, trailing or
/// doubled separators, or prefixes are left unsaid beyond that prefix.
#[verifier::external_body]
pub(crate) fn path_parent(path: &str) -> (parent: Option<String>)
    ensures
        parent matches Some(p) ==> p@.len() <= path@.len() && p@ == path@.subrange(
            0,
            p@.len() as int,
        ),
        simple_path(path@) ==> parent is Some && parent->0@ == path_head(path@),
        path@.len() == 0 ==> parent is None,
{
    match std::path::Path::new(path).parent() {
        Some(p) => Some(p.to_string_lossy().into_owned()),
        None => None,
    }
}

} // verus!

verus! {

// ---------------------------------------------------------------- text forms

/// The decimal digit `d` (0 to 9) as a character.
pub open spec fn digit_char(d: int) -> char {
    (48 + d) as char
}

/// The hexadecimal digit `d` (0 to 15) in lower case.
pub open spec fn hex_lower(d: int) -> char {
    if d < 10 { (48 + d) as char } else { (87 + d) as char }
}

/// The hexadecimal digit `d` (0 to 15) in upper case.
pub open spec fn hex_upper(d: int) -> char {
    if d < 10 { (48 + d) as char } else { (55 + d) as char }
}

/// The decimal text of a natural number, without leading zeros.
pub open spec fn decimal_text(n: nat) -> Seq<char>
    decreases n,
{
    if n < 10 {
        seq![digit_char(n as int)]
    } else {
        decimal_text(n / 10).push(digit_char((n % 10) as int))
    }
}

/// The decimal text of an integer, with a leading `-` when it is negative.
pub open spec fn signed_decimal_text(i: int) -> Seq<char> {
    if i < 0 {
        seq!['-'] + decimal_text((-i) as nat)
    } else {
        decimal_text(i as nat)
    }
}

/// `u64`'s `Display` (through `ToString::to_string`): its decimal text.
#[verifier::external_body]
pub(crate) fn u64_text(n: u64) -> (t: String)
    ensures
        t@ == decimal_text(n as nat),
{
    n.to_string()
}

/// `i32`'s `Display` (through `ToString::to_string`): its decimal text, signed.
#[verifier::external_body]
pub(crate) fn i32_text(n: i32) -> (t: String)
    ensures
        t@ == signed_decimal_text(n as int),
{
    n.to_string()
}

// ---------------------------------------------------------------- uuid

/// What `uuid::Uuid::parse_str` reads from a text: the 128 bits of the
/// identifier, or nothing when the text is not a UUID in one of the accepted
/// forms.
pub uninterp spec fn uuid_parse(text: Seq<char>) -> Option<u128>;

/// The 36-character hyphenated form of an identifier: its 32 hexadecimal digits
/// in lower case, most significant first, in groups of 8, 4, 4, 4 and 12
/// separated by `-`.
pub open spec fn uuid_text(id: u128) -> Seq<char> {
    Seq::new(
        36,
        |i: int|
            if i == 8 || i == 13 || i == 18 || i == 23 {
                '-'
            } else {
                let k = if i < 8 {
                    i
                } else if i < 13 {
                    i - 1
                } else if i < 18 {
                    i - 2
                } else if i < 23 {
                    i - 3
                } else {
                    i - 4
                };
                hex_lower((id as int / vstd::arithmetic::power2::pow2((4 * (31 - k)) as nat) as int) % 16)
            },
    )
}

#[verifier::external_type_specification]
#[verifier::external_body]
pub struct ExUuidError(uuid::Error);

/// `uuid::Uuid::parse_str`, keeping the identifier's 128 bits
/// (`Uuid::as_u128`). Claimed: it succeeds exactly when `uuid_parse` reads an
/// identifier from the text, and then gives that identifier.
#[verifier::external_body]
pub(crate) fn parse_uuid(text: &str) -> (r: Result<u128, uuid::Error>)
    ensures
        match r {
            Ok(id) => uuid_parse(text@) == Some(id),
            Err(_) => uuid_parse(text@) is None,
        },
{
    match uuid::Uuid::parse_str(text) {
        Ok(u) => Ok(u.as_u128()),
        Err(e) => Err(e),
    }
}

/// The message (`Display`) of the error with which `uuid::Uuid::parse_str`
/// refuses a text.
pub uninterp spec fn uuid_error_message(text: Seq<char>) -> Seq<char>;

/// The debug form (`format!("{e:?}")`) of the error with which
/// `uuid::Uuid::parse_str` refuses a text.
pub uninterp spec fn uuid_error_debug_text(text: Seq<char>) -> Seq<char>;

/// The message of the `uuid::Error` that `Uuid::parse_str` gives for a text it
/// refuses (the error's `Display`). Claimed: it is `uuid_error_message` of the
/// text; the error, and so its message, depends on the text alone.
#[verifier::external_body]
pub(crate) fn uuid_error_text(text: &str) -> (m: String)
    requires
        uuid_parse(text@) is None,
    ensures
        m@ == uuid_error_message(text@),
{
    match uuid::Uuid::parse_str(text) {
        Err(e) => e.to_string(),
        Ok(_) => String::new(),
    }
}

/// The debug form of the `uuid::Error` that `Uuid::parse_str` gives for a
/// text it refuses (`format!("{e:?}")`). Claimed: it is
/// `uuid_error_debug_text` of the text.
#[verifier::external_body]
pub(crate) fn uuid_error_debug(text: &str) -> (m: String)
    requires
        uuid_parse(text@) is None,
    ensures
        m@ == uuid_error_debug_text(text@),
{
    match uuid::Uuid::parse_str(text) {
        Err(e) => format!("{e:?}"),
        Ok(_) => String::new(),
    }
}

/// `Uuid::from_u128(id).to_string()`: the hyphenated lower-case form. Claimed:
/// the text is `uuid_text(id)`, and `Uuid::parse_str` reads it back as `id`
/// (the hyphenated form is one of the forms it accepts).
#[verifier::external_body]
pub(crate) fn uuid_to_string(id: u128) -> (t: String)
    ensures
        t@ == uuid_text(id),
        uuid_parse(t@) == Some(id),
{
    uuid::Uuid::from_u128(id).to_string()
}

// ---------------------------------------------------------------- libp2p

/// What `libp2p::PeerId`'s `from_str` reads from a text: the bytes of the peer
/// id (`PeerId::to_bytes`, its multihash), or nothing when the text is not the
/// base-58 form of a supported multihash.
pub uninterp spec fn peer_id_parse(text: Seq<char>) -> Option<Seq<u8>>;

/// `libp2p::PeerId::from_str`, keeping the parsed id's bytes. Claimed: it
/// succeeds exactly when `peer_id_parse` reads an id from the text, and then
/// gives that id's bytes (the parse decodes base 58 and checks the multihash,
/// a function of the text alone).
#[verifier::external_body]
pub(crate) fn parse_peer_id(text: &str) -> (r: Option<Vec<u8>>)
    ensures
        match r {
            Some(b) => peer_id_parse(text@) == Some(b@),
            None => peer_id_parse(text@) is None,
        },
{
    match text.parse::<libp2p::PeerId>() {
        Ok(p) => Some(p.to_bytes()),
        Err(_) => None,
    }
}

// ---------------------------------------------------------------- semver

/// What `semver::Version::parse` reads from a text: major, minor and patch
/// numbers, pre-release and build texts; nothing when the text is not a
/// version.
pub uninterp spec fn version_parse(text: Seq<char>) -> Option<(u64, u64, u64, Seq<char>, Seq<char>)>;

#[verifier::external_type_specification]
#[verifier::external_body]
pub struct ExSemverError(semver::Error);

/// `semver::Version::parse`, with the parsed version's parts copied out.
/// Claimed: it succeeds exactly when `version_parse` reads a version from the
/// text, and then gives those parts.
#[verifier::external_body]
pub(crate) fn parse_version(text: &str) -> (r: Result<crate::models::Version, semver::Error>)
    ensures
        match r {
            Ok(v) => version_parse(text@) == Some((v.major, v.minor, v.patch, v.pre@, v.build@)),
            Err(_) => version_parse(text@) is None,
        },
{
    match semver::Version::parse(text) {
        Ok(v) => Ok(crate::models::Version {
            major: v.major,
            minor: v.minor,
            patch: v.patch,
            pre: v.pre.as_str().to_string(),
            build: v.build.as_str().to_string(),
        }),
        Err(e) => Err(e),
    }
}

// ---------------------------------------------------------------- maud

/// A character as HTML text: `&`, `<`, `>` and `"` become entities.
pub open spec fn html_escape_char(c: char) -> Seq<char> {
    if c == '&' {
        "&amp;"@
    } else if c == '<' {
        "&lt;"@
    } else if c == '>' {
        "&gt;"@
    } else if c == '"' {
        "&quot;"@
    } else {
        seq![c]
    }
}

/// A text as HTML text, character by character.
pub open spec fn html_escape(s: Seq<char>) -> Seq<char>
    decreases s.len(),
{
    if s.len() == 0 {
        Seq::empty()
    } else {
        html_escape_char(s[0]) + html_escape(s.drop_first())
    }
}

/// `maud::Render::render_to` on a `str`, into an empty buffer: maud's escaping
/// of text spliced into markup. Claimed: the buffer then holds the text with
/// `&`, `<`, `>` and `"` replaced by `&amp;`, `&lt;`, `&gt;` and `&quot;`, all
/// other characters unchanged (maud's documented escaping).
#[verifier::external_body]
pub(crate) fn html_text(s: &str) -> (t: String)
    ensures
        t@ == html_escape(s@),
{
    let mut out = String::new();
    maud::Render::render_to(s, &mut out);
    out
}

// ---------------------------------------------------------------- serde_json

/// A character inside a JSON string literal as serde_json writes it: quote and
/// backslash are escaped, the control characters below 0x20 become `\b`, `\t`,
/// `\n`, `\f`, `\r` or `\u00xx` (lower-case hex), everything else is kept.
pub open spec fn json_escape_char(c: char) -> Seq<char> {
    let n = c as int;
    if c == '"' {
        seq!['\\', '"']
    } else if c == '\\' {
        seq!['\\', '\\']
    } else if n == 8 {
        seq!['\\', 'b']
    } else if n == 9 {
        seq!['\\', 't']
    } else if n == 10 {
        seq!['\\', 'n']
    } else if n == 12 {
        seq!['\\', 'f']
    } else if n == 13 {
        seq!['\\', 'r']
    } else if n < 32 {
        seq!['\\', 'u', '0', '0', hex_lower(n / 16), hex_lower(n % 16)]
    } else {
        seq![c]
    }
}

pub open spec fn json_escape(s: Seq<char>) -> Seq<char>
    decreases s.len(),
{
    if s.len() == 0 {
        Seq::empty()
    } else {
        json_escape_char(s[0]) + json_escape(s.drop_first())
    }
}

/// A text as a JSON string literal.
pub open spec fn json_string(s: Seq<char>) -> Seq<char> {
    seq!['"'] + json_escape(s) + seq!['"']
}

/// `serde_json::to_string` on a `str`. Claimed: the result is the text as a
/// JSON string literal, escaped as serde_json's writer escapes (serialising a
/// `str` does not fail).
#[verifier::external_body]
pub(crate) fn json_quote(s: &str) -> (t: String)
    ensures
        t@ == json_string(s@),
{
    serde_json::to_string(s).unwrap_or_default()
}

// ---------------------------------------------------------------- urlencoding

/// A byte is left as it is in a URL when it is an ASCII letter or digit, or
/// one of `-`, `.`, `_`, `~`.
pub open spec fn url_unreserved(b: u8) -> bool {
    (48 <= b <= 57) || (65 <= b <= 90) || (97 <= b <= 122) || b == 45 || b == 46 || b == 95 || b
        == 126
}

/// Bytes percent-encoded: each reserved byte becomes `%` and two upper-case
/// hexadecimal digits.
pub open spec fn url_encode_bytes(b: Seq<u8>) -> Seq<char>
    decreases b.len(),
{
    if b.len() == 0 {
        Seq::empty()
    } else {
        (if url_unreserved(b[0]) {
            seq![b[0] as char]
        } else {
            seq!['%', hex_upper(b[0] as int / 16), hex_upper(b[0] as int % 16)]
        }) + url_encode_bytes(b.drop_first())
    }
}

/// `urlencoding::encode`: percent-encodes every byte of the text's UTF-8 form
/// except ASCII letters, digits and `-`, `_`, `.`, `~` (its documented rule),
/// with upper-case hexadecimal digits.
#[verifier::external_body]
pub(crate) fn url_encode(s: &str) -> (t: String)
    ensures
        t@ == url_encode_bytes(vstd::utf8::encode_utf8(s@)),
{
    urlencoding::encode(s).into_owned()
}

} // verus!
