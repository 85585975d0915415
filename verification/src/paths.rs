//! Paths of video files: which of them the viewer opens, the title of their
//! tab, and the media pipeline that plays them.
//!
//! A path is handled as text. Bytes of a file name that are no text reach
//! this module as the replacement character, which no rule below speaks of.
//!
//! How a path falls into components depends on the platform. Windows knows
//! drive letters and takes a backslash for a slash; elsewhere both are
//! ordinary characters. [`is_file_name_of`] says which file names a path can
//! have under either reading, and [`is_joined`] what can become of two paths;
//! the contracts rest on these two.

use vstd::prelude::*;

use crate::text::{replace_char, replaced, replacing_touches_one_character};

verus! {

/// The character parts the components of a path, on Windows at least.
pub open spec fn is_separator(c: char) -> bool {
    c == '/' || c == '\\'
}

/// The path begins with two separators. On Windows it then names a share or a
/// device.
pub open spec fn has_network_prefix(path: Seq<char>) -> bool {
    path.len() >= 2 && is_separator(path[0]) && is_separator(path[1])
}

/// The path begins with `\\?\`. On Windows what follows is taken as it is
/// written: only a backslash parts components.
pub open spec fn is_verbatim(path: Seq<char>) -> bool {
    begins_with(path, seq!['\\', '\\', '?', '\\'])
}

/// The path begins with a letter and a colon, which on Windows name a drive.
pub open spec fn has_drive(path: Seq<char>) -> bool {
    &&& path.len() >= 2
    &&& ('a' <= path[0] && path[0] <= 'z') || ('A' <= path[0] && path[0] <= 'Z')
    &&& path[1] == ':'
}

/// The path behind its drive, with slashes for backslashes: what Windows takes
/// the path for when it splits it into components.
pub open spec fn windows_form(path: Seq<char>) -> Seq<char> {
    replaced(
        if has_drive(path) {
            path.skip(2)
        } else {
            path
        },
        '\\',
        '/',
    )
}

/// A path that every platform reads in the same way: it holds no backslash and
/// no drive, and does not begin with two slashes.
pub open spec fn is_portable(path: Seq<char>) -> bool {
    &&& !path.contains('\\')
    &&& !has_drive(path)
    &&& !has_network_prefix(path)
}

/// The Windows form of a portable path is the path itself.
pub proof fn portable_forms_agree(path: Seq<char>)
    requires
        is_portable(path),
    ensures
        windows_form(path) == path,
{
    assert forall|i: int| 0 <= i < path.len() implies #[trigger] windows_form(path)[i]
        == path[i] by {
        assert(path[i] != '\\');
    }
    assert(windows_form(path) =~= path);
}

/// What stands behind the last `mark` of a text; the whole text if there is
/// no such character.
pub open spec fn behind_last(text: Seq<char>, mark: char) -> Seq<char>
    decreases text.len(),
{
    if text.len() == 0 || text.last() == mark {
        Seq::empty()
    } else {
        behind_last(text.drop_last(), mark).push(text.last())
    }
}

/// The file name of a path: its last segment, where trailing slashes
/// and trailing `.` segments do not count. A path that ends in `..`, or in
/// which nothing else is left, has none.
pub open spec fn file_name(path: Seq<char>) -> Option<Seq<char>>
    decreases path.len(),
{
    if path.len() == 0 {
        None
    } else if path.last() == '/' || behind_last(path, '/') == seq!['.'] {
        file_name(path.drop_last())
    } else if behind_last(path, '/') == seq!['.', '.'] {
        None
    } else {
        Some(behind_last(path, '/'))
    }
}

/// What stands behind the last dot of a file name. A name without a dot, or
/// whose only dot is its first character, has no extension.
pub open spec fn name_extension(name: Seq<char>) -> Option<Seq<char>> {
    let ext = behind_last(name, '.');
    if ext.len() + 1 < name.len() {
        Some(ext)
    } else {
        None
    }
}

/// The extension of a file name, if there is a file name.
pub open spec fn extension_of_name(name: Option<Seq<char>>) -> Option<Seq<char>> {
    match name {
        Some(n) => name_extension(n),
        None => None,
    }
}

/// The extension of the file that a path names.
pub open spec fn extension(path: Seq<char>) -> Option<Seq<char>> {
    extension_of_name(file_name(path))
}

/// `piece` stands somewhere in `text`, as it is.
pub open spec fn is_piece_of(piece: Seq<char>, text: Seq<char>) -> bool {
    exists|i: int, j: int|
        0 <= i <= j <= text.len() && #[trigger] text.subrange(i, j) == piece
}

/// What stands behind the first `mark` of a text; nothing if there is no such
/// character.
pub open spec fn behind_first(text: Seq<char>, mark: char) -> Seq<char>
    decreases text.len(),
{
    if text.len() == 0 {
        Seq::empty()
    } else if text[0] == mark {
        text.drop_first()
    } else {
        behind_first(text.drop_first(), mark)
    }
}

/// What stands behind the two segments that name a share, such as a server and
/// a folder of it, in a path with a network prefix.
pub open spec fn behind_share(path: Seq<char>) -> Seq<char> {
    behind_first(behind_first(windows_form(path).skip(2), '/'), '/')
}

/// What stands behind the drive, the share or the device that a verbatim path
/// names.
pub open spec fn behind_verbatim_prefix(path: Seq<char>) -> Seq<char> {
    let first = behind_first(path.skip(4), '\\');
    if begins_with(path.skip(4), seq!['U', 'N', 'C', '\\']) {
        behind_first(behind_first(first, '\\'), '\\')
    } else {
        first
    }
}

/// The file name of a verbatim path on Windows, for a path that holds no slash,
/// has something behind its prefix and ends in a name. Other verbatim paths
/// are not described here.
pub open spec fn verbatim_name(path: Seq<char>) -> Option<Seq<char>> {
    let name = behind_last(path, '\\');
    if behind_verbatim_prefix(path).len() > 0 && name.len() > 0 && !path.contains('/') && name
        != seq!['.'] && name != seq!['.', '.'] {
        Some(name)
    } else {
        None
    }
}

/// The path has the file name `name` on some platform; `None` is for a path
/// that names no file. Windows reads a path in its Windows form. There the
/// name of a share is no file name, and a verbatim path is read in its own
/// way; where [`verbatim_name`] does not tell how, the name is at least a piece
/// of the path.
pub open spec fn is_file_name_of(name: Option<Seq<char>>, path: Seq<char>) -> bool {
    ||| name == file_name(path)
    ||| !is_verbatim(path) && name == file_name(windows_form(path))
    ||| !is_verbatim(path) && has_network_prefix(path) && file_name(behind_share(path)) is None
        && name is None
    ||| is_verbatim(path) && match verbatim_name(path) {
        Some(n) => name == Some(n),
        None => name matches Some(n) ==> is_piece_of(n, path),
    }
}

/// A portable path has the same file name everywhere.
pub proof fn portable_path_has_one_name(path: Seq<char>, name: Option<Seq<char>>)
    requires
        is_portable(path),
    ensures
        is_file_name_of(name, path) <==> name == file_name(path),
{
    portable_forms_agree(path);
    assert(!is_verbatim(path)) by {
        if is_verbatim(path) {
            assert(path.take(4)[0] == path[0]);
        }
    }
}

/// The characters of a text, where there is one.
pub open spec fn text_of(text: Option<String>) -> Option<Seq<char>> {
    match text {
        Some(t) => Some(t@),
        None => None,
    }
}

/// `ext` is the extension of a file name that the path has on some platform.
pub open spec fn is_extension_for(ext: Option<Seq<char>>, path: Seq<char>) -> bool {
    exists|name: Option<Seq<char>>| #[trigger]
        is_file_name_of(name, path) && ext == extension_of_name(name)
}

/// Calls `Path::extension`. The result is the extension, as
/// [`extension_of_name`] defines it, of a file name that [`is_file_name_of`]
/// gives to the path.
#[verifier::external_body]
fn path_extension(path: &str) -> (ext: Option<String>)
    ensures
        is_extension_for(text_of(ext), path@),
{
    match std::path::Path::new(path).extension() {
        Some(e) => Some(e.to_string_lossy().into_owned()),
        None => None,
    }
}

/// Calls `Path::file_name`. The result is a file name that
/// [`is_file_name_of`] gives to the path.
#[verifier::external_body]
fn path_file_name(path: &str) -> (name: Option<String>)
    ensures
        is_file_name_of(text_of(name), path@),
{
    match std::path::Path::new(path).file_name() {
        Some(n) => Some(n.to_string_lossy().into_owned()),
        None => None,
    }
}

/// `path` goes behind `root`, with the separator of the platform between them
/// unless the root brings one along.
pub open spec fn is_adjoined(joined: Seq<char>, root: Seq<char>, path: Seq<char>) -> bool {
    if root.len() == 0 || root.last() == '/' {
        joined == root + path
    } else {
        ||| joined == root + seq!['/'] + path
        ||| joined == root + seq!['\\'] + path
        ||| (root.last() == '\\' || root.last() == ':') && joined == root + path
    }
}

/// `path` stands for itself, or keeps only the drive or the share of `root`.
pub open spec fn is_rerooted(joined: Seq<char>, root: Seq<char>, path: Seq<char>) -> bool {
    ||| joined == path
    ||| has_drive(root) && joined == root.take(2) + path
    ||| has_network_prefix(root) && exists|n: int|
        0 <= n <= root.len() && joined == #[trigger] root.take(n) + path
}

/// No segment of the path is empty or begins with a dot, and it has no drive.
pub open spec fn has_plain_segments(path: Seq<char>) -> bool {
    let form = windows_form(path);
    &&& !has_drive(path)
    &&& form.len() > 0
    &&& form[0] != '/' && form[0] != '.'
    &&& forall|i: int|
        0 <= i < form.len() && #[trigger] form[i] == '/' ==> i + 1 < form.len() && form[i + 1]
            != '/' && form[i + 1] != '.'
}

/// The root is verbatim and already written as Windows would write it: it holds
/// no slash, and behind `\\?\` there is something of which no segment is empty
/// or begins with a dot.
pub open spec fn is_settled_verbatim(root: Seq<char>) -> bool {
    let form = replaced(root.skip(4), '\\', '/');
    &&& is_verbatim(root)
    &&& !root.contains('/')
    &&& form.len() > 0
    &&& form[0] != '/' && form[0] != '.'
    &&& forall|i: int|
        0 <= i < form.len() && #[trigger] form[i] == '/' ==> i + 1 < form.len() && form[i + 1]
            != '/' && form[i + 1] != '.'
}

/// What becomes of `path` when it is resolved against `root`, on some
/// platform. A path that begins with a slash leaves the root; one that begins
/// with a backslash or a drive does so on Windows only; any other goes behind
/// the root. Windows writes the whole anew if the root is verbatim: a plain
/// path then goes behind a settled root, and its segments come last whatever
/// the root. Of other paths nothing is said there.
pub open spec fn is_joined(joined: Seq<char>, root: Seq<char>, path: Seq<char>) -> bool {
    if is_verbatim(root) {
        has_plain_segments(path) ==> {
            &&& ends_with(replaced(joined, '\\', '/'), seq!['/'] + windows_form(path))
            &&& is_settled_verbatim(root) ==> replaced(joined, '\\', '/') == replaced(
                root,
                '\\',
                '/',
            ) + seq!['/'] + windows_form(path)
        }
    } else if begins_with(path, seq!['/']) {
        is_rerooted(joined, root, path)
    } else if begins_with(path, seq!['\\']) || has_drive(path) {
        is_rerooted(joined, root, path) || is_adjoined(joined, root, path)
    } else {
        is_adjoined(joined, root, path)
    }
}

/// Calls `Path::join`. The result is as [`is_joined`] says; what it leaves
/// open, such as which separator goes between the paths, is the platform's
/// choice.
#[verifier::external_body]
pub(crate) fn path_join(root: &str, path: &str) -> (joined: String)
    ensures
        is_joined(joined@, root@, path@),
{
    std::path::Path::new(root).join(path).to_string_lossy().into_owned()
}

/// The Unicode lower case of a text, as `str::to_lowercase` gives it.
pub uninterp spec fn lowercase(text: Seq<char>) -> Seq<char>;

/// The lower case of an ASCII character; any other character is left alone.
pub open spec fn ascii_lower(c: char) -> char {
    if 'A' <= c && c <= 'Z' {
        (c as nat + 32) as char
    } else {
        c
    }
}

/// A text with its ASCII letters in lower case.
pub open spec fn ascii_lowered(text: Seq<char>) -> Seq<char> {
    text.map_values(|c: char| ascii_lower(c))
}

/// The lower case of a text. Of an ASCII text it is known letter by letter; of
/// any other it is that of the text with its ASCII letters in lower case.
pub open spec fn lower_text(text: Seq<char>) -> Seq<char> {
    if vstd::utf8::is_ascii_chars(text) {
        ascii_lowered(text)
    } else {
        lowercase(ascii_lowered(text))
    }
}

/// Calls `str::to_lowercase`: the result is named [`lowercase`]. It does not
/// depend on the case of the ASCII letters in the text, and on ASCII text it
/// is the text with each letter in lower case, as [`lower_text`] says.
#[verifier::external_body]
fn to_lowercase(text: &str) -> (lower: String)
    ensures
        lower@ == lowercase(text@),
        lower@ == lower_text(text@),
{
    text.to_lowercase()
}

/// The extensions of the video files that the viewer opens, in lower case.
pub open spec fn is_video_extension_text(ext: Seq<char>) -> bool {
    ||| ext == "mp4"@
    ||| ext == "m4v"@
    ||| ext == "mov"@
    ||| ext == "qt"@
    ||| ext == "webm"@
    ||| ext == "mkv"@
    ||| ext == "avi"@
    ||| ext == "wmv"@
    ||| ext == "flv"@
    ||| ext == "ogv"@
    ||| ext == "ogg"@
    ||| ext == "ts"@
    ||| ext == "mts"@
    ||| ext == "m2ts"@
    ||| ext == "3gp"@
    ||| ext == "3g2"@
}

fn same_text(a: &String, b: &str) -> (same: bool)
    ensures
        same == (a@ == b@),
{
    *a == b.to_owned()
}

/// Whether an extension in lower case is one of a video file.
pub fn is_video_extension(ext: &String) -> (video: bool)
    ensures
        video == is_video_extension_text(ext@),
{
    same_text(ext, "mp4")
        || same_text(ext, "m4v")
        || same_text(ext, "mov")
        || same_text(ext, "qt")
        || same_text(ext, "webm")
        || same_text(ext, "mkv")
        || same_text(ext, "avi")
        || same_text(ext, "wmv")
        || same_text(ext, "flv")
        || same_text(ext, "ogv")
        || same_text(ext, "ogg")
        || same_text(ext, "ts")
        || same_text(ext, "mts")
        || same_text(ext, "m2ts")
        || same_text(ext, "3gp")
        || same_text(ext, "3g2")
}

/// Whether an extension, in whatever case, is one of a video file.
pub open spec fn is_video_kind(ext: Option<Seq<char>>) -> bool {
    match ext {
        Some(e) => is_video_extension_text(lower_text(e)),
        None => false,
    }
}

/// Whether an extension is one of a video file, whatever its case. A file
/// without an extension is no video.
pub fn is_video_extension_in_any_case(ext: Option<&str>) -> (video: bool)
    ensures
        video == is_video_kind(
            match ext {
                Some(e) => Some(e@),
                None => None,
            },
        ),
{
    match ext {
        Some(e) => is_video_extension(&to_lowercase(e)),
        None => false,
    }
}

/// Whether a path names a video file: its extension, in lower case, is one
/// that the viewer opens. A path without an extension names none.
pub open spec fn is_video(path: Seq<char>) -> bool {
    is_video_kind(extension(path))
}

/// The viewer opens the file at `path`, or does not, on account of a file name
/// that the path has on some platform.
pub open spec fn is_answer_for(video: bool, path: Seq<char>) -> bool {
    exists|name: Option<Seq<char>>| #[trigger]
        is_file_name_of(name, path) && video == is_video_kind(extension_of_name(name))
}

/// Whether the viewer opens the file at `path`.
pub fn is_video_path(path: &str) -> (video: bool)
    ensures
        is_answer_for(video, path@),
        is_portable(path@) ==> video == is_video(path@),
{
    let ext = path_extension(path);
    let ghost name = choose|name: Option<Seq<char>>| #[trigger]
        is_file_name_of(name, path@) && text_of(ext) == extension_of_name(name);
    proof {
        if is_portable(path@) {
            portable_path_has_one_name(path@, name);
        }
    }
    match &ext {
        Some(ext) => is_video_extension_in_any_case(Some(ext.as_str())),
        None => is_video_extension_in_any_case(None),
    }
}

/// The title of the tab that shows a file of this name.
pub open spec fn title_of_name(name: Option<Seq<char>>) -> Seq<char> {
    match name {
        Some(n) => n,
        None => "video"@,
    }
}

/// The title of the tab that shows the file at `path`.
pub open spec fn title_text(path: Seq<char>) -> Seq<char> {
    title_of_name(file_name(path))
}

/// `title` is that of a file name that the path has on some platform.
pub open spec fn is_title_for(title: Seq<char>, path: Seq<char>) -> bool {
    exists|name: Option<Seq<char>>| #[trigger]
        is_file_name_of(name, path) && title == title_of_name(name)
}

/// The title of the tab that shows the file at `path`: the name of the file,
/// or `video` if the path names none.
pub fn tab_title(path: &str) -> (title: String)
    ensures
        is_title_for(title@, path@),
        is_portable(path@) ==> title@ == title_text(path@),
{
    let name = path_file_name(path);
    proof {
        if is_portable(path@) {
            portable_path_has_one_name(path@, text_of(name));
        }
    }
    match name {
        Some(name) => name,
        None => "video".to_owned(),
    }
}

/// The URI of the file at `path`. A path that does not begin with a slash,
/// such as one with a drive letter, gets one in front, and its backslashes
/// become slashes.
pub open spec fn file_uri_text(path: Seq<char>) -> Seq<char> {
    if path.len() > 0 && path[0] == '/' {
        "file://"@ + path
    } else {
        "file:///"@ + replaced(path, '\\', '/')
    }
}

/// The URI by which the media pipeline opens the file at `path`.
pub fn file_uri(path: &str) -> (uri: String)
    ensures
        uri@ == file_uri_text(path@),
        is_uri_of(uri@, path@),
{
    proof {
        uri_holds_the_path(path@);
    }
    if !path.is_empty() && path.get_char(0) == '/' {
        "file://".to_owned().concat(path)
    } else {
        "file:///".to_owned().concat(replace_char(path, '\\', '/').as_str())
    }
}

/// What follows the URI in the description of a pipeline: the frames are
/// converted to BGRA and handed to a sink named `vsink`, which keeps at most
/// three of them.
pub open spec fn video_sink_text() -> Seq<char> {
    "\" video-sink=\"videoconvert ! video/x-raw,format=BGRA ! appsink name=vsink drop=true max-buffers=3 enable-last-sample=false\""@
}

/// The description of the pipeline that plays the file at `path`.
pub open spec fn pipeline_text(path: Seq<char>) -> Seq<char> {
    "playbin uri=\""@ + file_uri_text(path) + video_sink_text()
}

/// Describes the pipeline that plays the file at `path`, in the syntax in
/// which a pipeline is launched.
pub fn pipeline_description(path: &str) -> (description: String)
    ensures
        description@ == pipeline_text(path@),
        describes_file(description@, path@),
{
    proof {
        pipeline_names_the_file(path@);
    }
    "playbin uri=\"".to_owned().concat(file_uri(path).as_str()).concat(
        "\" video-sink=\"videoconvert ! video/x-raw,format=BGRA ! appsink name=vsink drop=true max-buffers=3 enable-last-sample=false\"",
    )
}

/// The text begins with `prefix`.
pub open spec fn begins_with(text: Seq<char>, prefix: Seq<char>) -> bool {
    prefix.len() <= text.len() && text.take(prefix.len() as int) == prefix
}

/// The text ends with `suffix`.
pub open spec fn ends_with(text: Seq<char>, suffix: Seq<char>) -> bool {
    suffix.len() <= text.len() && text.skip(text.len() - suffix.len()) == suffix
}

/// Whatever the path, its URI has the form `file:///...`: the scheme, an
/// empty host and an absolute path.
pub proof fn uri_is_absolute(path: Seq<char>)
    ensures
        begins_with(file_uri_text(path), "file:///"@),
{
    reveal_strlit("file://");
    reveal_strlit("file:///");
    assert(file_uri_text(path).take("file:///"@.len() as int) =~= "file:///"@);
}

/// `uri` is a file URI in which the path stands: as it is, character for
/// character, if it begins with a slash; otherwise behind another slash, with
/// each backslash as a slash and every other character as it is.
pub open spec fn is_uri_of(uri: Seq<char>, path: Seq<char>) -> bool {
    let absolute = path.len() > 0 && path[0] == '/';
    &&& uri.len() == path.len() + if absolute {
        7int
    } else {
        8int
    }
    &&& uri.take(7) == seq!['f', 'i', 'l', 'e', ':', '/', '/']
    &&& absolute ==> uri.skip(7) == path
    &&& !absolute ==> uri[7] == '/' && forall|i: int|
        0 <= i < path.len() ==> #[trigger] uri[i + 8] == if path[i] == '\\' {
            '/'
        } else {
            path[i]
        }
}

/// The URI of a path holds the path.
pub proof fn uri_holds_the_path(path: Seq<char>)
    ensures
        is_uri_of(file_uri_text(path), path),
{
    reveal_strlit("file://");
    reveal_strlit("file:///");
    replacing_touches_one_character(path, '\\', '/');
    let uri = file_uri_text(path);
    assert(uri.take(7) =~= seq!['f', 'i', 'l', 'e', ':', '/', '/']);
    if path.len() > 0 && path[0] == '/' {
        assert(uri.skip(7) =~= path);
    } else {
        assert forall|i: int| 0 <= i < path.len() implies #[trigger] uri[i + 8] == if path[i]
            == '\\' {
            '/'
        } else {
            path[i]
        } by {
            assert(uri[i + 8] == replaced(path, '\\', '/')[i]);
        }
    }
}

/// Two different absolute paths never have the same URI.
pub proof fn absolute_paths_have_their_own_uri(p: Seq<char>, q: Seq<char>)
    requires
        begins_with(p, seq!['/']),
        begins_with(q, seq!['/']),
        file_uri_text(p) == file_uri_text(q),
    ensures
        p == q,
{
    uri_holds_the_path(p);
    uri_holds_the_path(q);
    assert(p.take(1)[0] == p[0]);
    assert(q.take(1)[0] == q[0]);
}

/// The description of a pipeline names the URI of the file, in quotation marks,
/// as what is played, and nothing else in it depends on the file.
pub open spec fn describes_file(description: Seq<char>, path: Seq<char>) -> bool {
    exists|uri: Seq<char>| #[trigger]
        is_uri_of(uri, path) && description == "playbin uri=\""@ + uri + "\" video-sink=\"videoconvert ! video/x-raw,format=BGRA ! appsink name=vsink drop=true max-buffers=3 enable-last-sample=false\""@
}

/// The pipeline of a file describes it.
pub proof fn pipeline_names_the_file(path: Seq<char>)
    ensures
        describes_file(pipeline_text(path), path),
{
    uri_holds_the_path(path);
}

/// The URI of a path that does not begin with a slash holds no backslash.
pub proof fn relative_uri_has_no_backslash(path: Seq<char>)
    requires
        !begins_with(path, seq!['/']),
    ensures
        !file_uri_text(path).contains('\\'),
{
    reveal_strlit("file:///");
    if path.len() > 0 && path[0] == '/' {
        assert(path.take(1) =~= seq!['/']);
    }
}

/// Whether a path names a video depends on its extension alone, and not on the
/// case of the ASCII letters in it: two paths whose extensions differ in
/// nothing else get the same answer, whatever their folders and the rest of
/// their names.
pub proof fn extension_alone_decides(p: Seq<char>, q: Seq<char>)
    requires
        extension(p) is Some,
        extension(q) is Some,
        ascii_lowered(extension(p)->0) == ascii_lowered(extension(q)->0),
    ensures
        is_video(p) == is_video(q),
{
    extension_case_does_not_matter(extension(p)->0, extension(q)->0);
}

/// The same of any two paths, portable or not: if their extensions differ in
/// nothing but the case of ASCII letters, however the paths are read, then the
/// answers that [`is_video_path`] gives for them are the same.
pub proof fn same_extension_same_answer(
    p: Seq<char>,
    q: Seq<char>,
    video_p: bool,
    video_q: bool,
)
    requires
        is_answer_for(video_p, p),
        is_answer_for(video_q, q),
        forall|a: Option<Seq<char>>, b: Option<Seq<char>>|
            #![trigger is_extension_for(a, p), is_extension_for(b, q)]
            is_extension_for(a, p) && is_extension_for(b, q) ==> a is Some && b is Some
                && ascii_lowered(a->0) == ascii_lowered(b->0),
    ensures
        video_p == video_q,
{
    let name_p = choose|name: Option<Seq<char>>| #[trigger]
        is_file_name_of(name, p) && video_p == is_video_kind(extension_of_name(name));
    let name_q = choose|name: Option<Seq<char>>| #[trigger]
        is_file_name_of(name, q) && video_q == is_video_kind(extension_of_name(name));
    let a = extension_of_name(name_p);
    let b = extension_of_name(name_q);
    assert(is_extension_for(a, p) && is_extension_for(b, q));
    extension_case_does_not_matter(a->0, b->0);
}

/// Extensions that differ at most in the case of ASCII letters are of the same
/// kind, under whatever reading of a path they were found.
pub proof fn extension_case_does_not_matter(a: Seq<char>, b: Seq<char>)
    requires
        ascii_lowered(a) == ascii_lowered(b),
    ensures
        is_video_kind(Some(a)) == is_video_kind(Some(b)),
{
    assert(a.len() == ascii_lowered(a).len());
    assert(b.len() == ascii_lowered(b).len());
    ascii_lowered_keeps_ascii(a);
    ascii_lowered_keeps_ascii(b);
}

proof fn ascii_lowered_keeps_ascii(text: Seq<char>)
    ensures
        vstd::utf8::is_ascii_chars(ascii_lowered(text)) == vstd::utf8::is_ascii_chars(text),
{
    assert forall|i: int| 0 <= i < text.len() implies ascii_lowered(text)[i] <= '\u{7f}' <==> (
    #[trigger] text[i]) <= '\u{7f}' by {
        assert(ascii_lowered(text)[i] == ascii_lower(text[i]));
    }
    if vstd::utf8::is_ascii_chars(ascii_lowered(text)) {
        assert forall|i: int| 0 <= i < text.len() implies '\0' <= #[trigger] text[i]
            <= '\u{7f}' by {
            assert(ascii_lowered(text)[i] <= '\u{7f}');
        }
    }
}

/// A file name is never empty and holds no slash.
pub proof fn file_name_is_a_segment(path: Seq<char>)
    ensures
        file_name(path) matches Some(name) ==> name.len() > 0 && !name.contains('/'),
    decreases path.len(),
{
    if path.len() > 0 {
        file_name_is_a_segment(path.drop_last());
        behind_last_lacks_mark(path, '/');
    }
}

proof fn behind_last_lacks_mark(text: Seq<char>, mark: char)
    ensures
        !behind_last(text, mark).contains(mark),
    decreases text.len(),
{
    if text.len() > 0 && text.last() != mark {
        behind_last_lacks_mark(text.drop_last(), mark);
        let before = behind_last(text.drop_last(), mark);
        assert forall|i: int| 0 <= i < before.push(text.last()).len() implies before.push(
            text.last(),
        )[i] != mark by {
            if i < before.len() {
                assert(before[i] != mark);
            }
        }
    }
}

/// The sixteen extensions of video files.
pub open spec fn listed_extensions() -> Seq<Seq<char>> {
    seq![
        seq!['m', 'p', '4'],
        seq!['m', '4', 'v'],
        seq!['m', 'o', 'v'],
        seq!['q', 't'],
        seq!['w', 'e', 'b', 'm'],
        seq!['m', 'k', 'v'],
        seq!['a', 'v', 'i'],
        seq!['w', 'm', 'v'],
        seq!['f', 'l', 'v'],
        seq!['o', 'g', 'v'],
        seq!['o', 'g', 'g'],
        seq!['t', 's'],
        seq!['m', 't', 's'],
        seq!['m', '2', 't', 's'],
        seq!['3', 'g', 'p'],
        seq!['3', 'g', '2'],
    ]
}

/// Exactly the listed extensions are those of videos.
pub proof fn video_extensions_are_listed(ext: Seq<char>)
    ensures
        is_video_extension_text(ext) <==> listed_extensions().contains(ext),
{
    reveal_strlit("mp4");
    reveal_strlit("m4v");
    reveal_strlit("mov");
    reveal_strlit("qt");
    reveal_strlit("webm");
    reveal_strlit("mkv");
    reveal_strlit("avi");
    reveal_strlit("wmv");
    reveal_strlit("flv");
    reveal_strlit("ogv");
    reveal_strlit("ogg");
    reveal_strlit("ts");
    reveal_strlit("mts");
    reveal_strlit("m2ts");
    reveal_strlit("3gp");
    reveal_strlit("3g2");
    assert("mp4"@ =~= listed_extensions()[0]);
    assert("m4v"@ =~= listed_extensions()[1]);
    assert("mov"@ =~= listed_extensions()[2]);
    assert("qt"@ =~= listed_extensions()[3]);
    assert("webm"@ =~= listed_extensions()[4]);
    assert("mkv"@ =~= listed_extensions()[5]);
    assert("avi"@ =~= listed_extensions()[6]);
    assert("wmv"@ =~= listed_extensions()[7]);
    assert("flv"@ =~= listed_extensions()[8]);
    assert("ogv"@ =~= listed_extensions()[9]);
    assert("ogg"@ =~= listed_extensions()[10]);
    assert("ts"@ =~= listed_extensions()[11]);
    assert("mts"@ =~= listed_extensions()[12]);
    assert("m2ts"@ =~= listed_extensions()[13]);
    assert("3gp"@ =~= listed_extensions()[14]);
    assert("3g2"@ =~= listed_extensions()[15]);
    if listed_extensions().contains(ext) {
        let i = choose|i: int| 0 <= i < listed_extensions().len() && listed_extensions()[i] == ext;
        assert(listed_extensions().len() == 16);
        assert(0 <= i < 16);
    }
    if is_video_extension_text(ext) {
        assert(exists|i: int|
            0 <= i < listed_extensions().len() && #[trigger] listed_extensions()[i] == ext);
    }
}

/// `c` is the small letter, digit or other ASCII character `small`, or the
/// capital of it.
pub open spec fn is_in_some_case(c: char, small: char) -> bool {
    ||| c == small && !('A' <= c && c <= 'Z')
    ||| 'a' <= small && small <= 'z' && c as int + 32 == small as int
}

/// An ASCII extension is one of a video exactly if it is a listed one, each
/// letter of which may be a capital.
pub proof fn ascii_extensions_are_found_in_any_case(ext: Seq<char>)
    requires
        forall|i: int| 0 <= i < ext.len() ==> #[trigger] ext[i] <= '\u{7f}',
    ensures
        is_video_kind(Some(ext)) <==> exists|k: int|
            {
                &&& 0 <= k < listed_extensions().len()
                &&& (#[trigger] listed_extensions()[k]).len() == ext.len()
                &&& forall|i: int|
                    0 <= i < ext.len() ==> is_in_some_case(
                        #[trigger] ext[i],
                        listed_extensions()[k][i],
                    )
            },
        !is_video_kind(None),
{
    let low = ascii_lowered(ext);
    assert(vstd::utf8::is_ascii_chars(ext)) by {
        assert forall|i: int| 0 <= i < ext.len() implies '\0' <= #[trigger] ext[i]
            <= '\u{7f}' by {
            no_character_is_below_zero(ext[i]);
        }
    }
    video_extensions_are_listed(low);
    assert(low.len() == ext.len());
    assert forall|i: int, c: char| 0 <= i < ext.len() implies (low[i] == c
        <==> #[trigger] is_in_some_case(ext[i], c)) by {
        assert(low[i] == ascii_lower(ext[i]));
    }
    if is_video_kind(Some(ext)) {
        let k = choose|k: int| 0 <= k < listed_extensions().len() && listed_extensions()[k] == low;
        assert forall|i: int| 0 <= i < ext.len() implies is_in_some_case(
            #[trigger] ext[i],
            listed_extensions()[k][i],
        ) by {
            assert(low[i] == listed_extensions()[k][i]);
        }
        assert(listed_extensions()[k].len() == ext.len());
    }
    if exists|k: int|
        {
            &&& 0 <= k < listed_extensions().len()
            &&& (#[trigger] listed_extensions()[k]).len() == ext.len()
            &&& forall|i: int|
                0 <= i < ext.len() ==> is_in_some_case(#[trigger] ext[i], listed_extensions()[k][i])
        } {
        let k = choose|k: int|
            {
                &&& 0 <= k < listed_extensions().len()
                &&& (#[trigger] listed_extensions()[k]).len() == ext.len()
                &&& forall|i: int|
                    0 <= i < ext.len() ==> is_in_some_case(
                        #[trigger] ext[i],
                        listed_extensions()[k][i],
                    )
            };
        assert forall|i: int| 0 <= i < low.len() implies low[i] == listed_extensions()[k][i] by {
            assert(is_in_some_case(ext[i], listed_extensions()[k][i]));
        }
        assert(low =~= listed_extensions()[k]);
    }
}

/// Any other extension is one of a video exactly if its lower case is listed.
pub proof fn other_extensions_are_found_in_lower_case(ext: Seq<char>)
    requires
        !vstd::utf8::is_ascii_chars(ext),
    ensures
        is_video_kind(Some(ext)) <==> listed_extensions().contains(lowercase(ascii_lowered(ext))),
{
    video_extensions_are_listed(lowercase(ascii_lowered(ext)));
}

/// A name of a file or a folder: it is not empty, holds no slash, and is
/// neither `.` nor `..`.
pub open spec fn is_segment(name: Seq<char>) -> bool {
    &&& name.len() > 0
    &&& !name.contains('/')
    &&& !(name.len() == 1 && name[0] == '.')
    &&& !(name.len() == 2 && name[0] == '.' && name[1] == '.')
}

/// A path that is a name, or that ends in a slash and a name, has that file
/// name, whatever stands before it.
pub proof fn last_name_is_the_file_name(folder: Seq<char>, name: Seq<char>)
    requires
        is_segment(name),
    ensures
        file_name(name) == Some(name),
        file_name(folder + seq!['/'] + name) == Some(name),
{
    behind_last_finds_the_end(folder, name, '/');
    let path = folder + seq!['/'] + name;
    assert(path.last() == name.last());
    assert(name[name.len() - 1] != '/') by {
        if name[name.len() - 1] == '/' {
            assert(name.contains('/'));
        }
    }
    if name == seq!['.'] {
        assert(name[0] == '.');
    }
    if name == seq!['.', '.'] {
        assert(name[0] == '.' && name[1] == '.');
    }
}

/// Slashes and `.` at the end of a path do not change its file name; a path
/// that ends in `..`, and the empty one, have none.
pub proof fn trailing_dots_do_not_count(path: Seq<char>)
    ensures
        file_name(path + seq!['/']) == file_name(path),
        file_name(path + seq!['/', '.']) == file_name(path),
        file_name(path + seq!['/', '.', '.']) is None,
        file_name(Seq::empty()) is None,
        file_name(seq!['.']) is None,
        file_name(seq!['.', '.']) is None,
{
    let slash = path + seq!['/'];
    assert(slash.drop_last() =~= path);
    let dot = path + seq!['/', '.'];
    assert(dot.drop_last() =~= slash);
    assert(dot =~= path + seq!['/'] + seq!['.']);
    behind_last_finds_the_end(path, seq!['.'], '/');
    let up = path + seq!['/', '.', '.'];
    assert(up =~= path + seq!['/'] + seq!['.', '.']);
    behind_last_finds_the_end(path, seq!['.', '.'], '/');
    assert(seq!['.', '.'] != seq!['.']) by {
        assert(seq!['.', '.'].len() != seq!['.'].len());
    }
    assert(seq!['.'].drop_last() =~= Seq::<char>::empty());
    assert(file_name(Seq::<char>::empty()) is None);
}

/// The extension is what stands behind the last dot of the file name; a name
/// without a dot behind its first character has none. Neither the folder nor
/// the stem plays a part.
pub proof fn extension_stands_behind_the_last_dot(
    folder: Seq<char>,
    stem: Seq<char>,
    ext: Seq<char>,
)
    requires
        stem.len() > 0,
        !ext.contains('.'),
        is_segment(stem + seq!['.'] + ext),
    ensures
        extension(stem + seq!['.'] + ext) == Some(ext),
        extension(folder + seq!['/'] + (stem + seq!['.'] + ext)) == Some(ext),
{
    last_name_is_the_file_name(folder, stem + seq!['.'] + ext);
    behind_last_finds_the_end(stem, ext, '.');
}

/// A name without a dot behind its first character has no extension, so the
/// path is not that of a video.
pub proof fn names_without_a_dot_have_no_extension(folder: Seq<char>, name: Seq<char>)
    requires
        is_segment(name),
        !name.skip(1).contains('.'),
    ensures
        extension(name) is None,
        extension(folder + seq!['/'] + name) is None,
        !is_video(name),
        !is_video(folder + seq!['/'] + name),
{
    last_name_is_the_file_name(folder, name);
    let rest = name.skip(1);
    if name[0] == '.' {
        assert(name =~= Seq::<char>::empty() + seq!['.'] + rest);
        behind_last_finds_the_end(Seq::empty(), rest, '.');
    } else {
        assert(!name.contains('.')) by {
            if name.contains('.') {
                let i = choose|i: int| 0 <= i < name.len() && name[i] == '.';
                assert(rest[i - 1] == '.');
            }
        }
        behind_last_finds_the_end(Seq::empty(), name, '.');
    }
}

/// However a path is read, a file called `stem.ext` is judged by `ext`: with
/// a drive or without, behind a slash or a backslash.
pub proof fn files_are_judged_by_their_extension(
    folder: Seq<char>,
    separator: char,
    stem: Seq<char>,
    ext: Seq<char>,
    found: Option<Seq<char>>,
    video: bool,
)
    requires
        is_separator(separator),
        stem.len() > 0,
        !ext.contains('.'),
        !ext.contains('\\'),
        !stem.contains('\\'),
        is_segment(stem + seq!['.'] + ext),
        !has_network_prefix(folder + seq![separator] + (stem + seq!['.'] + ext)),
    ensures
        is_extension_for(found, folder + seq![separator] + (stem + seq!['.'] + ext)) ==> found
            == Some(ext),
        is_answer_for(video, folder + seq![separator] + (stem + seq!['.'] + ext)) ==> video
            == is_video_kind(Some(ext)),
{
    let name = stem + seq!['.'] + ext;
    let path = folder + seq![separator] + name;
    assert forall|n: Option<Seq<char>>| #[trigger] is_file_name_of(n, path) implies
        extension_of_name(n) == Some(ext) by {
        readings_end_in_the_name(folder, separator, stem, ext, n);
    }
}

/// However a path is read, the title of its tab ends in the name behind the
/// last separator, and is that name if the separator is a slash.
pub proof fn titles_end_in_the_name(
    folder: Seq<char>,
    separator: char,
    name: Seq<char>,
    title: Seq<char>,
)
    requires
        is_separator(separator),
        is_segment(name),
        !name.contains('\\'),
        !has_network_prefix(folder + seq![separator] + name),
        is_title_for(title, folder + seq![separator] + name),
    ensures
        ends_with(title, name),
        separator == '/' ==> title == name,
{
    let path = folder + seq![separator] + name;
    let n = choose|n: Option<Seq<char>>| #[trigger]
        is_file_name_of(n, path) && title == title_of_name(n);
    names_of_a_path(folder, separator, name, n);
    if n == Some(name) {
        assert(name.skip(0) =~= name);
    }
}

/// A tab is called like the file, in full; without a file name it is called
/// `video`.
pub proof fn titles_are_whole_names(name: Seq<char>)
    ensures
        title_of_name(Some(name)) == name,
        title_of_name(None) == seq!['v', 'i', 'd', 'e', 'o'],
{
    reveal_strlit("video");
    assert("video"@ =~= seq!['v', 'i', 'd', 'e', 'o']);
}

/// A path below a root goes behind it: the root comes first, then one
/// separator, then the path, all of them as they are. A root that ends in a
/// slash brings the separator along.
pub proof fn joined_paths_hold_both(joined: Seq<char>, root: Seq<char>, path: Seq<char>)
    requires
        !is_verbatim(root),
        root.len() > 0,
        !has_drive(path),
        path.len() > 0 ==> !is_separator(path[0]),
        is_joined(joined, root, path),
    ensures
        begins_with(joined, root),
        ends_with(joined, path),
        root.last() == '/' ==> joined == root + path,
        !is_separator(root.last()) && root.last() != ':' ==> joined.len() == root.len() + 1
            + path.len() && is_separator(joined[root.len() as int]),
        joined.len() <= root.len() + 1 + path.len(),
{
    if begins_with(path, seq!['/']) {
        assert(path.take(1)[0] == path[0]);
    }
    if begins_with(path, seq!['\\']) {
        assert(path.take(1)[0] == path[0]);
    }
    assert(joined.take(root.len() as int) =~= root);
    assert(joined.skip(joined.len() - path.len()) =~= path);
}

/// A path that begins with a slash stands for itself, unless the root names a
/// drive or a share.
pub proof fn absolute_paths_leave_the_root(joined: Seq<char>, root: Seq<char>, path: Seq<char>)
    requires
        path.len() > 0,
        path[0] == '/',
        !has_drive(root),
        !has_network_prefix(root),
        is_joined(joined, root, path),
    ensures
        joined == path,
{
    assert(path.take(1) =~= seq!['/']);
    assert(!is_verbatim(root)) by {
        if is_verbatim(root) {
            assert(root.take(4)[0] == root[0] && root.take(4)[1] == root[1]);
        }
    }
}

proof fn no_character_is_below_zero(c: char)
    ensures
        '\0' <= c,
{
}

proof fn behind_last_finds_the_end(before: Seq<char>, end: Seq<char>, mark: char)
    requires
        !end.contains(mark),
    ensures
        behind_last(before + seq![mark] + end, mark) == end,
        behind_last(end, mark) == end,
    decreases end.len(),
{
    if end.len() == 0 {
        assert((before + seq![mark] + end).last() == mark);
        assert(end =~= Seq::<char>::empty());
    } else {
        let e = end.drop_last();
        assert(!e.contains(mark)) by {
            if e.contains(mark) {
                let i = choose|i: int| 0 <= i < e.len() && e[i] == mark;
                assert(end[i] == mark);
            }
        }
        behind_last_finds_the_end(before, e, mark);
        assert(end[end.len() - 1] != mark);
        assert((before + seq![mark] + end).drop_last() =~= before + seq![mark] + e);
        assert(e.push(end.last()) =~= end);
    }
}

/// What stands behind the last mark of a text grows with what is added, as
/// long as that holds no mark.
proof fn behind_last_grows(before: Seq<char>, end: Seq<char>, mark: char)
    requires
        !end.contains(mark),
    ensures
        behind_last(before + end, mark) == behind_last(before, mark) + end,
    decreases end.len(),
{
    if end.len() == 0 {
        assert(before + end =~= before);
        assert(behind_last(before, mark) + end =~= behind_last(before, mark));
    } else {
        let e = end.drop_last();
        assert(!e.contains(mark)) by {
            if e.contains(mark) {
                let i = choose|i: int| 0 <= i < e.len() && e[i] == mark;
                assert(end[i] == mark);
            }
        }
        behind_last_grows(before, e, mark);
        assert(end[end.len() - 1] != mark);
        assert((before + end).drop_last() =~= before + e);
        assert((behind_last(before, mark) + e).push(end.last()) =~= behind_last(before, mark)
            + end);
    }
}

/// The file names that a path can have which ends in `name`.
proof fn names_of_a_path(
    folder: Seq<char>,
    separator: char,
    name: Seq<char>,
    n: Option<Seq<char>>,
)
    requires
        is_separator(separator),
        is_segment(name),
        !name.contains('\\'),
        !has_network_prefix(folder + seq![separator] + name),
        is_file_name_of(n, folder + seq![separator] + name),
    ensures
        n is Some,
        n == Some(name) || separator == '\\' && n->0 == behind_last(folder + seq!['\\'], '/')
            + name,
        ends_with(n->0, name),
{
    let path = folder + seq![separator] + name;
    assert(!is_verbatim(path)) by {
        if is_verbatim(path) {
            assert(path.take(4)[0] == path[0] && path.take(4)[1] == path[1]);
        }
    }
    // The Windows form ends in a slash and the name.
    let cut = if has_drive(path) {
        path.skip(2)
    } else {
        path
    };
    let form = windows_form(path);
    let k = form.len() - name.len() - 1;
    assert(has_drive(path) ==> folder.len() >= 2) by {
        if has_drive(path) && folder.len() < 2 {
            if folder.len() == 0 {
                assert(path[0] == separator);
            } else {
                assert(path[1] == separator);
            }
        }
    }
    assert(k >= 0);
    assert(form.take(k) + seq!['/'] + name =~= form) by {
        replacing_touches_one_character(cut, '\\', '/');
        assert forall|i: int| 0 <= i < form.len() implies #[trigger] form[i] == (form.take(k)
            + seq!['/'] + name)[i] by {
            if i > k {
                assert(cut[i] == name[i - k - 1]);
                assert(name[i - k - 1] != '\\');
            } else if i == k {
                assert(cut[i] == separator);
            }
        }
    }
    last_name_is_the_file_name(form.take(k), name);
    if separator == '/' {
        last_name_is_the_file_name(folder, name);
    } else {
        let head = folder + seq!['\\'];
        assert(path =~= head + name);
        behind_last_grows(head, name, '/');
        let whole = behind_last(head, '/') + name;
        assert(behind_last(path, '/') == whole);
        assert(head.last() == '\\');
        assert(behind_last(head, '/').last() == '\\');
        assert(whole[behind_last(head, '/').len() - 1] == '\\');
        assert(path.last() == name.last());
        assert(name[name.len() - 1] != '/');
        assert(whole.contains('\\'));
        if whole == seq!['.'] {
            assert(whole[0] == '.');
        }
        if whole == seq!['.', '.'] {
            assert(whole[0] == '.' && whole[1] == '.');
        }
        assert(file_name(path) == Some(whole));
        assert(whole.skip(whole.len() - name.len()) =~= name);
    }
    assert(name.skip(0) =~= name);
}

/// Whatever the reading, the file name ends in `stem.ext`, so that the
/// extension is `ext`.
proof fn readings_end_in_the_name(
    folder: Seq<char>,
    separator: char,
    stem: Seq<char>,
    ext: Seq<char>,
    n: Option<Seq<char>>,
)
    requires
        is_separator(separator),
        stem.len() > 0,
        !ext.contains('.'),
        !ext.contains('\\'),
        !stem.contains('\\'),
        is_segment(stem + seq!['.'] + ext),
        !has_network_prefix(folder + seq![separator] + (stem + seq!['.'] + ext)),
        is_file_name_of(n, folder + seq![separator] + (stem + seq!['.'] + ext)),
    ensures
        extension_of_name(n) == Some(ext),
{
    let name = stem + seq!['.'] + ext;
    assert(!name.contains('\\')) by {
        if name.contains('\\') {
            let i = choose|i: int| 0 <= i < name.len() && name[i] == '\\';
            if i < stem.len() {
                assert(stem[i] == '\\');
            } else if i > stem.len() {
                assert(ext[i - stem.len() - 1] == '\\');
            }
        }
    }
    names_of_a_path(folder, separator, name, n);
    let full = n->0;
    let front = full.take(full.len() - name.len()) + stem;
    assert(full =~= full.take(full.len() - name.len()) + name) by {
        assert(full.skip(full.len() - name.len()) == name);
    }
    assert(full =~= front + seq!['.'] + ext);
    behind_last_finds_the_end(front, ext, '.');
}

} // verus!
