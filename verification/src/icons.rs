//! Application icons: where to look for one, what a desktop entry says of
//! it, and how an icon that was read is handed to the user interface.
//!
//! Nothing here touches the disk. The caller probes the places that this
//! module lists, in the listed order, and hands back what it read.

use crate::text::{
    chars_of, contains_text, has_prefix_at, last_piece, line_end, line_stop, matches_at,
    occurs_in, pieces, remove_word, same_text, scan_line, slice_text, split_on, texts, trim,
    trim_line_end, trimmed, without_word,
};
use crate::types::text_view;
use base64::Engine;
use vstd::prelude::*;
use vstd::string::StrSliceExecFns;
use vstd::string::StringExecFns;

verus! {

broadcast use vstd::string::group_string_axioms;

/// The data directories that are searched where none are configured.
pub const DEFAULT_DATA_DIRS: &'static str = "/usr/local/share:/usr/share";

/// A text in lower case, as the Unicode character database maps it.
pub uninterp spec fn lowercase_of(text: Seq<char>) -> Seq<char>;

/// The standard base64 text of a run of bytes, padded.
pub uninterp spec fn base64_of(bytes: Seq<u8>) -> Seq<char>;

/// Calls `str::to_lowercase`, which returns the lowercase equivalent of
/// the text as a new string. The contract claims only that the result
/// depends on the text alone; `lowercase_of` is the name of that result.
#[verifier::external_body]
fn lowercase(text: &str) -> (lower: String)
    ensures
        lower@ == lowercase_of(text@),
{
    text.to_lowercase()
}

/// Whether the base64 text of this many bytes has a length that fits.
pub open spec fn encodable(len: nat) -> bool {
    len / 3 * 4 + 4 <= usize::MAX
}

/// Calls `encode` of the `base64` crate's `STANDARD` engine, which writes
/// the bytes in the standard alphabet with padding. It panics where the
/// length of the result overflows, which `requires` rules out. The contract
/// claims only that the result depends on the bytes alone; `base64_of` is
/// the name of that result.
#[verifier::external_body]
fn base64_text(bytes: &Vec<u8>) -> (encoded: String)
    requires
        encodable(bytes@.len()),
    ensures
        encoded@ == base64_of(bytes@),
{
    base64::engine::general_purpose::STANDARD.encode(bytes)
}

/// The media type that goes with a file extension in lower case: SVG for
/// `svg` and `svgz`, XPM for `xpm`, and PNG for `png` and for anything else.
pub open spec fn mime_of(extension: Seq<char>) -> Seq<char> {
    if extension == "svg"@ || extension == "svgz"@ {
        "image/svg+xml"@
    } else if extension == "xpm"@ {
        "image/x-xpixmap"@
    } else {
        "image/png"@
    }
}

/// The media type that goes with a file extension in lower case.
pub fn mime_for(extension: &str) -> (mime: &'static str)
    ensures
        mime@ == mime_of(extension@),
{
    let ext = chars_of(extension);
    if same_text(&ext, &chars_of("svg")) || same_text(&ext, &chars_of("svgz")) {
        "image/svg+xml"
    } else if same_text(&ext, &chars_of("xpm")) {
        "image/x-xpixmap"
    } else {
        "image/png"
    }
}

/// The extension that a file's media type is chosen by: its own in lower
/// case, or `png` where it has none.
pub open spec fn extension_of(extension: Option<Seq<char>>) -> Seq<char> {
    match extension {
        Some(ext) => lowercase_of(ext),
        None => lowercase_of("png"@),
    }
}

/// The media type of an icon file with the given extension, if it has one.
pub fn icon_mime(extension: Option<&str>) -> (mime: &'static str)
    ensures
        mime@ == mime_of(
            extension_of(
                match extension {
                    Some(ext) => Some(ext@),
                    None => None,
                },
            ),
        ),
{
    let lower = match extension {
        Some(ext) => lowercase(ext),
        None => lowercase("png"),
    };
    mime_for(lower.as_str())
}

/// The data URI that carries content of a media type in base64.
pub open spec fn data_uri_of(mime: Seq<char>, encoded: Seq<char>) -> Seq<char> {
    "data:"@ + mime + ";base64,"@ + encoded
}

/// The data URI that carries content of a media type, given in base64.
pub fn data_uri(mime: &str, encoded: &str) -> (uri: String)
    ensures
        uri@ == data_uri_of(mime@, encoded@),
{
    let mut uri = String::from_str("data:");
    uri.append(mime);
    uri.append(";base64,");
    uri.append(encoded);
    uri
}

/// What was found on disk for an application's icon.
#[derive(Debug, PartialEq, Eq)]
pub struct IconFile {
    /// The file's path, as it is shown.
    pub path: String,
    /// The file's extension, if it has one.
    pub extension: Option<String>,
    /// The file's bytes, or the words of the error that reading it gave.
    pub content: Result<Vec<u8>, String>,
}

/// Mathematical value of an [`IconFile`].
pub struct IconFileView {
    pub path: Seq<char>,
    pub extension: Option<Seq<char>>,
    pub content: Result<Seq<u8>, Seq<char>>,
}

impl View for IconFile {
    type V = IconFileView;

    open spec fn view(&self) -> IconFileView {
        IconFileView {
            path: self.path@,
            extension: text_view(self.extension),
            content: match self.content {
                Ok(bytes) => Ok(bytes@),
                Err(words) => Err(words@),
            },
        }
    }
}

/// What the user interface gets for an application's icon: the icon as a
/// data URI, or the words of why there is none.
pub open spec fn app_icon_of(app_id: Seq<char>, icon: Option<IconFileView>) -> Result<
    Seq<char>,
    Seq<char>,
> {
    match icon {
        None => Err("no icon found for "@ + app_id),
        Some(file) => match file.content {
            Err(words) => Err("failed to read icon "@ + file.path + ": "@ + words),
            Ok(bytes) => Ok(data_uri_of(mime_of(extension_of(file.extension)), base64_of(bytes))),
        },
    }
}

/// Mathematical value of an optional icon file.
pub open spec fn icon_view(icon: Option<IconFile>) -> Option<IconFileView> {
    match icon {
        Some(file) => Some(file@),
        None => None,
    }
}

/// Mathematical value of a text or of the words of a failure.
pub open spec fn words_view(result: Result<String, String>) -> Result<Seq<char>, Seq<char>> {
    match result {
        Ok(text) => Ok(text@),
        Err(words) => Err(words@),
    }
}

/// Whether the icon's bytes, if it has any, can be written in base64.
pub open spec fn icon_encodable(icon: Option<IconFile>) -> bool {
    match icon {
        Some(file) => match file.content {
            Ok(bytes) => encodable(bytes@.len()),
            Err(_) => true,
        },
        None => true,
    }
}

/// The icon of application `app_id` for the user interface. `icon` is the
/// file that the search for the icon found, with what reading it gave;
/// `None` where the search found no file.
pub fn get_app_icon(app_id: &str, icon: Option<IconFile>) -> (shown: Result<String, String>)
    requires
        icon_encodable(icon),
    ensures
        words_view(shown) == app_icon_of(app_id@, icon_view(icon)),
{
    match icon {
        None => {
            let mut words = String::from_str("no icon found for ");
            words.append(app_id);
            Err(words)
        },
        Some(file) => {
            let mime = match &file.extension {
                Some(ext) => icon_mime(Some(ext.as_str())),
                None => icon_mime(None),
            };
            match &file.content {
                Err(reason) => {
                    let mut words = String::from_str("failed to read icon ");
                    words.append(file.path.as_str());
                    words.append(": ");
                    words.append(reason.as_str());
                    Err(words)
                },
                Ok(bytes) => Ok(data_uri(mime, base64_text(bytes).as_str())),
            }
        },
    }
}

/// The names under which an application's icon is looked for, in order:
/// the application's identifier in lower case; what follows its last dot;
/// and that without `-desktop`, and without `-bin`.
pub open spec fn icon_candidates_of(app_id: Seq<char>) -> Seq<Seq<char>> {
    let lower = lowercase_of(app_id);
    let last = last_piece(lower, '.');
    seq![lower, last, without_word(last, "-desktop"@), without_word(last, "-bin"@)]
}

/// The names under which an application's icon is looked for, given the
/// application's identifier in lower case.
pub open spec fn candidates_of_lower(lower: Seq<char>) -> Seq<Seq<char>> {
    let last = last_piece(lower, '.');
    seq![lower, last, without_word(last, "-desktop"@), without_word(last, "-bin"@)]
}

/// A text has at least one piece.
pub proof fn lemma_pieces_not_empty(text: Seq<char>, mark: char)
    ensures
        pieces(text, mark).len() >= 1,
{
}

/// The names under which an application's icon is looked for, given the
/// application's identifier in lower case.
pub fn candidates_for(lower: &str) -> (names: Vec<String>)
    ensures
        texts(names@) == candidates_of_lower(lower@),
{
    let mut parts = split_on(lower, '.');
    proof {
        lemma_pieces_not_empty(lower@, '.');
        assert(texts(parts@).len() == parts@.len());
        assert(texts(parts@).last() == parts@.last()@);
    }
    let last = match parts.pop() {
        Some(last) => last,
        None => String::from_str(lower),
    };
    let mut names: Vec<String> = Vec::new();
    names.push(String::from_str(lower));
    names.push(last.clone());
    names.push(remove_word(last.as_str(), "-desktop"));
    names.push(remove_word(last.as_str(), "-bin"));
    proof {
        assert(texts(names@) =~= candidates_of_lower(lower@));
    }
    names
}

/// The names under which an application's icon is looked for.
pub fn icon_candidates(app_id: &str) -> (names: Vec<String>)
    ensures
        texts(names@) == icon_candidates_of(app_id@),
{
    candidates_for(lowercase(app_id).as_str())
}

/// Appends `suffix` to a text.
pub open spec fn with_suffix(suffix: Seq<char>) -> spec_fn(Seq<char>) -> Seq<char> {
    |text: Seq<char>| text + suffix
}

/// The directory `name` in each of the data directories, which
/// `data_dirs` lists with colons between them.
pub open spec fn in_data_dirs(data_dirs: Seq<char>, name: Seq<char>) -> Seq<Seq<char>> {
    pieces(data_dirs, ':').map_values(with_suffix(name))
}

fn data_dirs_with(data_dirs: &str, name: &str) -> (dirs: Vec<String>)
    ensures
        texts(dirs@) == in_data_dirs(data_dirs@, name@),
{
    let parts = split_on(data_dirs, ':');
    let mut dirs: Vec<String> = Vec::new();
    let mut i: usize = 0;
    while i < parts.len()
        invariant
            i <= parts.len(),
            texts(dirs@) == texts(parts@.take(i as int)).map_values(with_suffix(name@)),
        decreases parts.len() - i,
    {
        let ghost before = dirs@;
        let mut dir = parts[i].clone();
        dir.append(name);
        dirs.push(dir);
        proof {
            assert(parts@.take(i + 1) =~= parts@.take(i as int).push(parts@[i as int]));
            assert(texts(dirs@) =~= texts(before).push(dir@));
            assert(texts(parts@.take(i + 1)).map_values(with_suffix(name@)) =~= texts(
                parts@.take(i as int),
            ).map_values(with_suffix(name@)).push(parts@[i as int]@ + name@));
        }
        i += 1;
    }
    proof {
        assert(parts@.take(i as int) =~= parts@);
    }
    dirs
}

fn joined(front: &str, back: &str) -> (whole: String)
    ensures
        whole@ == front@ + back@,
{
    let mut whole = String::from_str(front);
    whole.append(back);
    whole
}

fn append_all(list: &mut Vec<String>, more: Vec<String>)
    ensures
        texts(final(list)@) == texts(old(list)@) + texts(more@),
{
    let ghost start = list@;
    let mut rest = more;
    list.append(&mut rest);
    proof {
        assert(texts(list@) =~= texts(start) + texts(more@));
    }
}

/// The directories in which icons are looked for, in order: the user's
/// two icon directories, `icons` in each data directory, and the system's
/// pixmaps.
pub open spec fn icon_bases_of(home: Seq<char>, data_dirs: Seq<char>) -> Seq<Seq<char>> {
    seq![home + "/.local/share/icons"@, home + "/.icons"@] + in_data_dirs(data_dirs, "/icons"@)
        + seq!["/usr/share/pixmaps"@]
}

/// The directories in which icons are looked for. `home` is the value of
/// `HOME` and `data_dirs` that of `XDG_DATA_DIRS`.
pub fn icon_bases(home: &str, data_dirs: &str) -> (bases: Vec<String>)
    ensures
        texts(bases@) == icon_bases_of(home@, data_dirs@),
{
    let mut bases: Vec<String> = Vec::new();
    bases.push(joined(home, "/.local/share/icons"));
    bases.push(joined(home, "/.icons"));
    proof {
        assert(texts(bases@) =~= seq![home@ + "/.local/share/icons"@, home@ + "/.icons"@]);
    }
    append_all(&mut bases, data_dirs_with(data_dirs, "/icons"));
    let ghost before = bases@;
    let pixmaps = String::from_str("/usr/share/pixmaps");
    bases.push(pixmaps);
    proof {
        assert(texts(bases@) =~= texts(before) + seq!["/usr/share/pixmaps"@]);
    }
    bases
}

/// The directories in which desktop entries are looked for, in order: the
/// user's, and `applications` in each data directory.
pub open spec fn desktop_dirs_of(home: Seq<char>, data_dirs: Seq<char>) -> Seq<Seq<char>> {
    seq![home + "/.local/share/applications"@] + in_data_dirs(data_dirs, "/applications"@)
}

/// The directories in which desktop entries are looked for.
pub fn desktop_dirs(home: &str, data_dirs: &str) -> (dirs: Vec<String>)
    ensures
        texts(dirs@) == desktop_dirs_of(home@, data_dirs@),
{
    let mut dirs: Vec<String> = Vec::new();
    dirs.push(joined(home, "/.local/share/applications"));
    proof {
        assert(texts(dirs@) =~= seq![home@ + "/.local/share/applications"@]);
    }
    append_all(&mut dirs, data_dirs_with(data_dirs, "/applications"));
    dirs
}

/// The file names under which an application's desktop entry is looked
/// for, in order: the name as it is, and in lower case.
pub open spec fn desktop_file_names_of(app_name: Seq<char>) -> Seq<Seq<char>> {
    seq![app_name + ".desktop"@, lowercase_of(app_name) + ".desktop"@]
}

/// The file names under which an application's desktop entry is looked for.
pub fn desktop_file_names(app_name: &str) -> (names: Vec<String>)
    ensures
        texts(names@) == desktop_file_names_of(app_name@),
{
    let mut names: Vec<String> = Vec::new();
    names.push(joined(app_name, ".desktop"));
    names.push(joined(lowercase(app_name).as_str(), ".desktop"));
    proof {
        assert(texts(names@) =~= desktop_file_names_of(app_name@));
    }
    names
}

/// The icon themes that are searched, in order.
pub open spec fn themes() -> Seq<Seq<char>> {
    seq!["hicolor"@, "breeze"@, "Adwaita"@, "AdwaitaLegacy"@, "Papirus"@, "gnome"@]
}

/// The size directories of a theme that are searched, in order: scalable
/// icons first, then raster icons from the largest size down.
pub open spec fn size_dirs() -> Seq<Seq<char>> {
    seq![
        "scalable/apps"@,
        "256x256/apps"@,
        "256x256@2/apps"@,
        "128x128/apps"@,
        "128x128@2/apps"@,
        "64x64/apps"@,
        "48x48/apps"@,
        "32x32/apps"@,
    ]
}

/// The file extensions that are tried, in order.
pub open spec fn extensions() -> Seq<Seq<char>> {
    seq!["svg"@, "png"@, "xpm"@]
}

/// The texts of a list of constant strings.
pub open spec fn constant_texts(list: Seq<&'static str>) -> Seq<Seq<char>> {
    list.map_values(|s: &'static str| s@)
}

fn theme_names() -> (names: Vec<&'static str>)
    ensures
        constant_texts(names@) == themes(),
{
    let names = vec!["hicolor", "breeze", "Adwaita", "AdwaitaLegacy", "Papirus", "gnome"];
    proof {
        assert(constant_texts(names@) =~= themes());
    }
    names
}

fn size_dir_names() -> (names: Vec<&'static str>)
    ensures
        constant_texts(names@) == size_dirs(),
{
    let names = vec![
        "scalable/apps",
        "256x256/apps",
        "256x256@2/apps",
        "128x128/apps",
        "128x128@2/apps",
        "64x64/apps",
        "48x48/apps",
        "32x32/apps",
    ];
    proof {
        assert(constant_texts(names@) =~= size_dirs());
    }
    names
}

fn extension_names() -> (names: Vec<&'static str>)
    ensures
        constant_texts(names@) == extensions(),
{
    let names = vec!["svg", "png", "xpm"];
    proof {
        assert(constant_texts(names@) =~= extensions());
    }
    names
}

/// The name of the file that holds icon `candidate` in format `extension`.
pub open spec fn icon_file_name(candidate: Seq<char>, extension: Seq<char>) -> Seq<char> {
    candidate + "."@ + extension
}

/// The place of an icon in a theme, as the path components below a base
/// directory: the theme, the size directory, and the file.
pub open spec fn themed_probe(candidate: Seq<char>, theme: int, size: int, extension: int) -> Seq<
    Seq<char>,
> {
    seq![themes()[theme], size_dirs()[size], icon_file_name(candidate, extensions()[extension])]
}

/// The place of an icon directly in a base directory.
pub open spec fn flat_probe(candidate: Seq<char>, extension: int) -> Seq<Seq<char>> {
    seq![icon_file_name(candidate, extensions()[extension])]
}

/// The places below a base directory where icon `candidate` is looked for,
/// in order: in each theme, in each size directory of it, in each format;
/// after those, directly in the base directory, in each format.
pub open spec fn icon_probes_of(candidate: Seq<char>) -> Seq<Seq<Seq<char>>> {
    Seq::new(
        147,
        |i: int|
            if i < 144 {
                themed_probe(candidate, i / 24, (i % 24) / 3, i % 3)
            } else {
                flat_probe(candidate, i - 144)
            },
    )
}

/// The path components that a list of probes holds.
pub open spec fn probe_views(probes: Seq<Vec<String>>) -> Seq<Seq<Seq<char>>> {
    probes.map_values(|probe: Vec<String>| texts(probe@))
}

fn file_name(candidate: &str, extension: &str) -> (name: String)
    ensures
        name@ == icon_file_name(candidate@, extension@),
{
    let mut name = String::from_str(candidate);
    name.append(".");
    name.append(extension);
    name
}

/// The places below a base directory where icon `candidate` is looked for,
/// in the order in which they are to be tried. Each place is a list of
/// path components.
pub fn icon_probes(candidate: &str) -> (probes: Vec<Vec<String>>)
    ensures
        probe_views(probes@) == icon_probes_of(candidate@),
{
    let theme_list = theme_names();
    let size_list = size_dir_names();
    let extension_list = extension_names();
    assert(theme_list@.len() == constant_texts(theme_list@).len());
    assert(size_list@.len() == constant_texts(size_list@).len());
    assert(extension_list@.len() == constant_texts(extension_list@).len());
    let mut probes: Vec<Vec<String>> = Vec::new();
    let mut t: usize = 0;
    while t < 6
        invariant
            t <= 6,
            theme_list@.len() == 6,
            size_list@.len() == 8,
            extension_list@.len() == 3,
            constant_texts(theme_list@) == themes(),
            constant_texts(size_list@) == size_dirs(),
            constant_texts(extension_list@) == extensions(),
            probes@.len() == t * 24,
            forall|i: int|
                0 <= i < probes@.len() ==> texts(#[trigger] probes@[i]@) == icon_probes_of(
                    candidate@,
                )[i],
        decreases 6 - t,
    {
        let mut z: usize = 0;
        while z < 8
            invariant
                t < 6,
                z <= 8,
                theme_list@.len() == 6,
                size_list@.len() == 8,
                extension_list@.len() == 3,
                constant_texts(theme_list@) == themes(),
                constant_texts(size_list@) == size_dirs(),
                constant_texts(extension_list@) == extensions(),
                probes@.len() == t * 24 + z * 3,
                forall|i: int|
                    0 <= i < probes@.len() ==> texts(#[trigger] probes@[i]@) == icon_probes_of(
                        candidate@,
                    )[i],
            decreases 8 - z,
        {
            let mut e: usize = 0;
            while e < 3
                invariant
                    t < 6,
                    z < 8,
                    e <= 3,
                    theme_list@.len() == 6,
                    size_list@.len() == 8,
                    extension_list@.len() == 3,
                    constant_texts(theme_list@) == themes(),
                    constant_texts(size_list@) == size_dirs(),
                    constant_texts(extension_list@) == extensions(),
                    probes@.len() == t * 24 + z * 3 + e,
                    forall|i: int|
                        0 <= i < probes@.len() ==> texts(#[trigger] probes@[i]@)
                            == icon_probes_of(candidate@)[i],
                decreases 3 - e,
            {
                let ghost at = probes@.len() as int;
                let mut probe: Vec<String> = Vec::new();
                probe.push(String::from_str(theme_list[t]));
                probe.push(String::from_str(size_list[z]));
                probe.push(file_name(candidate, extension_list[e]));
                proof {
                    assert(constant_texts(theme_list@)[t as int] == theme_list@[t as int]@);
                    assert(constant_texts(size_list@)[z as int] == size_list@[z as int]@);
                    assert(constant_texts(extension_list@)[e as int] == extension_list@[e as int]@);
                    assert(at / 24 == t && (at % 24) / 3 == z && at % 3 == e);
                    assert(texts(probe@) =~= themed_probe(candidate@, t as int, z as int, e as int));
                }
                probes.push(probe);
                e += 1;
            }
            z += 1;
        }
        t += 1;
    }
    let mut e: usize = 0;
    while e < 3
        invariant
            e <= 3,
            extension_list@.len() == 3,
            constant_texts(extension_list@) == extensions(),
            probes@.len() == 144 + e,
            forall|i: int|
                0 <= i < probes@.len() ==> texts(#[trigger] probes@[i]@) == icon_probes_of(
                    candidate@,
                )[i],
        decreases 3 - e,
    {
        let mut probe: Vec<String> = Vec::new();
        probe.push(file_name(candidate, extension_list[e]));
        proof {
            assert(constant_texts(extension_list@)[e as int] == extension_list@[e as int]@);
            assert(texts(probe@) =~= flat_probe(candidate@, e as int));
        }
        probes.push(probe);
        e += 1;
    }
    proof {
        assert(probe_views(probes@) =~= icon_probes_of(candidate@));
    }
    probes
}

/// The key of the line that names an entry's icon.
pub open spec fn icon_key() -> Seq<char> {
    seq!['I', 'c', 'o', 'n', '=']
}

/// The key of the line that holds an entry's command.
pub open spec fn exec_key() -> Seq<char> {
    seq!['E', 'x', 'e', 'c', '=']
}

/// The key of the line that holds an entry's window class.
pub open spec fn class_key() -> Seq<char> {
    seq!['S', 't', 'a', 'r', 't', 'u', 'p', 'W', 'M', 'C', 'l', 'a', 's', 's', '=']
}

/// Whether a text holds neither a newline nor a carriage return.
pub open spec fn on_one_line(key: Seq<char>) -> bool {
    forall|i: int| 0 <= i < key.len() ==> (#[trigger] key[i]) != '\n' && key[i] != '\r'
}

/// What follows `key` on the line that begins at `from`, where the line
/// begins with `key`.
pub open spec fn value_after(text: Seq<char>, from: int, key: Seq<char>) -> Seq<char> {
    text.subrange(from + key.len(), line_stop(text, from))
}

/// The icon that a desktop entry names, looking at the lines that begin at
/// `from` or later: what follows the key on the first icon line on which
/// something other than white space follows it, without the white space
/// around it.
pub open spec fn named_icon_from(text: Seq<char>, from: int) -> Option<Seq<char>>
    decreases text.len() - from,
{
    if 0 <= from < text.len() {
        let end = line_end(text, from);
        if has_prefix_at(text, from, icon_key()) && trimmed(
            value_after(text, from, icon_key()),
        ).len() > 0 {
            Some(trimmed(value_after(text, from, icon_key())))
        } else if from <= end < text.len() {
            named_icon_from(text, end + 1)
        } else {
            None
        }
    } else {
        None
    }
}

/// The icon that a desktop entry names, if it names one.
pub open spec fn named_icon(text: Seq<char>) -> Option<Seq<char>> {
    named_icon_from(text, 0)
}

/// What a pass over a desktop entry has found so far.
pub struct EntryScan {
    /// What the last icon line gave, if there was one.
    pub icon: Option<Seq<char>>,
    /// Whether a command or a window class matched the application.
    pub matched: bool,
}

/// What the pass has found once it has read the line that begins at `from`.
pub open spec fn after_entry_line(
    text: Seq<char>,
    from: int,
    app_name: Seq<char>,
    so_far: EntryScan,
) -> EntryScan {
    EntryScan {
        icon: if has_prefix_at(text, from, icon_key()) {
            Some(trimmed(value_after(text, from, icon_key())))
        } else {
            so_far.icon
        },
        matched: so_far.matched || (has_prefix_at(text, from, exec_key()) && occurs_in(
            lowercase_of(value_after(text, from, exec_key())),
            app_name,
        )) || (has_prefix_at(text, from, class_key()) && lowercase_of(
            value_after(text, from, class_key()),
        ) == app_name),
    }
}

/// What the pass has found once it has read every line that begins at
/// `from` or later.
pub open spec fn entry_scan_from(text: Seq<char>, from: int, app_name: Seq<char>, so_far: EntryScan) -> EntryScan
    decreases text.len() - from,
{
    if 0 <= from < text.len() {
        let end = line_end(text, from);
        let next = after_entry_line(text, from, app_name, so_far);
        if from <= end < text.len() {
            entry_scan_from(text, end + 1, app_name, next)
        } else {
            next
        }
    } else {
        so_far
    }
}

/// The icon of a desktop entry that belongs to application `app_name`:
/// what the entry's last icon line gives, where the entry's command in
/// lower case holds `app_name` or its window class in lower case is
/// `app_name`. `None` where the entry does not belong to the application or
/// has no icon line.
pub open spec fn matching_icon(text: Seq<char>, app_name: Seq<char>) -> Option<Seq<char>> {
    let found = entry_scan_from(text, 0, app_name, EntryScan { icon: None, matched: false });
    if found.matched {
        found.icon
    } else {
        None
    }
}

/// A line that begins with a key goes on at least to the key's end.
proof fn lemma_key_fits(text: Seq<char>, from: int, end: int, key: Seq<char>)
    requires
        has_prefix_at(text, from, key),
        on_one_line(key),
        from <= end <= text.len(),
        end == line_end(text, from),
        end < text.len() ==> text[end] == '\n',
    ensures
        from + key.len() <= line_stop(text, from),
{
    let part = text.subrange(from, from + key.len());
    if end < from + key.len() {
        assert(part[end - from] == text[end]);
    }
    if from < end && end < text.len() && text[end - 1] == '\r' && end - 1 < from + key.len() {
        assert(part[end - 1 - from] == text[end - 1]);
    }
}

fn icon_key_chars() -> (key: Vec<char>)
    ensures
        key@ == icon_key(),
        on_one_line(key@),
{
    let key = vec!['I', 'c', 'o', 'n', '='];
    proof {
        assert(key@ =~= icon_key());
    }
    key
}

fn exec_key_chars() -> (key: Vec<char>)
    ensures
        key@ == exec_key(),
        on_one_line(key@),
{
    let key = vec!['E', 'x', 'e', 'c', '='];
    proof {
        assert(key@ =~= exec_key());
    }
    key
}

fn class_key_chars() -> (key: Vec<char>)
    ensures
        key@ == class_key(),
        on_one_line(key@),
{
    let key = vec!['S', 't', 'a', 'r', 't', 'u', 'p', 'W', 'M', 'C', 'l', 'a', 's', 's', '='];
    proof {
        assert(key@ =~= class_key());
    }
    key
}

/// What follows `key` on the line from `from` to `end`, if the line begins
/// with `key`.
fn keyed_value<'a>(text: &'a str, chars: &Vec<char>, from: usize, end: usize, key: &Vec<char>) -> (value:
    Option<&'a str>)
    requires
        chars@ == text@,
        on_one_line(key@),
        from <= end <= chars.len(),
        end == line_end(text@, from as int),
        end < chars.len() ==> chars@[end as int] == '\n',
    ensures
        value is Some == has_prefix_at(text@, from as int, key@),
        value is Some ==> value.unwrap()@ == value_after(text@, from as int, key@),
{
    if matches_at(chars, from, key) {
        let stop = trim_line_end(chars, from, end);
        proof {
            lemma_key_fits(text@, from as int, end as int, key@);
        }
        Some(text.substring_char(from + key.len(), stop))
    } else {
        None
    }
}

/// The icon that a desktop entry names, if it names one.
pub fn desktop_icon(content: &str) -> (icon: Option<String>)
    ensures
        text_view(icon) == named_icon(content@),
{
    let chars = chars_of(content);
    let key = icon_key_chars();
    let mut from: usize = 0;
    while from < chars.len()
        invariant
            chars@ == content@,
            key@ == icon_key(),
            on_one_line(key@),
            from <= chars.len(),
            named_icon(content@) == named_icon_from(content@, from as int),
        decreases chars.len() - from,
    {
        let end = scan_line(&chars, from);
        match keyed_value(content, &chars, from, end, &key) {
            Some(value) => {
                let name = trim(value);
                if !name.is_empty() {
                    return Some(String::from_str(name));
                }
            },
            None => {},
        }
        if end < chars.len() {
            from = end + 1;
        } else {
            return None;
        }
    }
    None
}

/// The icon of a desktop entry, if the entry belongs to application
/// `app_name`, which is given in lower case.
pub fn desktop_entry_icon(content: &str, app_name: &str) -> (icon: Option<String>)
    ensures
        text_view(icon) == matching_icon(content@, app_name@),
{
    let chars = chars_of(content);
    let wanted = chars_of(app_name);
    let icon_key = icon_key_chars();
    let exec_key = exec_key_chars();
    let class_key = class_key_chars();
    let mut icon: Option<String> = None;
    let mut matched = false;
    let ghost start = EntryScan { icon: None, matched: false };
    let mut from: usize = 0;
    while from < chars.len()
        invariant
            chars@ == content@,
            wanted@ == app_name@,
            icon_key@ == self::icon_key(),
            exec_key@ == self::exec_key(),
            class_key@ == self::class_key(),
            on_one_line(icon_key@),
            on_one_line(exec_key@),
            on_one_line(class_key@),
            from <= chars.len(),
            start == (EntryScan { icon: None, matched: false }),
            entry_scan_from(content@, 0, app_name@, start) == entry_scan_from(
                content@,
                from as int,
                app_name@,
                EntryScan { icon: text_view(icon), matched },
            ),
        decreases chars.len() - from,
    {
        let end = scan_line(&chars, from);
        match keyed_value(content, &chars, from, end, &icon_key) {
            Some(value) => {
                icon = Some(String::from_str(trim(value)));
            },
            None => {},
        }
        match keyed_value(content, &chars, from, end, &exec_key) {
            Some(value) => {
                let lower = chars_of(lowercase(value).as_str());
                if contains_text(&lower, &wanted) {
                    matched = true;
                }
            },
            None => {},
        }
        match keyed_value(content, &chars, from, end, &class_key) {
            Some(value) => {
                let lower = chars_of(lowercase(value).as_str());
                if same_text(&lower, &wanted) {
                    matched = true;
                }
            },
            None => {},
        }
        if end < chars.len() {
            from = end + 1;
        } else {
            from = chars.len();
        }
    }
    if matched {
        icon
    } else {
        None
    }
}

/// The first lines of the report on an icon search: the two settings that
/// the search goes by, and the first two names that it looks for.
pub open spec fn search_header_of(app_id: Seq<char>, home: Seq<char>, data_dirs: Seq<char>) -> Seq<
    Seq<char>,
> {
    let names = icon_candidates_of(app_id);
    seq![
        "HOME="@ + home,
        "XDG_DATA_DIRS="@ + data_dirs,
        "candidates: "@ + names[0] + ", "@ + names[1],
    ]
}

/// The first lines of the report on the search for the icon of
/// application `app_id`. The caller adds what it finds on disk.
pub fn debug_icon_search(app_id: &str, home: &str, data_dirs: &str) -> (report: Vec<String>)
    ensures
        texts(report@) == search_header_of(app_id@, home@, data_dirs@),
{
    let names = icon_candidates(app_id);
    assert(texts(names@).len() == names@.len());
    assert(texts(names@)[0] == names@[0]@);
    assert(texts(names@)[1] == names@[1]@);
    let mut candidates = String::from_str("candidates: ");
    candidates.append(names[0].as_str());
    candidates.append(", ");
    candidates.append(names[1].as_str());
    let mut report: Vec<String> = Vec::new();
    report.push(joined("HOME=", home));
    report.push(joined("XDG_DATA_DIRS=", data_dirs));
    report.push(candidates);
    proof {
        assert(texts(report@) =~= search_header_of(app_id@, home@, data_dirs@));
    }
    report
}

/// For each directory of the list, in order, its `icons` and its `pixmaps`.
pub open spec fn icons_and_pixmaps(dirs: Seq<Seq<char>>) -> Seq<Seq<char>>
    decreases dirs.len(),
{
    if dirs.len() == 0 {
        Seq::empty()
    } else {
        icons_and_pixmaps(dirs.drop_last()).push(dirs.last() + "/icons"@).push(
            dirs.last() + "/pixmaps"@,
        )
    }
}

/// The directories that the report on an icon search looks into, in
/// order: the user's two icon directories, `icons` and `pixmaps` in each
/// data directory, and the system's pixmaps.
pub open spec fn debug_icon_bases_of(home: Seq<char>, data_dirs: Seq<char>) -> Seq<Seq<char>> {
    seq![home + "/.local/share/icons"@, home + "/.icons"@] + icons_and_pixmaps(
        pieces(data_dirs, ':'),
    ) + seq!["/usr/share/pixmaps"@]
}

/// The directories that the report on an icon search looks into.
pub fn debug_icon_bases(home: &str, data_dirs: &str) -> (bases: Vec<String>)
    ensures
        texts(bases@) == debug_icon_bases_of(home@, data_dirs@),
{
    let parts = split_on(data_dirs, ':');
    let mut bases: Vec<String> = Vec::new();
    bases.push(joined(home, "/.local/share/icons"));
    bases.push(joined(home, "/.icons"));
    let ghost head = seq![home@ + "/.local/share/icons"@, home@ + "/.icons"@];
    proof {
        assert(texts(bases@) =~= head + icons_and_pixmaps(texts(parts@.take(0))));
    }
    let mut i: usize = 0;
    while i < parts.len()
        invariant
            i <= parts.len(),
            texts(bases@) == head + icons_and_pixmaps(texts(parts@.take(i as int))),
        decreases parts.len() - i,
    {
        let ghost before = bases@;
        let icons = joined(parts[i].as_str(), "/icons");
        let pixmaps = joined(parts[i].as_str(), "/pixmaps");
        bases.push(icons);
        bases.push(pixmaps);
        proof {
            let more = texts(parts@.take(i + 1));
            assert(more.drop_last() =~= texts(parts@.take(i as int)));
            assert(more.last() == parts@[i as int]@);
            assert(texts(bases@) =~= texts(before).push(icons@).push(pixmaps@));
            assert(texts(bases@) =~= head + icons_and_pixmaps(more));
        }
        i += 1;
    }
    let ghost before = bases@;
    bases.push(String::from_str("/usr/share/pixmaps"));
    proof {
        assert(parts@.take(i as int) =~= parts@);
        assert(texts(bases@) =~= texts(before) + seq!["/usr/share/pixmaps"@]);
    }
    bases
}

/// The first line, from `from` on, that begins with the icon key.
pub open spec fn icon_line_from(text: Seq<char>, from: int) -> Option<Seq<char>>
    decreases text.len() - from,
{
    if 0 <= from < text.len() {
        let end = line_end(text, from);
        if has_prefix_at(text, from, icon_key()) {
            Some(text.subrange(from, line_stop(text, from)))
        } else if from <= end < text.len() {
            icon_line_from(text, end + 1)
        } else {
            None
        }
    } else {
        None
    }
}

/// The icon line that the report shows for a desktop entry: the entry's
/// first line that begins with the icon key, or a note that it has none.
pub open spec fn shown_icon_line(text: Seq<char>) -> Seq<char> {
    match icon_line_from(text, 0) {
        Some(line) => line,
        None => "Icon= NOT FOUND"@,
    }
}

/// The icon line that the report shows for a desktop entry.
pub fn debug_icon_line(content: &str) -> (line: String)
    ensures
        line@ == shown_icon_line(content@),
{
    let chars = chars_of(content);
    let key = icon_key_chars();
    let mut from: usize = 0;
    while from < chars.len()
        invariant
            chars@ == content@,
            key@ == icon_key(),
            on_one_line(key@),
            from <= chars.len(),
            icon_line_from(content@, 0) == icon_line_from(content@, from as int),
        decreases chars.len() - from,
    {
        let end = scan_line(&chars, from);
        if matches_at(&chars, from, &key) {
            let stop = trim_line_end(&chars, from, end);
            return slice_text(content, from, stop);
        }
        if end < chars.len() {
            from = end + 1;
        } else {
            return String::from_str("Icon= NOT FOUND");
        }
    }
    String::from_str("Icon= NOT FOUND")
}

} // verus!
