//! The files of recordings: is one empty, are two the same, and where does a copy go.
use vstd::prelude::*;
use vstd::string::*;
use vstd::utf8::encode_utf8;

use crate::config::Environment;
use crate::file_path::{joined_bytes, name_bytes, opt_bytes, opt_encoded, parent_bytes, same_bytes, FilePath};
use crate::path::{join, joined};
use crate::ui_settings::recordings_folder;
use crate::text::{
    begins, is_white, opt_text, same, starts_with, strip, strip_ends, strip_front, strip_prefix,
    strip_start, trim, trimmed, what_is_stripped_off_does_not_matter, Edge,
};

verus! {

/// Four bytes as a number, the most significant first.
pub open spec fn be32(b: Seq<u8>) -> nat {
    (b[0] as nat * 0x100_0000 + b[1] as nat * 0x1_0000 + b[2] as nat * 0x100 + b[3] as nat) as nat
}

/// The four bytes spell `mdat`, the box that holds the samples.
pub open spec fn is_mdat(b: Seq<u8>) -> bool {
    b[0] == 0x6d && b[1] == 0x64 && b[2] == 0x61 && b[3] == 0x74
}

/// How many bytes of the file lie at or behind `offset`.
pub open spec fn bytes_left(file: Seq<u8>, offset: int) -> nat {
    if offset <= file.len() {
        (file.len() - offset) as nat
    } else {
        0
    }
}

/// A top-level box of an MP4 file: its size as it is written, and whether it holds samples.
pub ghost struct FileBox {
    pub size: nat,
    pub mdat: bool,
}

/// The box whose header stands at `offset`.
pub open spec fn box_at(file: Seq<u8>, offset: int) -> FileBox {
    FileBox {
        size: be32(file.subrange(offset, offset + 4)),
        mdat: is_mdat(file.subrange(offset + 4, offset + 8)),
    }
}

/// The top-level boxes from `offset` on, up to the end of the file or a box of less than eight
/// bytes, behind which nothing can be found.
pub open spec fn boxes_from(file: Seq<u8>, offset: int) -> Seq<FileBox>
    decreases bytes_left(file, offset),
{
    if offset < 0 || offset + 8 > file.len() {
        Seq::empty()
    } else {
        let b = box_at(file, offset);
        if b.size < 8 {
            seq![b]
        } else {
            seq![b] + boxes_from(file, offset + b.size)
        }
    }
}

/// A box of samples with nothing in it.
pub open spec fn is_empty_mdat(b: FileBox) -> bool {
    b.mdat && b.size == 8
}

/// A box of samples with something in it, or of a size that does not tell.
pub open spec fn is_payload(b: FileBox) -> bool {
    b.mdat && b.size != 8
}

pub open spec fn has_empty_mdat(boxes: Seq<FileBox>) -> bool {
    exists|i: int| 0 <= i < boxes.len() && is_empty_mdat(#[trigger] boxes[i])
}

pub open spec fn has_payload(boxes: Seq<FileBox>) -> bool {
    exists|i: int| 0 <= i < boxes.len() && is_payload(#[trigger] boxes[i])
}

/// Is a recording with these boxes and of this length called empty? It is if it has an empty box
/// of samples and no other; without any it is only if it is implausibly small.
pub open spec fn called_empty(boxes: Seq<FileBox>, len: nat) -> bool {
    !has_payload(boxes) && (has_empty_mdat(boxes) || len < 1024)
}

/// Is this file called an empty recording?
pub open spec fn found_empty(file: Seq<u8>) -> bool {
    called_empty(boxes_from(file, 0), file.len())
}

/// The walk over the boxes of a file.
#[derive(Debug, Clone, Copy, PartialEq, Eq, Structural)]
pub struct BoxWalk {
    /// Where the next box starts.
    pub offset: u64,
    /// An empty box of samples has been passed.
    pub saw_empty: bool,
    /// Another box of samples has been passed.
    pub saw_payload: bool,
}

/// What follows after a box.
#[derive(Debug, Clone, Copy, PartialEq, Eq, Structural)]
pub enum WalkStep {
    /// Read the eight bytes at the offset.
    ReadNext,
    /// There is nothing more to read.
    Finished,
}

impl BoxWalk {
    pub fn new() -> (r: Self)
        ensures
            r == (BoxWalk { offset: 0, saw_empty: false, saw_payload: false }),
    {
        BoxWalk { offset: 0, saw_empty: false, saw_payload: false }
    }

    /// The walk after a box.
    pub open spec fn after(self, b: FileBox) -> BoxWalk {
        BoxWalk {
            offset: if b.size < 8 {
                self.offset
            } else {
                (self.offset + b.size) as u64
            },
            saw_empty: self.saw_empty || is_empty_mdat(b),
            saw_payload: self.saw_payload || is_payload(b),
        }
    }

    /// Takes the header of the box at the offset: four bytes of size, four of type.
    pub fn on_header(&mut self, header: &[u8]) -> (step: WalkStep)
        requires
            header@.len() == 8,
            old(self).offset <= i64::MAX,
        ensures
            *final(self) == old(self).after(box_at(header@, 0)),
            step == (if box_at(header@, 0).size < 8 {
                WalkStep::Finished
            } else {
                WalkStep::ReadNext
            }),
    {
        let size: u64 = header[0] as u64 * 0x100_0000 + header[1] as u64 * 0x1_0000 + header[2] as u64
            * 0x100 + header[3] as u64;
        let mdat = header[4] == 0x6d && header[5] == 0x64 && header[6] == 0x61 && header[7] == 0x74;
        assert(be32(header@.subrange(0, 4)) == size);
        assert(is_mdat(header@.subrange(4, 8)) == mdat);
        if mdat {
            if size == 8 {
                self.saw_empty = true;
            } else {
                self.saw_payload = true;
            }
        }
        if size < 8 {
            return WalkStep::Finished;
        }
        self.offset = self.offset + size;
        WalkStep::ReadNext
    }

    /// The verdict once there is nothing more to read. `len` is the length of the file, `None`
    /// where it is unknown.
    pub fn at_end(&self, len: Option<u64>) -> (r: bool)
        ensures
            r == (!self.saw_payload && (self.saw_empty || (len matches Some(n) && n < 1024))),
    {
        let small = match len {
            Some(n) => n < 1024,
            None => false,
        };
        !self.saw_payload && (self.saw_empty || small)
    }
}

proof fn lemma_first_box(b: FileBox, rest: Seq<FileBox>)
    ensures
        has_empty_mdat(seq![b] + rest) == (is_empty_mdat(b) || has_empty_mdat(rest)),
        has_payload(seq![b] + rest) == (is_payload(b) || has_payload(rest)),
{
    let all = seq![b] + rest;
    assert(all[0] == b);
    assert forall|i: int| 0 <= i < rest.len() implies #[trigger] rest[i] == all[i + 1] by {}
    if has_empty_mdat(all) {
        let i = choose|i: int| 0 <= i < all.len() && is_empty_mdat(#[trigger] all[i]);
        assert(i == 0 || all[i] == rest[i - 1]);
    }
    if has_payload(all) {
        let i = choose|i: int| 0 <= i < all.len() && is_payload(#[trigger] all[i]);
        assert(i == 0 || all[i] == rest[i - 1]);
    }
}

/// Does a finalised recording hold no video data?
///
/// A muxer that never got a packet still finalises a valid file, with an empty box of samples.
/// True only on a positive identification: what cannot be walked is left alone.
pub fn recording_is_empty(file: &Vec<u8>) -> (r: bool)
    requires
        file@.len() <= i64::MAX,
    ensures
        r == found_empty(file@),
{
    let mut walk = BoxWalk::new();
    let len: usize = file.len();
    let n: u64 = len as u64;
    let ghost all = boxes_from(file@, 0);
    loop
        invariant
            n == len == file@.len(),
            n <= i64::MAX,
            walk.offset <= n + u32::MAX,
            all == boxes_from(file@, 0),
            has_empty_mdat(all) == (walk.saw_empty || has_empty_mdat(
                boxes_from(file@, walk.offset as int),
            )),
            has_payload(all) == (walk.saw_payload || has_payload(
                boxes_from(file@, walk.offset as int),
            )),
        decreases n + u32::MAX - walk.offset,
    {
        if walk.offset + 8 > n {
            return walk.at_end(Some(n));
        }
        let at: usize = walk.offset as usize;
        let header = vstd::slice::slice_subrange(file.as_slice(), at, at + 8);
        assert(header@.subrange(0, 4) =~= file@.subrange(at as int, at + 4));
        assert(header@.subrange(4, 8) =~= file@.subrange(at + 4, at + 8));
        let ghost b = box_at(file@, at as int);
        assert(box_at(header@, 0) == b);
        proof {
            lemma_first_box(b, boxes_from(file@, at + b.size));
            lemma_first_box(b, Seq::empty());
            assert(seq![b] + Seq::<FileBox>::empty() =~= seq![b]);
        }
        match walk.on_header(header) {
            WalkStep::Finished => {
                return walk.at_end(Some(n));
            },
            WalkStep::ReadNext => {},
        }
    }
}

/// A recording with anything in a box of samples is never called empty, wherever that box stands
/// and whatever stands beside it.
pub proof fn a_recording_with_payload_is_never_called_empty(file: Seq<u8>, i: int)
    requires
        0 <= i < boxes_from(file, 0).len(),
        is_payload(boxes_from(file, 0)[i]),
    ensures
        !found_empty(file),
{
}

/// A file of some size is called empty only if it has a box of samples without any.
pub proof fn only_an_empty_box_makes_a_large_file_empty(file: Seq<u8>)
    requires
        file.len() >= 1024,
        found_empty(file),
    ensures
        has_empty_mdat(boxes_from(file, 0)),
{
}

/// The bytes of the local path that a URL names: percent escapes are decoded. None for what is no
/// URL or names another host.
pub uninterp spec fn url_file_path(url: Seq<char>) -> Option<Seq<u8>>;

/// `url::Url::parse`, then `Url::to_file_path`. The path depends on the text alone.
#[verifier::external_body]
pub(crate) fn file_path_of_url(url: &str) -> (r: Option<FilePath>)
    ensures
        opt_bytes(r) == url_file_path(url@),
{
    let path = url::Url::parse(url).ok()?.to_file_path().ok()?;
    Some(FilePath { bytes: path.into_os_string().into_encoded_bytes() })
}

/// The local path that a file dialog's URI names.
pub fn uri_to_path(uri: &str) -> (r: Option<FilePath>)
    ensures
        opt_bytes(r) == url_file_path(uri@),
{
    file_path_of_url(uri)
}

/// What a file dialog answered.
#[derive(Debug, Clone)]
pub enum DialogReply {
    /// The URIs of the chosen files.
    Chosen(Vec<String>),
    /// The dialog was dismissed or refused.
    Refused(String),
    /// The dialog could not be opened.
    NotOpened(String),
}

/// The place that a file dialog named by `uri`, which leads to `path`: that path, or what is
/// wrong with it.
pub open spec fn named_place(
    uri: Seq<char>,
    path: Option<Seq<u8>>,
    r: Result<Option<FilePath>, String>,
) -> bool {
    match path {
        Some(p) => r matches Ok(Some(place)) && place@ == p,
        None => r matches Err(e) && e@ == "the dialog returned "@ + uri
            + ", which is not a local file"@,
    }
}

/// The place that a file dialog named by `uri`, which leads to `path`.
pub fn chosen_place(uri: &str, path: Option<FilePath>) -> (r: Result<Option<FilePath>, String>)
    ensures
        named_place(uri@, opt_bytes(path), r),
{
    match path {
        Some(p) => Ok(Some(p)),
        None => {
            let mut e = String::from_str("the dialog returned ");
            e.append(uri);
            e.append(", which is not a local file");
            Err(e)
        },
    }
}

/// The place to save to: a path, none if nothing was chosen, or what went wrong.
pub fn pick_outcome(reply: &DialogReply) -> (r: Result<Option<FilePath>, String>)
    ensures
        match *reply {
            DialogReply::Chosen(uris) => if uris@.len() == 0 {
                r == Ok::<Option<FilePath>, String>(None)
            } else {
                named_place(uris@[0]@, url_file_path(uris@[0]@), r)
            },
            DialogReply::Refused(cause) => r matches Err(e) && e@
                == "save dialog was dismissed or refused: "@ + cause@,
            DialogReply::NotOpened(cause) => r matches Err(e) && e@
                == "could not open the save dialog: "@ + cause@,
        },
{
    match reply {
        DialogReply::Chosen(uris) => {
            if uris.len() == 0 {
                return Ok(None);
            }
            let path = uri_to_path(uris[0].as_str());
            chosen_place(uris[0].as_str(), path)
        },
        DialogReply::Refused(cause) => Err(
            String::from_str("save dialog was dismissed or refused: ").concat(cause.as_str()),
        ),
        DialogReply::NotOpened(cause) => Err(
            String::from_str("could not open the save dialog: ").concat(cause.as_str()),
        ),
    }
}

/// `s` without the prefix `file://`, however often it is repeated.
pub open spec fn without_scheme(s: Seq<char>) -> Seq<char>
    decreases s.len(),
{
    if begins(s, "file://"@) && "file://"@.len() > 0 {
        without_scheme(s.skip("file://"@.len() as int))
    } else {
        s
    }
}

fn strip_scheme(s: &str) -> (r: String)
    ensures
        r@ == without_scheme(s@),
    decreases s@.len(),
{
    proof {
        reveal_strlit("file://");
    }
    match strip_prefix(s, "file://") {
        Some(rest) => {
            assert(rest@ =~= s@.skip("file://"@.len() as int));
            strip_scheme(rest.as_str())
        },
        None => String::from_str(s),
    }
}

/// What is left of a pasted folder once white space and quotes are gone.
pub open spec fn cleaned(raw: Seq<char>) -> Seq<char> {
    trimmed(strip(trimmed(raw), Edge::Quote))
}

/// A path that is not empty.
pub open spec fn nonempty(p: Seq<char>) -> Option<Seq<char>> {
    if p.len() == 0 {
        None
    } else {
        Some(p)
    }
}

/// `t` with the home directory in place of `~`, `~/` or `$HOME` at its front, if there is a
/// home directory.
pub open spec fn expanded(t: Seq<char>, home: Option<Seq<char>>) -> Option<Seq<char>> {
    match home {
        Some(h) => if t == "~"@ {
            Some(joined(h, ""@))
        } else if begins(t, "~/"@) {
            Some(joined(h, t.skip("~/"@.len() as int)))
        } else if begins(t, "$HOME"@) {
            Some(joined(h, strip_front(t.skip("$HOME"@.len() as int), Edge::Slash)))
        } else {
            nonempty(t)
        },
        None => nonempty(t),
    }
}

/// The path that a folder means once it is cleaned. `url_path` is where it leads as a URL.
pub open spec fn meant_folder(
    t: Seq<char>,
    url_path: Option<Seq<u8>>,
    home: Option<Seq<char>>,
) -> Option<Seq<u8>> {
    if t.len() == 0 {
        None
    } else if begins(t, "file://"@) {
        match url_path {
            Some(p) => Some(p),
            None => opt_encoded(expanded(without_scheme(t), home)),
        }
    } else {
        opt_encoded(expanded(t, home))
    }
}

/// The path that a pasted folder means.
#[verifier::opaque]
pub open spec fn folder_path(raw: Seq<char>, home: Option<Seq<char>>) -> Option<Seq<u8>> {
    meant_folder(cleaned(raw), url_file_path(cleaned(raw)), home)
}

/// What is left of a pasted folder once white space and quotes are gone.
pub fn clean_folder_input(raw: &str) -> (r: String)
    ensures
        r@ == cleaned(raw@),
{
    let unquoted = strip_ends(trim(raw).as_str(), Edge::Quote);
    trim(unquoted.as_str())
}

/// The path that a cleaned folder means. `url_path` is where it leads as a URL, which counts
/// where it begins like one.
pub fn folder_from(cleaned: &str, url_path: Option<FilePath>, home: &Option<String>) -> (r: Option<
    FilePath,
>)
    ensures
        opt_bytes(r) == meant_folder(cleaned@, opt_bytes(url_path), opt_text(*home)),
{
    let mut t = String::from_str(cleaned);
    if t.as_str().is_empty() {
        return None;
    }
    if starts_with(t.as_str(), "file://") {
        if let Some(path) = url_path {
            return Some(path);
        }
        t = strip_scheme(t.as_str());
    }
    match expand(t, home) {
        Some(path) => Some(FilePath::from_text(path.as_str())),
        None => None,
    }
}

fn expand(t: String, home: &Option<String>) -> (r: Option<String>)
    ensures
        opt_text(r) == expanded(t@, opt_text(*home)),
{
    if let Some(h) = home {
        if same(t.as_str(), "~") {
            return Some(join(h.as_str(), ""));
        }
        if let Some(rest) = strip_prefix(t.as_str(), "~/") {
            assert(rest@ =~= t@.skip("~/"@.len() as int));
            return Some(join(h.as_str(), rest.as_str()));
        }
        if let Some(rest) = strip_prefix(t.as_str(), "$HOME") {
            assert(rest@ =~= t@.skip("$HOME"@.len() as int));
            let below = strip_start(rest.as_str(), Edge::Slash);
            return Some(join(h.as_str(), below.as_str()));
        }
    }
    if t.as_str().is_empty() {
        return None;
    }
    Some(t)
}

/// Turns what was typed or pasted into the folder box into a path: white space and quotes are
/// stripped, a `file://` URI from a file manager is decoded, and the shell's shorthands for the
/// home directory are expanded. `None` if nothing is left.
///
/// `home` is the variable `HOME`.
pub fn normalize_folder_input(raw: &str, home: &Option<String>) -> (r: Option<FilePath>)
    ensures
        opt_bytes(r) == folder_path(raw@, opt_text(*home)),
        opt_bytes(r) == meant_folder(cleaned(raw@), url_file_path(cleaned(raw@)), opt_text(*home)),
{
    reveal(folder_path);
    let t = clean_folder_input(raw);
    let url_path = if starts_with(t.as_str(), "file://") {
        file_path_of_url(t.as_str())
    } else {
        None
    };
    folder_from(t.as_str(), url_path, home)
}

/// Where a copy of a recording goes by default: `Videos` in the home directory, which is not
/// the folder that recordings are written to; without a home directory, the directory for
/// temporary files.
pub open spec fn save_folder(env: Environment) -> Seq<char> {
    match opt_text(env.home) {
        Some(h) => joined(h, "Videos"@),
        None => env.temp_dir@,
    }
}

/// Where a copy of a recording goes by default.
pub fn default_save_folder(env: &Environment) -> (r: String)
    ensures
        r@ == save_folder(*env),
{
    match &env.home {
        Some(h) => join(h.as_str(), "Videos"),
        None => env.temp_dir.clone(),
    }
}

/// The default place for copies is not the folder that recordings are written to by default:
/// copying a recording onto itself would empty it.
pub proof fn copies_do_not_go_where_recordings_go(env: Environment)
    requires
        env.home is Some || env.user_profile is None,
    ensures
        save_folder(env) != recordings_folder(env),
{
    reveal_strlit("Videos");
    reveal_strlit("BSR");
    match opt_text(env.home) {
        Some(h) => {
            let v = joined(h, "Videos"@);
            assert(v.last() == 's');
            assert(joined(v, "BSR"@).last() == 'R');
        },
        None => {
            assert(recordings_folder(env).len() > env.temp_dir@.len());
        },
    }
}

/// Two paths name the same file. `a_real` and `b_real` are the paths with everything resolved,
/// where that is possible; `b_dir_real` is the resolved directory of `b`.
pub open spec fn same_file(
    a: Seq<u8>,
    b: Seq<u8>,
    a_real: Option<Seq<u8>>,
    b_real: Option<Seq<u8>>,
    b_dir_real: Option<Seq<u8>>,
) -> bool {
    match (a_real, b_real) {
        (None, _) => same_bytes(a, b),
        (Some(src), Some(dst)) => same_bytes(src, dst),
        (Some(src), None) => match (parent_bytes(b), name_bytes(b), b_dir_real) {
            (Some(_), Some(name), Some(dir)) => same_bytes(joined_bytes(dir, name), src),
            _ => same_bytes(b, src),
        },
    }
}

/// Do two paths name the same file on disk?
///
/// A destination usually does not exist yet. Then its directory is resolved and its name put
/// behind that, so that no detour leads past the check.
pub fn paths_are_same_file(
    a: &FilePath,
    b: &FilePath,
    a_real: &Option<FilePath>,
    b_real: &Option<FilePath>,
    b_dir_real: &Option<FilePath>,
) -> (r: bool)
    ensures
        r == same_file(a@, b@, opt_bytes(*a_real), opt_bytes(*b_real), opt_bytes(*b_dir_real)),
{
    let src = match a_real {
        Some(s) => s,
        None => {
            return a.same_as(b);
        },
    };
    if let Some(dst) = b_real {
        return src.same_as(dst);
    }
    match (b.parent(), b.file_name(), b_dir_real) {
        (Some(_), Some(name), Some(dir)) => {
            dir.join(&name).same_as(src)
        },
        _ => b.same_as(src),
    }
}

/// A detour through links or dots leads to the same file: where both paths resolve, nothing but
/// what they resolve to counts.
pub proof fn a_detour_leads_to_the_same_file(
    a: Seq<u8>,
    b: Seq<u8>,
    target: Seq<u8>,
    other: Seq<u8>,
    b_dir_real: Option<Seq<u8>>,
)
    ensures
        same_file(a, b, Some(target), Some(target), b_dir_real),
        same_file(a, b, Some(target), Some(other), b_dir_real) == same_bytes(target, other),
{
}

/// A file that does not exist yet is the recording exactly when its resolved directory and its
/// name lead there.
pub proof fn a_new_file_is_told_by_its_resolved_directory(
    a: Seq<u8>,
    b: Seq<u8>,
    target: Seq<u8>,
    dir: Seq<u8>,
)
    requires
        parent_bytes(b) is Some,
        name_bytes(b) is Some,
    ensures
        same_file(a, b, Some(target), None, Some(dir)) == same_bytes(joined_bytes(dir, name_bytes(b)->0), target),
{
}

/// `at` are the places of the first boxes of a file: the first stands at its start, and each
/// other one where the box before it ends. The headers of all of them lie inside the file.
pub open spec fn box_places(file: Seq<u8>, at: Seq<int>) -> bool {
    &&& at.len() > 0
    &&& at[0] == 0
    &&& forall|k: int|
        0 <= k < at.len() ==> 0 <= #[trigger] at[k] && at[k] + 8 <= file.len()
    &&& forall|k: int| 0 < k < at.len() ==> #[trigger] box_spans(file, at[k - 1], at[k])
}

/// The box whose header stands at `from` reaches to `to`: so its four bytes of size say, the most
/// significant first.
pub open spec fn box_spans(file: Seq<u8>, from: int, to: int) -> bool {
    let size = file[from] * 0x100_0000 + file[from + 1] * 0x1_0000 + file[from + 2] * 0x100
        + file[from + 3];
    size >= 8 && to == from + size
}

proof fn lemma_box_bytes(file: Seq<u8>, offset: int)
    requires
        0 <= offset,
        offset + 8 <= file.len(),
    ensures
        box_at(file, offset).size == file[offset] * 0x100_0000 + file[offset + 1] * 0x1_0000
            + file[offset + 2] * 0x100 + file[offset + 3],
        box_at(file, offset).mdat == (file[offset + 4] == 0x6d && file[offset + 5] == 0x64
            && file[offset + 6] == 0x61 && file[offset + 7] == 0x74),
{
}

proof fn lemma_boxes_at(file: Seq<u8>, offset: int)
    requires
        0 <= offset,
        offset + 8 <= file.len(),
    ensures
        boxes_from(file, offset).len() > 0,
        boxes_from(file, offset)[0] == box_at(file, offset),
        box_at(file, offset).size >= 8 ==> boxes_from(file, offset) == seq![box_at(file, offset)]
            + boxes_from(file, offset + box_at(file, offset).size),
        box_at(file, offset).size < 8 ==> boxes_from(file, offset).len() == 1,
{
}

/// The boxes of a file from the place of one of them on are those at the further places.
proof fn lemma_reached_box(file: Seq<u8>, at: Seq<int>, k: int)
    requires
        box_places(file, at),
        0 <= k < at.len(),
    ensures
        boxes_from(file, 0).len() > k,
        boxes_from(file, 0)[k] == box_at(file, at[k]),
        boxes_from(file, 0).skip(k) == boxes_from(file, at[k]),
    decreases k,
{
    lemma_box_bytes(file, at[k]);
    if k > 0 {
        lemma_reached_box(file, at, k - 1);
        lemma_box_bytes(file, at[k - 1]);
        let rest = boxes_from(file, at[k - 1]);
        let next = boxes_from(file, at[k]);
        let all = boxes_from(file, 0);
        let b = box_at(file, at[k - 1]);
        assert(box_spans(file, at[k - 1], at[k]));
        lemma_boxes_at(file, at[k - 1]);
        lemma_boxes_at(file, at[k]);
        assert(rest == seq![b] + next);
        assert(all.skip(k - 1) == rest);
        assert(rest.drop_first() =~= next);
        assert(all.skip(k) =~= rest.drop_first());
        assert(all[k] == all.skip(k - 1)[1]);
    } else {
        assert(boxes_from(file, 0).skip(0) =~= boxes_from(file, 0));
    }
}

/// The header at `offset` is that of a box of samples: its type spells `mdat`.
pub open spec fn spells_mdat(file: Seq<u8>, offset: int) -> bool {
    file[offset + 4] == 'm' as u8 && file[offset + 5] == 'd' as u8 && file[offset + 6] == 'a' as u8
        && file[offset + 7] == 't' as u8
}

/// The header at `offset` gives this size.
pub open spec fn gives_size(file: Seq<u8>, offset: int, size: int) -> bool {
    file[offset] * 0x100_0000 + file[offset + 1] * 0x1_0000 + file[offset + 2] * 0x100 + file[offset
        + 3] == size
}

/// The places of the first boxes of a file.
spec fn places_of(file: Seq<u8>, n: nat) -> Seq<int>
    decreases n,
{
    if n <= 1 {
        seq![0int]
    } else {
        let before = places_of(file, (n - 1) as nat);
        before.push(before.last() + box_at(file, before.last()).size)
    }
}

proof fn lemma_further_place(file: Seq<u8>, at: Seq<int>, to: int)
    requires
        box_places(file, at),
        to == at.last() + box_at(file, at.last()).size,
        box_at(file, at.last()).size >= 8,
        to + 8 <= file.len(),
    ensures
        box_places(file, at.push(to)),
{
    let all = at.push(to);
    lemma_box_bytes(file, at.last());
    assert forall|i: int| 0 <= i < all.len() implies 0 <= #[trigger] all[i] && all[i] + 8
        <= file.len() by {
        if i < at.len() {
            assert(all[i] == at[i]);
        }
    }
    assert forall|i: int| 0 < i < all.len() implies #[trigger] box_spans(file, all[i - 1], all[i]) by {
        if i < at.len() {
            assert(box_spans(file, at[i - 1], at[i]));
        }
    }
}

proof fn lemma_next_box(file: Seq<u8>, at: Seq<int>, to: int)
    requires
        box_places(file, at),
        boxes_from(file, 0).len() > at.len(),
        to == at.last() + box_at(file, at.last()).size,
    ensures
        box_at(file, at.last()).size >= 8,
        to + 8 <= file.len(),
        boxes_from(file, 0)[at.len() as int] == box_at(file, to),
{
    let k = at.len() - 1;
    let from = at.last();
    lemma_reached_box(file, at, k);
    lemma_boxes_at(file, from);
    let rest = boxes_from(file, from);
    assert(rest[1] == boxes_from(file, 0)[k + 1]);
    assert(rest == seq![box_at(file, from)] + boxes_from(file, to));
    assert(rest[1] == boxes_from(file, to)[0]);
    if to + 8 > file.len() {
        assert(boxes_from(file, to).len() == 0);
    }
    lemma_boxes_at(file, to);
}

proof fn lemma_places(file: Seq<u8>, k: int)
    requires
        0 <= k < boxes_from(file, 0).len(),
    ensures
        box_places(file, places_of(file, (k + 1) as nat)),
        places_of(file, (k + 1) as nat).len() == k + 1,
        boxes_from(file, 0)[k] == box_at(file, places_of(file, (k + 1) as nat).last()),
    decreases k,
{
    if k > 0 {
        lemma_places(file, k - 1);
        let before = places_of(file, k as nat);
        let to = before.last() + box_at(file, before.last()).size;
        lemma_next_box(file, before, to);
        lemma_further_place(file, before, to);
    } else if file.len() >= 8 {
        lemma_boxes_at(file, 0);
    }
}

/// A recording in which any of the boxes is a box of samples of another size than its header
/// alone is never called empty, however large it is and wherever the box stands.
pub proof fn samples_are_never_overlooked(file: Seq<u8>, at: Seq<int>)
    requires
        box_places(file, at),
        spells_mdat(file, at.last()),
        !gives_size(file, at.last(), 8),
    ensures
        !found_empty(file),
{
    lemma_reached_box(file, at, at.len() - 1);
    lemma_box_bytes(file, at.last());
    assert(is_payload(boxes_from(file, 0)[at.len() - 1]));
}

/// A file of a kilobyte or more is called empty only if one of its boxes is a box of samples of
/// exactly eight bytes, which is its header.
pub proof fn a_large_file_is_empty_only_with_a_bare_header(file: Seq<u8>)
    requires
        file.len() >= 1024,
        found_empty(file),
    ensures
        exists|at: Seq<int>| #[trigger]
            box_places(file, at) && spells_mdat(file, at.last()) && gives_size(file, at.last(), 8),
{
    let boxes = boxes_from(file, 0);
    let k = choose|k: int| 0 <= k < boxes.len() && is_empty_mdat(#[trigger] boxes[k]);
    lemma_places(file, k);
    let at = places_of(file, (k + 1) as nat);
    lemma_box_bytes(file, at.last());
    assert(box_places(file, at));
}

/// A file that is small, or has a bare box of samples, is called empty unless another of its boxes
/// is a box of samples that is more than its header.
pub proof fn an_empty_file_is_recognised(file: Seq<u8>, at: Seq<int>)
    requires
        !found_empty(file),
        file.len() < 1024 || (box_places(file, at) && spells_mdat(file, at.last()) && gives_size(
            file,
            at.last(),
            8,
        )),
    ensures
        exists|other: Seq<int>| #[trigger]
            box_places(file, other) && spells_mdat(file, other.last()) && !gives_size(
                file,
                other.last(),
                8,
            ),
{
    let boxes = boxes_from(file, 0);
    if file.len() >= 1024 {
        lemma_reached_box(file, at, at.len() - 1);
        lemma_box_bytes(file, at.last());
        assert(is_empty_mdat(boxes[at.len() - 1]));
    }
    let k = choose|k: int| 0 <= k < boxes.len() && is_payload(#[trigger] boxes[k]);
    lemma_places(file, k);
    let other = places_of(file, (k + 1) as nat);
    lemma_box_bytes(file, other.last());
    assert(box_places(file, other));
}

/// A walk goes from box to box by the sizes in their headers, the most significant byte first, and
/// remembers a box of samples by its eight bytes: as an empty one where they are all, as another
/// one else.
pub proof fn a_walk_reads_each_header(walk: BoxWalk, header: Seq<u8>)
    requires
        header.len() == 8,
        walk.offset <= i64::MAX,
    ensures
        ({
            let size = header[0] * 0x100_0000 + header[1] * 0x1_0000 + header[2] * 0x100 + header[3];
            let mdat = header[4] == 'm' as u8 && header[5] == 'd' as u8 && header[6] == 'a' as u8
                && header[7] == 't' as u8;
            let after = walk.after(box_at(header, 0));
            &&& size >= 8 ==> after.offset == walk.offset + size
            &&& size < 8 ==> after.offset == walk.offset
            &&& after.saw_empty == (walk.saw_empty || (mdat && size == 8))
            &&& after.saw_payload == (walk.saw_payload || (mdat && size != 8))
        }),
{
    lemma_box_bytes(header, 0);
}

/// What was pasted means what stands between the white space and the quotes around it.
pub proof fn a_pasted_folder_is_unwrapped(
    white_before: Seq<char>,
    quotes_before: Seq<char>,
    text: Seq<char>,
    quotes_behind: Seq<char>,
    white_behind: Seq<char>,
)
    requires
        text.len() > 0,
        !is_white(text[0]) && text[0] != '"' && text[0] != '\'',
        !is_white(text.last()) && text.last() != '"' && text.last() != '\'',
        forall|i: int| 0 <= i < white_before.len() ==> is_white(#[trigger] white_before[i]),
        forall|i: int| 0 <= i < white_behind.len() ==> is_white(#[trigger] white_behind[i]),
        forall|i: int|
            0 <= i < quotes_before.len() ==> #[trigger] quotes_before[i] == '"' || quotes_before[i]
                == '\'',
        forall|i: int|
            0 <= i < quotes_behind.len() ==> #[trigger] quotes_behind[i] == '"' || quotes_behind[i]
                == '\'',
    ensures
        cleaned(white_before + (quotes_before + text + quotes_behind) + white_behind) == text,
{
    let quoted = quotes_before + text + quotes_behind;
    assert(!is_white('"') && !is_white('\''));
    assert(!is_white(quoted[0])) by {
        if quotes_before.len() > 0 {
            assert(quoted[0] == quotes_before[0]);
        } else {
            assert(quoted[0] == text[0]);
        }
    }
    assert(!is_white(quoted.last())) by {
        if quotes_behind.len() > 0 {
            assert(quoted.last() == quotes_behind[quotes_behind.len() - 1]);
        } else {
            assert(quoted.last() == text.last());
        }
    }
    what_is_stripped_off_does_not_matter(white_before, quoted, white_behind, Edge::White);
    what_is_stripped_off_does_not_matter(quotes_before, text, quotes_behind, Edge::Quote);
    let none = Seq::<char>::empty();
    what_is_stripped_off_does_not_matter(none, text, none, Edge::White);
    assert(none + text + none =~= text);
}

/// A folder that was typed means itself, with the home directory in place of the shorthands for
/// it where there is one; a `file://` URI means the path that it leads to.
pub proof fn a_typed_folder_means_its_path(
    raw: Seq<char>,
    home: Option<Seq<char>>,
    rest: Seq<char>,
)
    requires
        home matches Some(h) ==> h.len() > 0 && h.last() != '/',
    ensures
        cleaned(raw).len() == 0 ==> folder_path(raw, home) is None,
        cleaned(raw).len() > 0 && cleaned(raw)[0] == '/' ==> folder_path(raw, home) == Some(
            encode_utf8(cleaned(raw)),
        ),
        home matches Some(h) ==> {
            &&& cleaned(raw) == seq!['~', '/'] + rest && rest.len() > 0 && rest[0] != '/'
                ==> folder_path(raw, home) == Some(encode_utf8(h + seq!['/'] + rest))
            &&& cleaned(raw) == seq!['$', 'H', 'O', 'M', 'E', '/'] + rest && rest.len() > 0
                && rest[0] != '/' ==> folder_path(raw, home) == Some(
                encode_utf8(h + seq!['/'] + rest),
            )
            &&& cleaned(raw) == seq!['~'] ==> folder_path(raw, home) == Some(
                encode_utf8(h + seq!['/']),
            )
        },
        home is None && cleaned(raw).len() > 0 && cleaned(raw)[0] != 'f' ==> folder_path(raw, home)
            == Some(encode_utf8(cleaned(raw))),
        cleaned(raw).len() >= 7 && cleaned(raw).take(7) == seq!['f', 'i', 'l', 'e', ':', '/', '/']
            && url_file_path(cleaned(raw)) is Some ==> folder_path(raw, home) == url_file_path(
            cleaned(raw),
        ),
{
    reveal(folder_path);
    reveal_strlit("file://");
    reveal_strlit("~");
    reveal_strlit("~/");
    reveal_strlit("$HOME");
    reveal_strlit("");
    let t = cleaned(raw);
    assert("file://"@ =~= seq!['f', 'i', 'l', 'e', ':', '/', '/']);
    assert("~"@ =~= seq!['~']);
    assert("~/"@ =~= seq!['~', '/']);
    assert("$HOME"@ =~= seq!['$', 'H', 'O', 'M', 'E']);
    if t.len() >= 7 {
        assert(t.take(7) =~= t.subrange(0, 7));
    }
    if let Some(h) = home {
        if t == seq!['~', '/'] + rest {
            assert(t.subrange(0, 2) =~= "~/"@);
            assert(t.skip(2) =~= rest);
            assert(!begins(t, "file://"@)) by {
                if begins(t, "file://"@) {
                    assert(t.subrange(0, 7)[0] == t[0]);
                }
            }
            assert(joined(h, rest) =~= h + seq!['/'] + rest || rest.len() == 0 || rest[0] == '/');
            assert(t != "~"@) by {
                assert(t.len() >= 2);
            }
        }
        if t == seq!['$', 'H', 'O', 'M', 'E', '/'] + rest && rest.len() > 0 && rest[0] != '/' {
            assert(t.subrange(0, 5) =~= "$HOME"@);
            assert(t.skip(5) =~= seq!['/'] + rest);
            assert(strip_front(seq!['/'] + rest, Edge::Slash) == rest) by {
                assert((seq!['/'] + rest).drop_first() =~= rest);
                reveal_with_fuel(strip_front, 2);
            }
            assert(t[0] == '$');
            assert(!begins(t, "file://"@)) by {
                if begins(t, "file://"@) {
                    assert(t.subrange(0, 7)[0] == t[0]);
                }
            }
            assert(!begins(t, "~/"@)) by {
                if begins(t, "~/"@) {
                    assert(t.subrange(0, 2)[0] == t[0]);
                }
            }
            assert(joined(h, rest) =~= h + seq!['/'] + rest);
        }
        if t == seq!['~'] {
            assert(!begins(t, "file://"@));
            assert(joined(h, ""@) =~= h + seq!['/']);
        }
    }
    if t.len() > 0 && (t[0] == '/' || t[0] != 'f') {
        assert(!begins(t, "file://"@)) by {
            if begins(t, "file://"@) {
                assert(t.subrange(0, 7)[0] == t[0]);
            }
        }
    }
    if t.len() > 0 && t[0] == '/' {
        assert(!begins(t, "~/"@)) by {
            if begins(t, "~/"@) {
                assert(t.subrange(0, 2)[0] == t[0]);
            }
        }
        assert(!begins(t, "$HOME"@)) by {
            if begins(t, "$HOME"@) {
                assert(t.subrange(0, 5)[0] == t[0]);
            }
        }
    }
}

/// Where the recording cannot be resolved, the two paths are compared as they are; where the
/// target has no directory that can be resolved, it is compared with the resolved recording.
pub proof fn paths_are_compared_as_far_as_they_resolve(
    a: Seq<u8>,
    b: Seq<u8>,
    target: Seq<u8>,
    b_real: Option<Seq<u8>>,
    b_dir_real: Option<Seq<u8>>,
)
    ensures
        same_file(a, b, None, b_real, b_dir_real) == same_bytes(a, b),
        same_file(a, b, Some(target), None, None) == same_bytes(b, target),
        same_bytes(a, a),
        same_bytes(a, b) == same_bytes(b, a),
{
}

/// The place that a dialog names is the path that its URI leads to, and an error where that leads
/// to none.
pub proof fn a_named_place_is_a_local_path(
    uri: Seq<char>,
    path: Option<Seq<u8>>,
    r: Result<Option<FilePath>, String>,
)
    requires
        named_place(uri, path, r),
    ensures
        r is Ok <==> path is Some,
        r matches Ok(place) ==> place is Some && place->0@ == path->0,
        r matches Err(e) ==> e@ == "the dialog returned "@ + uri + ", which is not a local file"@,
{
}

/// Copies go into `Videos` in the home directory, or else into the directory for temporary files.
pub proof fn copies_go_into_videos(env: Environment)
    ensures
        env.home matches Some(h) ==> (h@.len() > 0 && h@.last() != '/' ==> save_folder(env) == h@
            + "/Videos"@),
        env.home is None ==> save_folder(env) == env.temp_dir@,
{
    reveal_strlit("Videos");
    reveal_strlit("/Videos");
    if let Some(h) = env.home {
        if h@.len() > 0 && h@.last() != '/' {
            assert(save_folder(env) =~= h@ + "/Videos"@);
        }
    }
}

} // verus!
