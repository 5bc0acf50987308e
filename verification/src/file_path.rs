//! Paths as Unix keeps them: bytes, which need not be UTF-8.
use vstd::prelude::*;
use vstd::string::*;
use vstd::utf8::{
    decode_utf8, decode_utf8_encode_utf8, encode_scalar, encode_utf8, encode_utf8_decode_utf8, encode_utf8_first_scalar,
    encode_utf8_valid_utf8, is_ascii_chars_encode_utf8, valid_utf8,
};

use crate::path::{
    dir_len, file_name, join, joined, last_name, parent, parent_path, parts, parts_from,
    paths_equal, same_path, segment_end, tail_trimmed,
};
use crate::text::{chars_of, opt_text};

verus! {

/// The bytes of a path as characters, one for one: what a path means hangs on `/` and `.` alone.
pub open spec fn units(bytes: Seq<u8>) -> Seq<char> {
    Seq::new(bytes.len(), |i: int| bytes[i] as char)
}

/// The bytes that such characters stand for.
pub open spec fn unit_bytes(units: Seq<char>) -> Seq<u8> {
    Seq::new(units.len(), |i: int| units[i] as u8)
}

/// A path.
#[derive(Debug, Clone, PartialEq, Eq)]
pub struct FilePath {
    pub bytes: Vec<u8>,
}

impl View for FilePath {
    type V = Seq<u8>;

    open spec fn view(&self) -> Seq<u8> {
        self.bytes@
    }
}

/// The bytes of an optional path.
pub open spec fn opt_bytes(p: Option<FilePath>) -> Option<Seq<u8>> {
    match p {
        Some(p) => Some(p@),
        None => None,
    }
}

/// The path of an optional text.
pub open spec fn opt_encoded(t: Option<Seq<char>>) -> Option<Seq<u8>> {
    match t {
        Some(t) => Some(encode_utf8(t)),
        None => None,
    }
}

/// `part` taken relative to `base`.
pub open spec fn joined_bytes(base: Seq<u8>, part: Seq<u8>) -> Seq<u8> {
    unit_bytes(joined(units(base), units(part)))
}

/// The directory that holds the last component of a path.
#[verifier::opaque]
pub open spec fn parent_bytes(p: Seq<u8>) -> Option<Seq<u8>> {
    match parent_path(units(p)) {
        Some(dir) => Some(unit_bytes(dir)),
        None => None,
    }
}

/// The last component of a path, where it names a file.
#[verifier::opaque]
pub open spec fn name_bytes(p: Seq<u8>) -> Option<Seq<u8>> {
    match last_name(units(p)) {
        Some(name) => Some(unit_bytes(name)),
        None => None,
    }
}

/// Two paths have the same root and the same components.
pub open spec fn same_bytes(a: Seq<u8>, b: Seq<u8>) -> bool {
    same_path(units(a), units(b))
}

/// The text that bytes are the UTF-8 of.
#[verifier::opaque]
pub open spec fn text_of(bytes: Seq<u8>) -> Option<Seq<char>> {
    if valid_utf8(bytes) {
        Some(decode_utf8(bytes))
    } else {
        None
    }
}

/// The last component of a path, where it names a file by a text.
pub open spec fn name_text(p: Seq<u8>) -> Option<Seq<char>> {
    match name_bytes(p) {
        Some(name) => text_of(name),
        None => None,
    }
}

/// What `String::from_utf8_lossy` makes of bytes that are not UTF-8: replacement characters stand
/// for what cannot be read.
pub uninterp spec fn lossy_text(bytes: Seq<u8>) -> Seq<char>;

/// The text that is shown for a path.
pub open spec fn shown_bytes(bytes: Seq<u8>) -> Seq<char> {
    match text_of(bytes) {
        Some(text) => text,
        None => lossy_text(bytes),
    }
}

/// `String::from_utf8`: the text, if the bytes are UTF-8.
#[verifier::external_body]
fn utf8_text(bytes: Vec<u8>) -> (r: Option<String>)
    ensures
        match r {
            Some(s) => valid_utf8(bytes@) && s@ == decode_utf8(bytes@),
            None => !valid_utf8(bytes@),
        },
{
    String::from_utf8(bytes).ok()
}

/// `String::from_utf8_lossy`. The result depends on the bytes alone.
#[verifier::external_body]
fn utf8_text_lossy(bytes: &Vec<u8>) -> (r: String)
    ensures
        r@ == lossy_text(bytes@),
{
    String::from_utf8_lossy(bytes).into_owned()
}

fn units_text(bytes: &Vec<u8>) -> (r: String)
    ensures
        r@ == units(bytes@),
{
    let mut r = String::new();
    assert(r@ =~= units(bytes@.take(0)));
    for i in 0..bytes.len()
        invariant
            r@ == units(bytes@.take(i as int)),
    {
        r.push(bytes[i] as char);
        assert(r@ =~= units(bytes@.take(i + 1)));
    }
    assert(bytes@.take(bytes@.len() as int) =~= bytes@);
    r
}

fn text_units(s: &str) -> (r: FilePath)
    ensures
        r@ == unit_bytes(s@),
{
    let v = chars_of(s);
    let mut bytes: Vec<u8> = Vec::new();
    for i in 0..v.len()
        invariant
            bytes@ == unit_bytes(v@.take(i as int)),
    {
        bytes.push(v[i] as u8);
        assert(bytes@ =~= unit_bytes(v@.take(i + 1)));
    }
    assert(v@.take(v@.len() as int) =~= v@);
    FilePath { bytes }
}

impl FilePath {
    /// The path that a text names.
    pub fn from_text(s: &str) -> (r: Self)
        ensures
            r@ == encode_utf8(s@),
    {
        FilePath { bytes: s.as_bytes_vec() }
    }

    /// The text of the path, if it is UTF-8.
    pub fn to_text(&self) -> (r: Option<String>)
        ensures
            opt_text(r) == text_of(self@),
    {
        reveal(text_of);
        utf8_text(self.bytes.clone())
    }

    /// The path as it is shown.
    pub fn display(&self) -> (r: String)
        ensures
            r@ == shown_bytes(self@),
    {
        match self.to_text() {
            Some(text) => text,
            None => utf8_text_lossy(&self.bytes),
        }
    }

    /// `part` taken relative to this path.
    pub fn join(&self, part: &FilePath) -> (r: Self)
        ensures
            r@ == joined_bytes(self@, part@),
    {
        let base = units_text(&self.bytes);
        let part = units_text(&part.bytes);
        text_units(join(base.as_str(), part.as_str()).as_str())
    }

    /// The directory that holds the last component.
    pub fn parent(&self) -> (r: Option<Self>)
        ensures
            opt_bytes(r) == parent_bytes(self@),
    {
        reveal(parent_bytes);
        match parent(units_text(&self.bytes).as_str()) {
            Some(dir) => Some(text_units(dir.as_str())),
            None => None,
        }
    }

    /// The last component, where it names a file.
    pub fn file_name(&self) -> (r: Option<Self>)
        ensures
            opt_bytes(r) == name_bytes(self@),
    {
        reveal(name_bytes);
        match file_name(units_text(&self.bytes).as_str()) {
            Some(name) => Some(text_units(name.as_str())),
            None => None,
        }
    }

    /// The last component, where it names a file by a text.
    pub fn file_name_text(&self) -> (r: Option<String>)
        ensures
            opt_text(r) == name_text(self@),
    {
        match self.file_name() {
            Some(name) => name.to_text(),
            None => None,
        }
    }

    /// Do two paths have the same root and the same components?
    pub fn same_as(&self, other: &FilePath) -> (r: bool)
        ensures
            r == same_bytes(self@, other@),
    {
        paths_equal(units_text(&self.bytes).as_str(), units_text(&other.bytes).as_str())
    }
}

/// A character takes one byte, its number, or several that are no ASCII.
proof fn lemma_encoded_char(c: char)
    ensures
        encode_utf8(seq![c]) == encode_scalar(c as u32),
        encode_scalar(c as u32).len() > 0,
        c as u32 <= 0x7f ==> encode_scalar(c as u32) == seq![c as u8],
        c as u32 > 0x7f ==> forall|i: int|
            0 <= i < encode_scalar(c as u32).len() ==> #[trigger] encode_scalar(c as u32)[i] >= 0x80,
{
    let e = encode_scalar(c as u32);
    assert(encode_utf8(seq![c]) =~= e) by {
        assert(seq![c].drop_first() =~= Seq::<char>::empty());
        assert(encode_utf8(Seq::<char>::empty()) =~= Seq::<u8>::empty());
    }
    encode_utf8_first_scalar(seq![c]);
    if c as u32 <= 0x7f {
        is_ascii_chars_encode_utf8(seq![c]);
        assert(seq![c][0] as u8 == e[0]);
        assert(e =~= seq![c as u8]);
    }
}

pub proof fn lemma_encoded_concat(a: Seq<char>, b: Seq<char>)
    ensures
        encode_utf8(a + b) == encode_utf8(a) + encode_utf8(b),
    decreases a.len(),
{
    if a.len() == 0 {
        assert(a + b =~= b);
        assert(encode_utf8(a) + encode_utf8(b) =~= encode_utf8(b));
    } else {
        lemma_encoded_concat(a.drop_first(), b);
        assert((a + b).drop_first() =~= a.drop_first() + b);
        assert(encode_utf8(a + b) =~= encode_utf8(a) + encode_utf8(b));
    }
}

/// The units of a text.
spec fn text_units_of(t: Seq<char>) -> Seq<char> {
    units(encode_utf8(t))
}

proof fn lemma_units_concat(a: Seq<char>, b: Seq<char>)
    ensures
        text_units_of(a + b) == text_units_of(a) + text_units_of(b),
{
    lemma_encoded_concat(a, b);
    assert(text_units_of(a + b) =~= text_units_of(a) + text_units_of(b));
}

/// A character of ASCII is its own unit; another one has units that are none.
proof fn lemma_unit_of(c: char)
    ensures
        text_units_of(seq![c]).len() > 0,
        c as u32 <= 0x7f ==> text_units_of(seq![c]) == seq![c],
        c as u32 > 0x7f ==> forall|i: int|
            0 <= i < text_units_of(seq![c]).len() ==> #[trigger] text_units_of(seq![c])[i] as u32 > 0x7f,
{
    lemma_encoded_char(c);
    if c as u32 <= 0x7f {
        assert(text_units_of(seq![c]) =~= seq![c]);
    }
}

proof fn lemma_ends(t: Seq<char>)
    requires
        t.len() > 0,
    ensures
        text_units_of(t).len() >= t.len(),
        text_units_of(t) == text_units_of(t.drop_last()) + text_units_of(seq![t.last()]),
        (text_units_of(t)[0] == '/') == (t[0] == '/'),
        (text_units_of(t).last() == '/') == (t.last() == '/'),
        (text_units_of(t).last() == '.') == (t.last() == '.'),
    decreases t.len(),
{
    assert(t =~= t.drop_last() + seq![t.last()]);
    lemma_units_concat(t.drop_last(), seq![t.last()]);
    lemma_unit_of(t.last());
    if t.len() > 1 {
        lemma_ends(t.drop_last());
    } else {
        assert(t.drop_last() =~= Seq::<char>::empty());
        assert(text_units_of(t) =~= text_units_of(seq![t[0]]));
    }
}

proof fn lemma_units_and_back(bytes: Seq<u8>)
    ensures
        unit_bytes(units(bytes)) == bytes,
{
    assert(unit_bytes(units(bytes)) =~= bytes);
}

/// A path that is text is shown as that text.
pub proof fn a_path_of_text_shows_as_that_text(t: Seq<char>)
    ensures
        text_of(encode_utf8(t)) == Some(t),
        shown_bytes(encode_utf8(t)) == t,
{
    reveal(text_of);
    encode_utf8_valid_utf8(t);
    encode_utf8_decode_utf8(t);
}

/// Paths that are text are joined as texts are.
pub proof fn paths_of_text_join_as_text(base: Seq<char>, part: Seq<char>)
    ensures
        joined_bytes(encode_utf8(base), encode_utf8(part)) == encode_utf8(joined(base, part)),
{
    let (b, p) = (text_units_of(base), text_units_of(part));
    if base.len() > 0 {
        lemma_ends(base);
    }
    if part.len() > 0 {
        lemma_ends(part);
    }
    lemma_units_concat(base, part);
    lemma_units_concat(base.push('/'), part);
    lemma_unit_of('/');
    lemma_units_concat(base, seq!['/']);
    assert(base.push('/') =~= base + seq!['/']);
    assert(b.push('/') =~= b + seq!['/']);
    assert(joined(b, p) == text_units_of(joined(base, part)));
    lemma_units_and_back(encode_utf8(joined(base, part)));
}

proof fn lemma_tail_units(t: Seq<char>)
    ensures
        tail_trimmed(text_units_of(t)) == text_units_of(tail_trimmed(t)),
    decreases t.len(),
{
    let u = text_units_of(t);
    if t.len() > 0 {
        lemma_ends(t);
        lemma_unit_of(t.last());
        let front = t.drop_last();
        if front.len() > 0 {
            lemma_ends(front);
            if t.last() == '/' || t.last() == '.' {
                assert(u.drop_last() =~= text_units_of(front));
                assert(u[u.len() - 2] == text_units_of(front).last());
                lemma_tail_units(front);
            }
        } else {
            assert(text_units_of(front) =~= Seq::<char>::empty());
        }
    }
}

proof fn lemma_dir_len_within(p: Seq<char>)
    ensures
        0 <= dir_len(p) <= p.len(),
    decreases p.len(),
{
    if p.len() > 0 && p.last() != '/' {
        lemma_dir_len_within(p.drop_last());
    }
}

proof fn lemma_dir_len_skips(a: Seq<char>, b: Seq<char>)
    requires
        forall|i: int| 0 <= i < b.len() ==> #[trigger] b[i] != '/',
    ensures
        dir_len(a + b) == dir_len(a),
    decreases b.len(),
{
    if b.len() == 0 {
        assert(a + b =~= a);
    } else {
        assert((a + b).drop_last() =~= a + b.drop_last());
        assert((a + b).last() == b[b.len() - 1]);
        lemma_dir_len_skips(a, b.drop_last());
    }
}

proof fn lemma_dir_units(t: Seq<char>)
    ensures
        text_units_of(t).take(dir_len(text_units_of(t))) == text_units_of(t.take(dir_len(t))),
    decreases t.len(),
{
    let u = text_units_of(t);
    if t.len() == 0 {
        assert(u.take(0) =~= u);
        assert(t.take(0) =~= t);
    } else {
        lemma_ends(t);
        if t.last() == '/' {
            assert(u.take(u.len() as int) =~= u);
            assert(t.take(t.len() as int) =~= t);
        } else {
            let front = t.drop_last();
            let unit = text_units_of(seq![t.last()]);
            lemma_unit_of(t.last());
            lemma_dir_len_skips(text_units_of(front), unit);
            lemma_dir_len_within(text_units_of(front));
            lemma_dir_len_within(front);
            lemma_dir_units(front);
            assert(u.take(dir_len(u)) =~= text_units_of(front).take(dir_len(u)));
            assert(t.take(dir_len(t)) =~= front.take(dir_len(front)));
        }
    }
}

/// The directory of a path that is text is that of the text.
pub proof fn a_path_of_text_has_the_parent_of_the_text(t: Seq<char>)
    ensures
        parent_bytes(encode_utf8(t)) == opt_encoded(parent_path(t)),
{
    reveal(parent_bytes);
    reveal_strlit("/");
    let trimmed = tail_trimmed(t);
    lemma_tail_units(t);
    lemma_unit_of('/');
    assert("/"@ =~= seq!['/']);
    if trimmed.len() > 0 {
        lemma_ends(trimmed);
        if text_units_of(trimmed) == "/"@ {
            assert(trimmed =~= "/"@);
        }
        lemma_dir_units(trimmed);
        lemma_tail_units(trimmed.take(dir_len(trimmed)));
        lemma_units_and_back(encode_utf8(tail_trimmed(trimmed.take(dir_len(trimmed)))));
    }
}

proof fn lemma_segment_end_skips(p: Seq<char>, from: int, to: int)
    requires
        0 <= from <= to <= p.len(),
        forall|i: int| from <= i < to ==> #[trigger] p[i] != '/',
    ensures
        segment_end(p, from) == segment_end(p, to),
    decreases to - from,
{
    if from < to {
        lemma_segment_end_skips(p, from + 1, to);
    }
}

/// Where the unit of the character at `i` stands.
spec fn unit_at(t: Seq<char>, i: int) -> int {
    text_units_of(t.take(i)).len() as int
}

proof fn lemma_unit_at(t: Seq<char>, i: int)
    requires
        0 <= i <= t.len(),
    ensures
        0 <= unit_at(t, i) <= text_units_of(t).len(),
        unit_at(t, t.len() as int) == text_units_of(t).len(),
        (unit_at(t, i) == 0) == (i == 0),
        i < t.len() ==> {
            &&& unit_at(t, i + 1) == unit_at(t, i) + text_units_of(seq![t[i]]).len()
            &&& unit_at(t, i + 1) <= text_units_of(t).len()
            &&& forall|k: int|
                unit_at(t, i) <= k < unit_at(t, i + 1) ==> #[trigger] text_units_of(t)[k]
                    == text_units_of(seq![t[i]])[k - unit_at(t, i)]
        },
{
    assert(t =~= t.take(i) + t.skip(i));
    lemma_units_concat(t.take(i), t.skip(i));
    assert(t.take(t.len() as int) =~= t);
    if i > 0 {
        lemma_ends(t.take(i));
    }
    if i < t.len() {
        assert(t.take(i + 1) =~= t.take(i) + seq![t[i]]);
        lemma_units_concat(t.take(i), seq![t[i]]);
        assert(t.skip(i) =~= seq![t[i]] + t.skip(i + 1));
        lemma_units_concat(seq![t[i]], t.skip(i + 1));
    }
}

proof fn lemma_segment_units(t: Seq<char>, from: int)
    requires
        0 <= from <= t.len(),
    ensures
        from <= segment_end(t, from) <= t.len(),
        segment_end(text_units_of(t), unit_at(t, from)) == unit_at(t, segment_end(t, from)),
        segment_end(t, from) < t.len() ==> t[segment_end(t, from)] == '/',
    decreases t.len() - from,
{
    lemma_unit_at(t, from);
    if from < t.len() {
        lemma_unit_of(t[from]);
        if t[from] == '/' {
            assert(text_units_of(t)[unit_at(t, from)] == '/');
        } else {
            lemma_segment_units(t, from + 1);
            lemma_unit_at(t, from + 1);
            lemma_segment_end_skips(text_units_of(t), unit_at(t, from), unit_at(t, from + 1));
        }
    }
}

proof fn lemma_subrange_units(t: Seq<char>, from: int, to: int)
    requires
        0 <= from <= to <= t.len(),
    ensures
        unit_at(t, from) <= unit_at(t, to) <= text_units_of(t).len(),
        text_units_of(t).subrange(unit_at(t, from), unit_at(t, to)) == text_units_of(
            t.subrange(from, to),
        ),
{
    assert(t.take(to) =~= t.take(from) + t.subrange(from, to));
    lemma_units_concat(t.take(from), t.subrange(from, to));
    assert(t =~= t.take(to) + t.skip(to));
    lemma_units_concat(t.take(to), t.skip(to));
    assert(text_units_of(t).subrange(unit_at(t, from), unit_at(t, to)) =~= text_units_of(
        t.subrange(from, to),
    ));
}

/// A text of ASCII is its own units, and no other text has these.
proof fn lemma_dots(s: Seq<char>)
    ensures
        (text_units_of(s) == "."@) == (s == "."@),
        (text_units_of(s) == ".."@) == (s == ".."@),
        (text_units_of(s).len() == 0) == (s.len() == 0),
{
    reveal_strlit(".");
    reveal_strlit("..");
    lemma_unit_of('.');
    assert("."@ =~= seq!['.']);
    assert(".."@ =~= seq!['.'] + seq!['.']);
    lemma_units_concat(seq!['.'], seq!['.']);
    if s.len() > 0 {
        lemma_ends(s);
        lemma_unit_of(s.last());
        if text_units_of(s) == "."@ {
            assert(s =~= "."@);
        }
        if text_units_of(s) == ".."@ {
            assert(s.last() == '.');
            if s.len() == 2 {
                lemma_ends(s.drop_last());
                lemma_unit_of(s[0]);
                assert(text_units_of(s).drop_last() =~= text_units_of(s.drop_last()));
                assert(s =~= ".."@);
            } else {
                assert(s =~= seq!['.']);
            }
        }
    }
}

proof fn lemma_parts_units(t: Seq<char>, from: int)
    requires
        0 <= from <= t.len(),
    ensures
        parts_from(text_units_of(t), unit_at(t, from)) == parts_from(t, from).map_values(
            |s: Seq<char>| text_units_of(s),
        ),
    decreases t.len() - from,
{
    let f = |s: Seq<char>| text_units_of(s);
    let u = text_units_of(t);
    let e = segment_end(t, from);
    lemma_segment_units(t, from);
    lemma_subrange_units(t, from, e);
    lemma_unit_at(t, from);
    lemma_unit_at(t, e);
    let segment = t.subrange(from, e);
    lemma_dots(segment);
    let rest = parts_from(t, e + 1);
    let rest_units = parts_from(u, unit_at(t, e) + 1);
    if e < t.len() {
        lemma_unit_of('/');
        lemma_parts_units(t, e + 1);
    } else {
        assert(rest =~= Seq::<Seq<char>>::empty());
        assert(rest_units =~= Seq::<Seq<char>>::empty());
        assert(rest.map_values(f) =~= rest_units);
    }
    assert(rest_units == rest.map_values(f));
    assert((seq![segment] + rest).map_values(f) =~= seq![text_units_of(segment)]
        + rest.map_values(f));
}

/// The name at the end of a path that is text is that of the text.
pub proof fn a_path_of_text_has_the_name_of_the_text(t: Seq<char>)
    ensures
        name_bytes(encode_utf8(t)) == opt_encoded(last_name(t)),
        name_text(encode_utf8(t)) == last_name(t),
{
    reveal(name_bytes);
    lemma_parts_units(t, 0);
    assert(t.take(0) =~= Seq::<char>::empty());
    assert(unit_at(t, 0) == 0);
    let c = parts(t);
    if c.len() > 0 {
        lemma_dots(c.last());
        lemma_units_and_back(encode_utf8(c.last()));
        a_path_of_text_shows_as_that_text(c.last());
    }
}

/// A part is put behind its base with one slash between them, byte for byte; one that starts with
/// a slash stands for itself.
pub proof fn bytes_are_joined_with_one_slash(base: Seq<u8>, part: Seq<u8>)
    ensures
        part.len() > 0 && part[0] == 47 ==> joined_bytes(base, part) == part,
        base.len() > 0 && base.last() != 47 && !(part.len() > 0 && part[0] == 47) ==> joined_bytes(
            base,
            part,
        ) == base + seq![47u8] + part,
        base.len() > 0 && base.last() == 47 && !(part.len() > 0 && part[0] == 47) ==> joined_bytes(
            base,
            part,
        ) == base + part,
{
    let (b, p) = (units(base), units(part));
    if part.len() > 0 {
        assert(p[0] == part[0] as char);
        assert((part[0] as char == '/') == (part[0] == 47));
    }
    if base.len() > 0 {
        assert(b.last() == base.last() as char);
        assert((base.last() as char == '/') == (base.last() == 47));
    }
    lemma_units_and_back(part);
    assert(unit_bytes(b.push('/') + p) =~= base + seq![47u8] + part);
    assert(unit_bytes(b + p) =~= base + part);
}

/// A path is text exactly where it is the UTF-8 of one, which then is its text.
pub proof fn a_text_is_read_from_its_bytes(bytes: Seq<u8>)
    ensures
        text_of(bytes) matches Some(t) ==> encode_utf8(t) == bytes && shown_bytes(bytes) == t,
        valid_utf8(bytes) <==> text_of(bytes) is Some,
{
    reveal(text_of);
    if valid_utf8(bytes) {
        decode_utf8_encode_utf8(bytes);
    }
}

} // verus!
