//! What the panels of the window say: the settings and the figures of a recording.
use vstd::prelude::*;
use vstd::string::*;
use vstd::utf8::{
    char_is_scalar, encode_scalar, encode_utf8, is_ascii_chars, is_ascii_chars_encode_utf8,
};

use crate::file_path::lemma_encoded_concat;
use crate::text::{chars_of, dec, decimal, string_between};
use crate::ui_model::UiTelemetry;
use crate::ui_settings::FileNamingStrategyUi;

verus! {

impl FileNamingStrategyUi {
    /// The name of the strategy.
    pub open spec fn name(self) -> Seq<char> {
        match self {
            FileNamingStrategyUi::Simple => "Simple"@,
            FileNamingStrategyUi::TimestampedFile => "Timestamped file"@,
            FileNamingStrategyUi::TimestampedFolder => "Timestamped folder"@,
        }
    }

    /// The name of the strategy.
    pub fn label(self) -> (r: &'static str)
        ensures
            r@ == self.name(),
    {
        match self {
            FileNamingStrategyUi::Simple => "Simple",
            FileNamingStrategyUi::TimestampedFile => "Timestamped file",
            FileNamingStrategyUi::TimestampedFolder => "Timestamped folder",
        }
    }

    /// The strategy as it is offered, with the names that it gives.
    pub fn choice(self) -> (r: &'static str)
        ensures
            r@ == match self {
                FileNamingStrategyUi::Simple => "Simple — Always recording.mp4"@,
                FileNamingStrategyUi::TimestampedFile =>
                    "Timestamped file — YYYY-MM-DD_HH-MM-SS.mp4"@,
                FileNamingStrategyUi::TimestampedFolder =>
                    "Timestamped folder — YYYY-MM-DD/HH-MM-SS.mp4"@,
            },
    {
        match self {
            FileNamingStrategyUi::Simple => "Simple — Always recording.mp4",
            FileNamingStrategyUi::TimestampedFile => "Timestamped file — YYYY-MM-DD_HH-MM-SS.mp4",
            FileNamingStrategyUi::TimestampedFolder => "Timestamped folder — YYYY-MM-DD/HH-MM-SS.mp4",
        }
    }
}

/// How many bytes a character takes in UTF-8.
pub open spec fn utf8_width(c: char) -> nat {
    if (c as u32) < 0x80 {
        1
    } else if (c as u32) < 0x800 {
        2
    } else if (c as u32) < 0x10000 {
        3
    } else {
        4
    }
}

/// How many bytes a text takes in UTF-8.
pub open spec fn utf8_len(s: Seq<char>) -> nat
    decreases s.len(),
{
    if s.len() == 0 {
        0
    } else {
        utf8_len(s.drop_last()) + utf8_width(s.last())
    }
}

proof fn lemma_utf8_len_splits(s: Seq<char>, i: int)
    requires
        0 <= i <= s.len(),
    ensures
        utf8_len(s) == utf8_len(s.take(i)) + utf8_len(s.skip(i)),
    decreases s.len() - i,
{
    if i == s.len() {
        assert(s.take(i) =~= s);
    } else {
        lemma_utf8_len_splits(s.drop_last(), i);
        assert(s.drop_last().take(i) =~= s.take(i));
        assert(s.drop_last().skip(i) =~= s.skip(i).drop_last());
    }
}

/// The first `i` characters take `bytes` bytes.
pub open spec fn cuts_at(s: Seq<char>, i: int, bytes: int) -> bool {
    0 <= i <= s.len() && utf8_len(s.take(i)) == bytes
}

/// The longest text that is shown in full, in bytes.
pub const SHOWN_BYTES: u64 = 50;

/// How much of the start of a longer text is shown, in bytes.
pub const HEAD_BYTES: u64 = 20;

/// How much of the end of a longer text is shown, in bytes.
pub const TAIL_BYTES: u64 = 25;

/// The first `i` characters take up the start that is shown.
pub open spec fn head_ends(s: Seq<char>, i: int) -> bool {
    cuts_at(s, i, HEAD_BYTES as int)
}

/// The characters from `j` on take up the end that is shown.
pub open spec fn tail_begins(s: Seq<char>, j: int) -> bool {
    cuts_at(s, j, utf8_len(s) - TAIL_BYTES)
}

/// A text that is too long to be shown can be cut: its first twenty and its last twenty-five
/// bytes are whole characters.
pub open spec fn cuttable(s: Seq<char>) -> bool {
    utf8_len(s) > SHOWN_BYTES ==> {
        &&& exists|i: int| head_ends(s, i)
        &&& exists|j: int| tail_begins(s, j)
    }
}

/// `r` is `s` as it is shown: in full, or its two ends.
pub open spec fn shown_as(s: Seq<char>, r: Seq<char>) -> bool {
    if utf8_len(s) <= SHOWN_BYTES {
        r == s
    } else {
        exists|i: int, j: int|
            #![trigger head_ends(s, i), tail_begins(s, j)]
            head_ends(s, i) && tail_begins(s, j) && r == s.take(i) + "..."@ + s.skip(j)
    }
}

fn width_of(c: char) -> (r: u128)
    ensures
        r == utf8_width(c),
        1 <= r <= 4,
{
    if (c as u32) < 0x80 {
        1
    } else if (c as u32) < 0x800 {
        2
    } else if (c as u32) < 0x10000 {
        3
    } else {
        4
    }
}

fn bytes_of(v: &Vec<char>) -> (r: u128)
    ensures
        r == utf8_len(v@),
{
    let mut n: u128 = 0;
    for i in 0..v.len()
        invariant
            n == utf8_len(v@.take(i as int)),
            n <= 4 * i,
    {
        proof {
            assert(v@.take(i + 1).drop_last() =~= v@.take(i as int));
        }
        n = n + width_of(v[i]);
    }
    assert(v@.take(v@.len() as int) =~= v@);
    n
}

proof fn lemma_utf8_len_grows(s: Seq<char>, i: int, j: int)
    requires
        0 <= i < j <= s.len(),
    ensures
        utf8_len(s.take(i)) < utf8_len(s.take(j)),
    decreases j - i,
{
    assert(s.take(j).drop_last() =~= s.take(j - 1));
    if i < j - 1 {
        lemma_utf8_len_grows(s, i, j - 1);
    }
}

fn cut_after(v: &Vec<char>, bytes: u128) -> (r: Option<usize>)
    ensures
        match r {
            Some(i) => cuts_at(v@, i as int, bytes as int),
            None => forall|i: int| !cuts_at(v@, i, bytes as int),
        },
{
    let mut n: u128 = 0;
    let mut i: usize = 0;
    while i < v.len() && n < bytes
        invariant
            i <= v@.len(),
            n == utf8_len(v@.take(i as int)),
            n <= 4 * i,
            forall|k: int| 0 <= k < i ==> utf8_len(#[trigger] v@.take(k)) < bytes,
        decreases v@.len() - i,
    {
        proof {
            assert(v@.take(i + 1).drop_last() =~= v@.take(i as int));
        }
        n = n + width_of(v[i]);
        i += 1;
    }
    if n == bytes {
        Some(i)
    } else {
        proof {
            assert forall|k: int| !cuts_at(v@, k, bytes as int) by {
                if i < k <= v@.len() {
                    lemma_utf8_len_grows(v@, i as int, k);
                }
            }
        }
        None
    }
}

/// Can `s` be cut for being shown, where it has to be?
pub fn is_cuttable(s: &str) -> (r: bool)
    ensures
        r == cuttable(s@),
{
    let v = chars_of(s);
    let total = bytes_of(&v);
    if total <= SHOWN_BYTES as u128 {
        return true;
    }
    let head = cut_after(&v, HEAD_BYTES as u128);
    let tail = cut_after(&v, total - TAIL_BYTES as u128);
    proof {
        if let Some(i) = head {
            assert(head_ends(s@, i as int));
        }
        if let Some(j) = tail {
            assert(tail_begins(s@, j as int));
        }
    }
    head.is_some() && tail.is_some()
}

/// A text as it is shown: in full up to fifty bytes, and as its first twenty and last
/// twenty-five bytes above that.
pub fn shortened(s: &str) -> (r: String)
    requires
        cuttable(s@),
    ensures
        shown_as(s@, r@),
{
    let v = chars_of(s);
    let total = bytes_of(&v);
    if total <= SHOWN_BYTES as u128 {
        return String::from_str(s);
    }
    let head = cut_after(&v, HEAD_BYTES as u128);
    let tail = cut_after(&v, total - TAIL_BYTES as u128);
    match (head, tail) {
        (Some(i), Some(j)) => {
            assert(head_ends(s@, i as int) && tail_begins(s@, j as int));
            let mut r = string_between(&v, 0, i);
            r.append("...");
            r.append(string_between(&v, j, v.len()).as_str());
            assert(v@.subrange(0, i as int) =~= v@.take(i as int));
            assert(v@.subrange(j as int, v@.len() as int) =~= v@.skip(j as int));
            r
        },
        _ => String::from_str(s),
    }
}

/// A shortened text has forty-eight bytes: its two ends and three dots.
pub proof fn a_shortened_text_has_a_fixed_size(s: Seq<char>, r: Seq<char>)
    requires
        shown_as(s, r),
    ensures
        utf8_len(r) == if utf8_len(s) <= SHOWN_BYTES {
            utf8_len(s)
        } else {
            48
        },
{
    if utf8_len(s) > SHOWN_BYTES {
        let (i, j) = choose|i: int, j: int|
            #![trigger head_ends(s, i), tail_begins(s, j)]
            head_ends(s, i) && tail_begins(s, j) && r == s.take(i) + "..."@ + s.skip(j);
        let dots = "..."@;
        reveal_strlit("...");
        lemma_utf8_len_splits(s, j);
        lemma_utf8_len_splits(r, i);
        assert(r.take(i) =~= s.take(i));
        assert(r.skip(i) =~= dots + s.skip(j));
        lemma_utf8_len_splits(r.skip(i), 3);
        assert(r.skip(i).take(3) =~= dots);
        assert(r.skip(i).skip(3) =~= s.skip(j));
        assert(utf8_len(dots) == 3) by {
            reveal_with_fuel(utf8_len, 4);
        }
    }
}

/// What the settings say about the next recording.
pub fn next_file_text(path: &str) -> (r: String)
    requires
        cuttable(path@),
    ensures
        r@.len() >= 11 && r@.take(11) == "Next file: "@,
        shown_as(path@, r@.skip(11)),
{
    proof {
        reveal_strlit("Next file: ");
    }
    let shown = shortened(path);
    let r = String::from_str("Next file: ").concat(shown.as_str());
    assert(r@.take(11) =~= "Next file: "@);
    assert(r@.skip(11) =~= shown@);
    r
}

impl UiTelemetry {
    pub fn frames_text(&self) -> (r: String)
        ensures
            r@ == "Frames: "@ + dec(self.frames_captured as nat),
    {
        String::from_str("Frames: ").concat(decimal(self.frames_captured).as_str())
    }

    pub fn drops_text(&self) -> (r: String)
        ensures
            r@ == "Drops: "@ + dec(self.frames_dropped as nat),
    {
        String::from_str("Drops: ").concat(decimal(self.frames_dropped).as_str())
    }

    pub fn packets_text(&self) -> (r: String)
        ensures
            r@ == "Packets: "@ + dec(self.packets_encoded as nat),
    {
        String::from_str("Packets: ").concat(decimal(self.packets_encoded).as_str())
    }
}

proof fn lemma_utf8_len_is_the_encoded_length(s: Seq<char>)
    ensures
        utf8_len(s) == encode_utf8(s).len(),
    decreases s.len(),
{
    if s.len() > 0 {
        let front = s.drop_last();
        let c = s.last();
        lemma_utf8_len_is_the_encoded_length(front);
        assert(s =~= front + seq![c]);
        lemma_encoded_concat(front, seq![c]);
        assert(seq![c].drop_first() =~= Seq::<char>::empty());
        assert(encode_utf8(Seq::<char>::empty()) =~= Seq::<u8>::empty());
        assert(encode_utf8(seq![c]) =~= encode_scalar(c as u32));
        char_is_scalar(c);
    }
}

/// What is shown of a text is the text itself where it has fifty bytes or fewer; else it is its
/// first twenty bytes, three dots, and its last twenty-five bytes.
pub proof fn a_long_text_is_shown_by_its_ends(s: Seq<char>, r: Seq<char>)
    requires
        shown_as(s, r),
    ensures
        ({
            let bytes = encode_utf8(s);
            &&& bytes.len() <= 50 ==> r == s
            &&& bytes.len() > 50 ==> encode_utf8(r) == bytes.take(20) + seq![46u8, 46u8, 46u8]
                + bytes.skip(bytes.len() - 25)
        }),
{
    lemma_utf8_len_is_the_encoded_length(s);
    let bytes = encode_utf8(s);
    if utf8_len(s) > SHOWN_BYTES {
        let (i, j) = choose|i: int, j: int|
            #![trigger head_ends(s, i), tail_begins(s, j)]
            head_ends(s, i) && tail_begins(s, j) && r == s.take(i) + "..."@ + s.skip(j);
        reveal_strlit("...");
        let dots = "..."@;
        lemma_utf8_len_is_the_encoded_length(s.take(i));
        lemma_utf8_len_is_the_encoded_length(s.take(j));
        lemma_encoded_concat(s.take(i), dots);
        lemma_encoded_concat(s.take(i) + dots, s.skip(j));
        assert(s.take(i) + s.skip(i) =~= s);
        assert(s.take(j) + s.skip(j) =~= s);
        lemma_encoded_concat(s.take(i), s.skip(i));
        lemma_encoded_concat(s.take(j), s.skip(j));
        assert(is_ascii_chars(dots));
        is_ascii_chars_encode_utf8(dots);
        assert(encode_utf8(dots) =~= seq![46u8, 46u8, 46u8]);
        assert(bytes.take(20) =~= encode_utf8(s.take(i)));
        assert(bytes.skip(bytes.len() - 25) =~= encode_utf8(s.skip(j)));
    }
}

} // verus!
