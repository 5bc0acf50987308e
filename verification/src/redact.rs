//! The audit log of redactions: which rule masked a value, and the digest of that value.
use vstd::prelude::*;
use vstd::string::*;

use sha2::Digest;

use crate::clock::{is_utc_instant, utc_now_rfc3339};
use crate::path::{parent, parent_path};
use crate::text::{every_byte_is_two_hexadecimal_digits, hex, lower_hex, opt_text};

verus! {

/// The SHA-256 digest of the UTF-8 bytes of a text.
pub uninterp spec fn sha256_digest(text: Seq<char>) -> Seq<u8>;

/// `sha2::Sha256::digest` on the bytes of the text. The digest depends on the text alone and
/// has 32 bytes.
#[verifier::external_body]
pub(crate) fn sha256(text: &str) -> (r: Vec<u8>)
    ensures
        r@ == sha256_digest(text@),
        r@.len() == 32,
{
    sha2::Sha256::digest(text.as_bytes()).to_vec()
}

/// The lower-case hexadecimal SHA-256 digest of `input`.
pub fn sha256_hex(input: &str) -> (r: String)
    ensures
        r@ == hex(sha256_digest(input@)),
{
    let digest = sha256(input);
    lower_hex(&digest)
}

/// The line of the audit log for a value with this digest.
pub open spec fn audit_line(timestamp: Seq<char>, digest: Seq<u8>, rule: Seq<char>) -> Seq<char> {
    "{\"ts\":\""@ + timestamp + "\",\"original_hash\":\"sha256:"@ + hex(digest) + "\",\"rule\":\""@
        + rule + "\"}\n"@
}

/// The line for a value with this digest.
pub fn audit_entry(digest: &Vec<u8>, rule: &str, timestamp: &str) -> (r: String)
    ensures
        r@ == audit_line(timestamp@, digest@, rule@),
{
    let mut r = String::from_str("{\"ts\":\"");
    r.append(timestamp);
    r.append("\",\"original_hash\":\"sha256:");
    r.append(lower_hex(digest).as_str());
    r.append("\",\"rule\":\"");
    r.append(rule);
    r.append("\"}\n");
    r
}

/// The line for a redaction at `timestamp`.
pub fn redaction_line(original: &str, rule: &str, timestamp: &str) -> (r: String)
    ensures
        r@ == audit_line(timestamp@, sha256_digest(original@), rule@),
{
    audit_entry(&sha256(original), rule, timestamp)
}

/// Where a log that has reached its size goes: beside itself, with `.1` behind its name.
pub open spec fn rotated(path: Seq<char>) -> Seq<char> {
    path + ".1"@
}

/// Where the log is put aside, if it is.
pub open spec fn rotation(path: Seq<char>, len: Option<u64>, max_bytes: u64) -> Option<Seq<char>> {
    match len {
        Some(n) if n >= max_bytes => Some(rotated(path)),
        _ => None,
    }
}

/// A log is put aside exactly when it is there and has reached its size, and then beside itself.
pub proof fn a_full_log_is_put_aside(path: Seq<char>, len: Option<u64>, max_bytes: u64)
    ensures
        rotation(path, len, max_bytes) is Some <==> len is Some && max_bytes <= len->0,
        rotation(path, len, max_bytes) matches Some(to) ==> to == path + seq!['.', '1'],
{
    reveal_strlit(".1");
    assert(".1"@ =~= seq!['.', '1']);
}

/// Decides whether the log is put aside first, and where to. `len` is its size, `None` if it
/// does not exist yet.
pub fn maybe_rotate(path: &str, len: Option<u64>, max_bytes: u64) -> (r: Option<String>)
    ensures
        opt_text(r) == rotation(path@, len, max_bytes),
{
    match len {
        Some(n) => {
            if n >= max_bytes {
                Some(String::from_str(path).concat(".1"))
            } else {
                None
            }
        },
        None => None,
    }
}

/// What is done to record a redaction, in this order.
#[derive(Debug, Clone)]
pub struct RedactionWrite {
    /// Rename the log to this first, over whatever is there.
    pub rotate_to: Option<String>,
    /// Create this directory.
    pub directory: Option<String>,
    /// Append this line.
    pub entry: String,
}

/// Plans the record of a redaction. Only the digest of `original` goes into the log. `len` is
/// the size of the log, `None` if it does not exist yet.
pub fn write_redaction_event(
    original: &str,
    rule: &str,
    audit_path: &str,
    max_bytes: u64,
    len: Option<u64>,
) -> (r: RedactionWrite)
    ensures
        exists|timestamp: Seq<char>|
            is_utc_instant(timestamp) && r.entry@ == #[trigger] audit_line(
                timestamp,
                sha256_digest(original@),
                rule@,
            ),
        opt_text(r.rotate_to) == rotation(audit_path@, len, max_bytes),
        opt_text(r.directory) == match parent_path(audit_path@) {
            Some(dir) if dir.len() > 0 => Some(dir),
            _ => None,
        },
{
    let timestamp = utc_now_rfc3339();
    let entry = redaction_line(original, rule, timestamp.as_str());
    let rotate_to = maybe_rotate(audit_path, len, max_bytes);
    let directory = match parent(audit_path) {
        Some(dir) => {
            if dir.as_str().is_empty() {
                None
            } else {
                Some(dir)
            }
        },
        None => None,
    };
    RedactionWrite { rotate_to, directory, entry }
}

/// Two values with the same digest leave the same line: nothing else of a value is logged.
pub proof fn only_the_digest_is_logged(
    timestamp: Seq<char>,
    first: Seq<char>,
    second: Seq<char>,
    rule: Seq<char>,
)
    requires
        sha256_digest(first) == sha256_digest(second),
    ensures
        audit_line(timestamp, sha256_digest(first), rule) == audit_line(
            timestamp,
            sha256_digest(second),
            rule,
        ),
{
}

proof fn lemma_hex_tells(a: Seq<u8>, b: Seq<u8>)
    requires
        hex(a) == hex(b),
    ensures
        a == b,
{
    if a.len() > 0 {
        every_byte_is_two_hexadecimal_digits(a, 0);
    }
    if b.len() > 0 {
        every_byte_is_two_hexadecimal_digits(b, 0);
    }
    assert(a.len() == b.len());
    assert forall|i: int| 0 <= i < a.len() implies a[i] == b[i] by {
        every_byte_is_two_hexadecimal_digits(a, i);
        every_byte_is_two_hexadecimal_digits(b, i);
    }
    assert(a =~= b);
}

/// The digest is logged whole, and the time and the rule with it: lines that agree, of digests of
/// one size, have all three in common where the times are equally long.
pub proof fn a_line_tells_time_digest_and_rule(
    time: Seq<char>,
    digest: Seq<u8>,
    rule: Seq<char>,
    other_time: Seq<char>,
    other_digest: Seq<u8>,
    other_rule: Seq<char>,
)
    requires
        audit_line(time, digest, rule) == audit_line(other_time, other_digest, other_rule),
        time.len() == other_time.len(),
        digest.len() == other_digest.len(),
    ensures
        time == other_time,
        digest == other_digest,
        rule == other_rule,
{
    let line = audit_line(time, digest, rule);
    let other = audit_line(other_time, other_digest, other_rule);
    let a = "{\"ts\":\""@.len() as int;
    let b = a + time.len();
    let c = b + "\",\"original_hash\":\"sha256:"@.len();
    if digest.len() > 0 {
        every_byte_is_two_hexadecimal_digits(digest, 0);
        every_byte_is_two_hexadecimal_digits(other_digest, 0);
    }
    let d = c + hex(digest).len();
    assert(hex(digest).len() == hex(other_digest).len());
    let e = d + "\",\"rule\":\""@.len();
    let f = line.len() - "\"}\n"@.len();
    assert(line.subrange(a, b) =~= time && other.subrange(a, b) =~= other_time);
    assert(line.subrange(c, d) =~= hex(digest) && other.subrange(c, d) =~= hex(other_digest));
    assert(line.subrange(e, f) =~= rule && other.subrange(e, f) =~= other_rule);
    lemma_hex_tells(digest, other_digest);
}

} // verus!
