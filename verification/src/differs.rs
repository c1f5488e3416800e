//! The strategies by which a goldenfile is compared with its replication.

use crate::paths::{extension, path_extension};
use difference::Changeset;
use vstd::prelude::*;
use vstd::string::*;
use vstd::utf8::*;

verus! {

/// How the contents of a goldenfile and of its replication are compared.
#[derive(Clone, Copy, Debug, PartialEq, Eq, Structural)]
pub enum Differ {
    /// Line by line, as text.
    Text,
    /// Byte by byte.
    Binary,
    /// By a strategy that the embedding program keeps under this number.
    Custom(u32),
}

/// Whether two files hold exactly the same bytes.
pub fn binary_diff(old: &[u8], new: &[u8]) -> (same: bool)
    ensures
        same == (old@ == new@),
{
    if old.len() != new.len() {
        return false;
    }
    let mut i: usize = 0;
    while i < old.len()
        invariant
            old@.len() == new@.len(),
            i <= old@.len(),
            old@.subrange(0, i as int) == new@.subrange(0, i as int),
        decreases old@.len() - i,
    {
        if old[i] != new[i] {
            return false;
        }
        assert(old@.subrange(0, i + 1) == old@.subrange(0, i as int).push(old@[i as int]));
        assert(new@.subrange(0, i + 1) == new@.subrange(0, i as int).push(new@[i as int]));
        i += 1;
    }
    assert(old@ == old@.subrange(0, i as int));
    assert(new@ == new@.subrange(0, i as int));
    true
}

/// The number of line breaks among the bytes of a text.
pub open spec fn line_breaks(text: Seq<u8>) -> nat
    decreases text.len(),
{
    if text.len() == 0 {
        0
    } else if text.last() == 0x0a {
        line_breaks(text.drop_last()) + 1
    } else {
        line_breaks(text.drop_last())
    }
}

/// The number of lines of a text: one more than its line breaks.
pub open spec fn lines(text: Seq<u8>) -> nat {
    line_breaks(text) + 1
}

/// The size of a machine word in bytes.
pub open spec fn word_bytes() -> nat {
    (usize::BITS / 8) as nat
}

/// Whether two texts, given by their bytes, can be compared line by line on
/// this machine. The comparison lays out a table with a word for every pair
/// of lines, keeps the lines of either text in a vector that doubles as it
/// grows, with two words for a line, and counts the lines that differ in 32
/// bits.
pub open spec fn diffable(old: Seq<u8>, new: Seq<u8>) -> bool {
    &&& lines(old) * lines(new) * word_bytes() <= isize::MAX
    &&& 4 * word_bytes() * lines(old) <= isize::MAX
    &&& 4 * word_bytes() * lines(new) <= isize::MAX
    &&& lines(old) + lines(new) <= u32::MAX
}

/// Counts the line breaks of a text.
pub fn count_line_breaks(text: &[u8]) -> (breaks: usize)
    ensures
        breaks == line_breaks(text@),
{
    let mut breaks: usize = 0;
    let mut i: usize = 0;
    while i < text.len()
        invariant
            i <= text@.len(),
            breaks <= i,
            breaks == line_breaks(text@.subrange(0, i as int)),
        decreases text@.len() - i,
    {
        assert(text@.subrange(0, i + 1).drop_last() == text@.subrange(0, i as int));
        if text[i] == 0x0a {
            breaks += 1;
        }
        i += 1;
    }
    assert(text@ == text@.subrange(0, i as int));
    breaks
}

/// Tests whether two texts can be compared by [`text_diff`].
pub fn can_diff(old: &str, new: &str) -> (fits: bool)
    ensures
        fits == diffable(old.spec_bytes(), new.spec_bytes()),
{
    let n: u128 = count_line_breaks(old.as_bytes()) as u128 + 1;
    let m: u128 = count_line_breaks(new.as_bytes()) as u128 + 1;
    if n + m > u32::MAX as u128 {
        return false;
    }
    let word: u128 = (usize::BITS / 8) as u128;
    let limit: u128 = isize::MAX as u128;
    assert(n * m <= 0x1_0000_0000 * 0x1_0000_0000 && n * m * word <= 0x1_0000_0000
        * 0x1_0000_0000 * 0x1_0000_0000 && 4 * word <= 0x4_0000_0000 && 4 * word * n
        <= 0x4_0000_0000 * 0x1_0000_0000 && 4 * word * m <= 0x4_0000_0000 * 0x1_0000_0000)
        by (nonlinear_arith)
        requires
            n <= 0x1_0000_0000,
            m <= 0x1_0000_0000,
            word <= 0x1_0000_0000,
    ;
    n * m * word <= limit && 4 * word * n <= limit && 4 * word * m <= limit
}

/// Calls `difference::Changeset::new` and reads the changeset's `distance`:
/// the number of pieces, as cut at `split`, that the one text has and the
/// other has not.
///
/// Trusted: cut at the line break, the distance is zero exactly where the two
/// texts are equal. A text has as many pieces as [`lines`] says of its bytes,
/// since the byte of the line break stands for nothing else in UTF-8.
/// [`diffable`] keeps away the texts for which the comparison cannot lay out
/// its table or its vectors, or cannot hold the distance in its 32 bits.
#[verifier::external_body]
fn changeset_distance(orig: &str, edit: &str, split: &str) -> (distance: i32)
    requires
        split@ == "\n"@,
        diffable(orig.spec_bytes(), edit.spec_bytes()),
    ensures
        (distance == 0) == (orig@ == edit@),
{
    Changeset::new(orig, edit, split).distance
}

/// Whether two texts are the same, line for line.
pub fn text_diff(old: &str, new: &str) -> (same: bool)
    requires
        diffable(old.spec_bytes(), new.spec_bytes()),
    ensures
        same == (old@ == new@),
{
    changeset_distance(old, new, "\n") == 0
}

/// Whether two pieces of text are the same.
fn same_text(a: &str, b: &str) -> (same: bool)
    ensures
        same == (a@ == b@),
{
    proof {
        encode_utf8_decode_utf8(a@);
        encode_utf8_decode_utf8(b@);
    }
    binary_diff(a.as_bytes(), b.as_bytes())
}

/// The differ that goes with a file extension: files known to hold no text
/// are compared byte by byte, all others as text.
pub open spec fn differ_for(ext: Option<Seq<char>>) -> Differ {
    match ext {
        Some(e) => if e == "bin"@ || e == "exe"@ || e == "gz"@ || e == "tar"@ || e == "zip"@ {
            Differ::Binary
        } else {
            Differ::Text
        },
        None => Differ::Text,
    }
}

/// Picks the differ for a file extension, or for the lack of one.
pub fn differ_for_extension(ext: Option<&str>) -> (differ: Differ)
    ensures
        differ == differ_for(
            match ext {
                Some(e) => Some(e@),
                None => None,
            },
        ),
{
    match ext {
        Some(e) => {
            if same_text(e, "bin") || same_text(e, "exe") || same_text(e, "gz") || same_text(
                e,
                "tar",
            ) || same_text(e, "zip") {
                Differ::Binary
            } else {
                Differ::Text
            }
        },
        None => Differ::Text,
    }
}

/// Get the differ to use for a given file path.
pub fn get_differ_for_path(path: &str) -> (differ: Differ)
    ensures
        differ == differ_for(path_extension(path@)),
{
    match extension(path) {
        Some(e) => differ_for_extension(Some(e.as_str())),
        None => differ_for_extension(None),
    }
}

/// What a differ finds when it holds a replication against the committed
/// contents.
#[derive(Clone, Copy, Debug, PartialEq, Eq, Structural)]
pub enum Verdict {
    /// The replication matches.
    Same,
    /// The replication differs: the test fails.
    Changed,
    /// One of the two files was to be read as text and is no UTF-8.
    NotText,
    /// The two texts have too many lines to be compared on this machine.
    TooLong,
    /// The comparison is left to the custom differ of this number.
    Deferred(u32),
}

/// What each differ finds in the contents of two files.
pub open spec fn verdict_of(differ: Differ, golden: Seq<u8>, new: Seq<u8>) -> Verdict {
    match differ {
        Differ::Text => if !valid_utf8(golden) || !valid_utf8(new) {
            Verdict::NotText
        } else if !diffable(golden, new) {
            Verdict::TooLong
        } else if decode_utf8(golden) == decode_utf8(new) {
            Verdict::Same
        } else {
            Verdict::Changed
        },
        Differ::Binary => if golden == new {
            Verdict::Same
        } else {
            Verdict::Changed
        },
        Differ::Custom(number) => Verdict::Deferred(number),
    }
}

/// Calls `core::str::from_utf8`. Trusted: it succeeds exactly on bytes that
/// are UTF-8, and then hands out the text that they encode.
#[verifier::external_body]
fn utf8_text(bytes: &[u8]) -> (text: Option<&str>)
    ensures
        match text {
            Some(t) => valid_utf8(bytes@) && t@ == decode_utf8(bytes@),
            None => !valid_utf8(bytes@),
        },
{
    core::str::from_utf8(bytes).ok()
}

/// Holds the contents of a replication against the committed contents, as the
/// differ says.
pub fn judge(differ: Differ, golden: &[u8], new: &[u8]) -> (verdict: Verdict)
    ensures
        verdict == verdict_of(differ, golden@, new@),
{
    match differ {
        Differ::Text => {
            let old_text = match utf8_text(golden) {
                Some(text) => text,
                None => {
                    return Verdict::NotText;
                },
            };
            let new_text = match utf8_text(new) {
                Some(text) => text,
                None => {
                    return Verdict::NotText;
                },
            };
            proof {
                decode_utf8_encode_utf8(golden@);
                decode_utf8_encode_utf8(new@);
            }
            if !can_diff(old_text, new_text) {
                Verdict::TooLong
            } else if text_diff(old_text, new_text) {
                Verdict::Same
            } else {
                Verdict::Changed
            }
        },
        Differ::Binary => if binary_diff(golden, new) {
            Verdict::Same
        } else {
            Verdict::Changed
        },
        Differ::Custom(number) => Verdict::Deferred(number),
    }
}

} // verus!
