//! Kernel versions: an ordered triple, and the text it is read from.

use vstd::prelude::*;
use crate::error::Error;

verus! {

/// A kernel version as a mathematical triple.
pub struct Triple {
    pub major: u16,
    pub minor: u16,
    pub patch: u16,
}

impl Triple {
    /// Lexicographic "is at least": major first, then minor, then patch.
    pub open spec fn at_least(self, other: Triple) -> bool {
        ||| self.major > other.major
        ||| self.major == other.major && self.minor > other.minor
        ||| self.major == other.major && self.minor == other.minor && self.patch >= other.patch
    }
}

/// A kernel version, packed so that the order of the packed numbers is the
/// lexicographic order of the triples.
#[derive(Clone, Copy, Debug, PartialEq, Eq, PartialOrd, Ord)]
pub struct Version(u64);

impl View for Version {
    type V = Triple;

    closed spec fn view(&self) -> Triple {
        Triple {
            major: ((self.0 >> 32) & 0xffff) as u16,
            minor: ((self.0 >> 16) & 0xffff) as u16,
            patch: (self.0 & 0xffff) as u16,
        }
    }
}

/// Packing three numbers keeps each of them, and leaves the top sixteen bits
/// clear.
proof fn lemma_pack(major: u16, minor: u16, patch: u16)
    ensures
        ({
            let p = ((major as u64) << 32) | ((minor as u64) << 16) | (patch as u64);
            &&& p < 0x1_0000_0000_0000
            &&& ((p >> 32) & 0xffff) as u16 == major
            &&& ((p >> 16) & 0xffff) as u16 == minor
            &&& (p & 0xffff) as u16 == patch
        }),
{
    assert({
        let p = ((major as u64) << 32) | ((minor as u64) << 16) | (patch as u64);
        &&& p < 0x1_0000_0000_0000
        &&& ((p >> 32) & 0xffff) as u16 == major
        &&& ((p >> 16) & 0xffff) as u16 == minor
        &&& (p & 0xffff) as u16 == patch
    }) by (bit_vector);
}

/// Packed versions compare as their triples do.
proof fn lemma_packed_order(a: u64, b: u64)
    requires
        a < 0x1_0000_0000_0000,
        b < 0x1_0000_0000_0000,
    ensures
        a >= b <==> ({
            let a_major = ((a >> 32) & 0xffff) as u16;
            let a_minor = ((a >> 16) & 0xffff) as u16;
            let a_patch = (a & 0xffff) as u16;
            let b_major = ((b >> 32) & 0xffff) as u16;
            let b_minor = ((b >> 16) & 0xffff) as u16;
            let b_patch = (b & 0xffff) as u16;
            ||| a_major > b_major
            ||| a_major == b_major && a_minor > b_minor
            ||| a_major == b_major && a_minor == b_minor && a_patch >= b_patch
        }),
{
    assert(a >= b <==> ({
        let a_major = ((a >> 32) & 0xffff) as u16;
        let a_minor = ((a >> 16) & 0xffff) as u16;
        let a_patch = (a & 0xffff) as u16;
        let b_major = ((b >> 32) & 0xffff) as u16;
        let b_minor = ((b >> 16) & 0xffff) as u16;
        let b_patch = (b & 0xffff) as u16;
        ||| a_major > b_major
        ||| a_major == b_major && a_minor > b_minor
        ||| a_major == b_major && a_minor == b_minor && a_patch >= b_patch
    })) by (bit_vector)
        requires
            a < 0x1_0000_0000_0000,
            b < 0x1_0000_0000_0000,
    ;
}

impl Version {
    #[verifier::type_invariant]
    spec fn packed(self) -> bool {
        self.0 < 0x1_0000_0000_0000
    }

    /// The version `major.minor.patch`.
    pub fn new(major: u16, minor: u16, patch: u16) -> (version: Version)
        ensures
            version@ == (Triple { major, minor, patch }),
    {
        proof {
            lemma_pack(major, minor, patch);
        }
        Version(((major as u64) << 32) | ((minor as u64) << 16) | (patch as u64))
    }

    /// The first number of the version.
    pub fn major(&self) -> (major: u16)
        ensures
            major == self@.major,
    {
        ((self.0 >> 32) & 0xffff) as u16
    }

    /// The second number of the version.
    pub fn minor(&self) -> (minor: u16)
        ensures
            minor == self@.minor,
    {
        ((self.0 >> 16) & 0xffff) as u16
    }

    /// The third number of the version.
    pub fn patch(&self) -> (patch: u16)
        ensures
            patch == self@.patch,
    {
        (self.0 & 0xffff) as u16
    }

    /// Whether this version is `other` or a later one.
    pub fn at_least(&self, other: &Version) -> (yes: bool)
        ensures
            yes == self@.at_least(other@),
    {
        proof {
            use_type_invariant(self);
            use_type_invariant(other);
            lemma_packed_order(self.0, other.0);
        }
        self.0 >= other.0
    }
}

/// Whether `byte` is an ASCII decimal digit.
pub open spec fn is_digit(byte: u8) -> bool {
    0x30 <= byte <= 0x39
}

/// The first position at or after `from` that holds a digit; the length of
/// `text` if there is none.
pub open spec fn first_digit(text: Seq<u8>, from: int) -> int
    decreases text.len() - from,
{
    if 0 <= from < text.len() && !is_digit(text[from]) {
        first_digit(text, from + 1)
    } else {
        from
    }
}

/// The first position at or after `from` that holds no digit; the length of
/// `text` if there is none. The digit run that starts at `from` ends here.
pub open spec fn digits_end(text: Seq<u8>, from: int) -> int
    decreases text.len() - from,
{
    if 0 <= from < text.len() && is_digit(text[from]) {
        digits_end(text, from + 1)
    } else {
        from
    }
}

/// The number that a sequence of digits writes in base ten.
pub open spec fn decimal(digits: Seq<u8>) -> nat
    decreases digits.len(),
{
    if digits.len() == 0 {
        0
    } else {
        decimal(digits.drop_last()) * 10 + (digits.last() - 0x30) as nat
    }
}

/// The version that `text` names, if it names one: the first run of digits,
/// a dot, a second run, a dot, and a third run that something other than a
/// digit follows, each run a number that sixteen bits hold.
pub open spec fn kernel_version(text: Seq<u8>) -> Option<Triple> {
    let major_begin = first_digit(text, 0);
    let major_end = digits_end(text, major_begin);
    let minor_begin = major_end + 1;
    let minor_end = digits_end(text, minor_begin);
    let patch_begin = minor_end + 1;
    let patch_end = digits_end(text, patch_begin);
    if major_end < text.len() && text[major_end] == 0x2e && minor_begin < minor_end && minor_end
        < text.len() && text[minor_end] == 0x2e && patch_begin < patch_end && patch_end
        < text.len() {
        let major = decimal(text.subrange(major_begin, major_end));
        let minor = decimal(text.subrange(minor_begin, minor_end));
        let patch = decimal(text.subrange(patch_begin, patch_end));
        if major <= 0xffff && minor <= 0xffff && patch <= 0xffff {
            Some(Triple { major: major as u16, minor: minor as u16, patch: patch as u16 })
        } else {
            None
        }
    } else {
        None
    }
}

/// Skips what is no digit.
fn find_digit(text: &[u8], from: usize) -> (at: usize)
    requires
        from <= text@.len(),
    ensures
        at == first_digit(text@, from as int),
        from <= at <= text@.len(),
{
    let mut at: usize = from;
    while at < text.len() && !(0x30 <= text[at] && text[at] <= 0x39)
        invariant
            from <= at <= text@.len(),
            first_digit(text@, from as int) == first_digit(text@, at as int),
        decreases text@.len() - at,
    {
        at = at + 1;
    }
    at
}

/// Reads the digit run that starts at `from`: where it ends, and its number
/// unless sixteen bits cannot hold it.
fn read_digits(text: &[u8], from: usize) -> (run: (usize, Option<u16>))
    requires
        from <= text@.len(),
    ensures
        run.0 == digits_end(text@, from as int),
        from <= run.0 <= text@.len(),
        run.1 == (if decimal(text@.subrange(from as int, run.0 as int)) <= 0xffff {
            Some(decimal(text@.subrange(from as int, run.0 as int)) as u16)
        } else {
            None
        }),
{
    let mut end: usize = from;
    let mut number: u32 = 0;
    let mut fits: bool = true;
    assert(text@.subrange(from as int, from as int).len() == 0);
    while end < text.len() && 0x30 <= text[end] && text[end] <= 0x39
        invariant
            from <= end <= text@.len(),
            digits_end(text@, from as int) == digits_end(text@, end as int),
            fits ==> number == decimal(text@.subrange(from as int, end as int)),
            fits ==> number <= 0xffff,
            !fits ==> decimal(text@.subrange(from as int, end as int)) > 0xffff,
        decreases text@.len() - end,
    {
        let digit: u32 = (text[end] - 0x30) as u32;
        proof {
            let longer = text@.subrange(from as int, end as int + 1);
            assert(longer.drop_last() == text@.subrange(from as int, end as int));
            assert(longer.last() == text@[end as int]);
        }
        if fits {
            number = number * 10 + digit;
            if number > 0xffff {
                fits = false;
            }
        }
        end = end + 1;
    }
    if fits {
        (end, Some(number as u16))
    } else {
        (end, None)
    }
}

impl Version {
    /// Reads a kernel version from the text that reports it, such as
    /// `Linux version 5.15.0-generic ...`. What follows the third number is
    /// not looked at, but something must follow it.
    pub fn parse(text: &[u8]) -> (parsed: Result<Version, Error>)
        ensures
            match kernel_version(text@) {
                Some(triple) => parsed is Ok && parsed->Ok_0@ == triple,
                None => parsed == Err::<Version, Error>(Error::DataFormat),
            },
    {
        let major_begin = find_digit(text, 0);
        let (major_end, major) = read_digits(text, major_begin);
        if major_end >= text.len() || text[major_end] != 0x2e {
            return Err(Error::DataFormat);
        }
        let (minor_end, minor) = read_digits(text, major_end + 1);
        if minor_end == major_end + 1 || minor_end >= text.len() || text[minor_end] != 0x2e {
            return Err(Error::DataFormat);
        }
        let (patch_end, patch) = read_digits(text, minor_end + 1);
        if patch_end == minor_end + 1 || patch_end >= text.len() {
            return Err(Error::DataFormat);
        }
        match (major, minor, patch) {
            (Some(major), Some(minor), Some(patch)) => Ok(Version::new(major, minor, patch)),
            _ => Err(Error::DataFormat),
        }
    }
}

/// Whether `head` is how `text` begins.
spec fn begins(text: Seq<u8>, head: Seq<u8>) -> bool {
    head.len() <= text.len() && text.subrange(0, head.len() as int) == head
}

/// Where the third number of `text` ends, if `text` names a version.
spec fn version_end(text: Seq<u8>) -> int {
    let major_end = digits_end(text, first_digit(text, 0));
    let minor_end = digits_end(text, major_end + 1);
    digits_end(text, minor_end + 1)
}

/// The search for a digit stays inside the text.
proof fn lemma_first_digit(text: Seq<u8>, from: int)
    requires
        0 <= from <= text.len(),
    ensures
        from <= first_digit(text, from) <= text.len(),
    decreases text.len() - from,
{
    if from < text.len() && !is_digit(text[from]) {
        lemma_first_digit(text, from + 1);
    }
}

/// A digit run stays inside the text, and what follows it is no digit.
proof fn lemma_digits_end(text: Seq<u8>, from: int)
    requires
        0 <= from <= text.len(),
    ensures
        from <= digits_end(text, from) <= text.len(),
        digits_end(text, from) < text.len() ==> !is_digit(text[digits_end(text, from)]),
    decreases text.len() - from,
{
    if from < text.len() && is_digit(text[from]) {
        lemma_digits_end(text, from + 1);
    }
}

/// A search for a digit that ends inside the head of a text ends there in
/// the head too, and the other way round.
proof fn lemma_first_digit_in_head(text: Seq<u8>, head: Seq<u8>, from: int)
    requires
        begins(text, head),
        0 <= from <= head.len(),
        first_digit(text, from) < head.len() || first_digit(head, from) < head.len(),
    ensures
        first_digit(head, from) == first_digit(text, from),
    decreases head.len() - from,
{
    lemma_first_digit(head, from);
    lemma_first_digit(text, from);
    if from < head.len() {
        assert(head[from] == text.subrange(0, head.len() as int)[from]);
        if !is_digit(head[from]) {
            lemma_first_digit(text, from + 1);
            lemma_first_digit(head, from + 1);
            lemma_first_digit_in_head(text, head, from + 1);
        }
    }
}

/// A digit run that ends inside the head of a text ends there in the head
/// too, and the other way round.
proof fn lemma_digits_end_in_head(text: Seq<u8>, head: Seq<u8>, from: int)
    requires
        begins(text, head),
        0 <= from <= head.len(),
        digits_end(text, from) < head.len() || digits_end(head, from) < head.len(),
    ensures
        digits_end(head, from) == digits_end(text, from),
    decreases head.len() - from,
{
    lemma_digits_end(head, from);
    lemma_digits_end(text, from);
    if from < head.len() {
        assert(head[from] == text.subrange(0, head.len() as int)[from]);
        if is_digit(head[from]) {
            lemma_digits_end(text, from + 1);
            lemma_digits_end(head, from + 1);
            lemma_digits_end_in_head(text, head, from + 1);
        }
    }
}

/// A text and a head of it hold the same bytes wherever the head reaches.
proof fn lemma_same_in_head(text: Seq<u8>, head: Seq<u8>, from: int, to: int)
    requires
        begins(text, head),
        0 <= from <= to <= head.len(),
    ensures
        head.subrange(from, to) == text.subrange(from, to),
{
    assert(text.subrange(0, head.len() as int).subrange(from, to) =~= text.subrange(from, to));
}

/// A text and a head of it name the same version as soon as one of them
/// names a version that ends, terminator included, inside the head.
proof fn lemma_head_names_the_same(text: Seq<u8>, head: Seq<u8>)
    requires
        begins(text, head),
        kernel_version(head) is Some || (kernel_version(text) is Some && version_end(text)
            < head.len()),
    ensures
        kernel_version(head) == kernel_version(text),
{
    let major_begin = first_digit(text, 0);
    lemma_first_digit(text, 0);
    lemma_first_digit(head, 0);
    lemma_digits_end(text, first_digit(text, 0));
    lemma_digits_end(head, first_digit(head, 0));
    if kernel_version(text) is Some && version_end(text) < head.len() {
        let major_end = digits_end(text, major_begin);
        let minor_end = digits_end(text, major_end + 1);
        lemma_digits_end(text, major_end + 1);
        lemma_digits_end(text, minor_end + 1);
    } else {
        let major_end = digits_end(head, first_digit(head, 0));
        let minor_end = digits_end(head, major_end + 1);
        lemma_digits_end(head, major_end + 1);
        lemma_digits_end(head, minor_end + 1);
    }
    lemma_first_digit_in_head(text, head, 0);
    lemma_digits_end_in_head(text, head, major_begin);
    let major_end = digits_end(text, major_begin);
    lemma_digits_end_in_head(text, head, major_end + 1);
    let minor_end = digits_end(text, major_end + 1);
    lemma_digits_end_in_head(text, head, minor_end + 1);
    let patch_end = digits_end(text, minor_end + 1);
    assert(head[major_end] == text.subrange(0, head.len() as int)[major_end]);
    assert(head[minor_end] == text.subrange(0, head.len() as int)[minor_end]);
    lemma_same_in_head(text, head, major_begin, major_end);
    lemma_same_in_head(text, head, major_end + 1, minor_end);
    lemma_same_in_head(text, head, minor_end + 1, patch_end);
}

/// What follows a version is not looked at: a text that names a version
/// names the same one whatever is written after it.
pub proof fn lemma_trailing_text_is_ignored(text: Seq<u8>, rest: Seq<u8>)
    requires
        kernel_version(text) is Some,
    ensures
        kernel_version(text + rest) == kernel_version(text),
{
    assert((text + rest).subrange(0, text.len() as int) == text);
    lemma_head_names_the_same(text + rest, text);
}

/// Digits alone never complete a version: where a text names none, the
/// text with digits written after it names none either. So a text that
/// ends with its third number, as `5.15.0` does, names no version.
pub proof fn lemma_digits_at_the_end_name_nothing(text: Seq<u8>, digits: Seq<u8>)
    requires
        kernel_version(text) is None,
        forall|k: int| 0 <= k < digits.len() ==> is_digit(#[trigger] digits[k]),
    ensures
        kernel_version(text + digits) is None,
{
    let whole = text + digits;
    if kernel_version(whole) is Some {
        let major_begin = first_digit(whole, 0);
        lemma_first_digit(whole, 0);
        lemma_digits_end(whole, major_begin);
        let major_end = digits_end(whole, major_begin);
        lemma_digits_end(whole, major_end + 1);
        let minor_end = digits_end(whole, major_end + 1);
        lemma_digits_end(whole, minor_end + 1);
        let patch_end = digits_end(whole, minor_end + 1);
        if patch_end >= text.len() {
            assert(whole[patch_end] == digits[patch_end - text.len()]);
        }
        assert(whole.subrange(0, text.len() as int) == text);
        lemma_head_names_the_same(whole, text);
    }
}

/// A version takes two dots: a text that holds fewer names none.
pub proof fn lemma_two_dots_are_needed(text: Seq<u8>)
    requires
        forall|i: int, j: int| 0 <= i < j < text.len() ==> !(text[i] == 0x2e && text[j] == 0x2e),
    ensures
        kernel_version(text) is None,
{
    lemma_first_digit(text, 0);
    let major_end = digits_end(text, first_digit(text, 0));
    lemma_digits_end(text, first_digit(text, 0));
    if major_end < text.len() {
        lemma_digits_end(text, major_end + 1);
    }
}


} // verus!
