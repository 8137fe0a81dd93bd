//! Source ranges and the text predicates the rules rely on.

use vstd::prelude::*;

verus! {

/// A span of the analyzed source text in bytes: `start` is the offset of its
/// first byte, `end` the offset just past its last one.
#[derive(Clone, Copy, Debug, PartialEq, Eq, Structural)]
pub struct TextRange {
    start: u32,
    end: u32,
}

impl TextRange {
    #[verifier::type_invariant]
    spec fn ordered(self) -> bool {
        self.start <= self.end
    }

    /// The offset at which the range begins.
    pub closed spec fn spec_start(self) -> u32 {
        self.start
    }

    /// The offset at which the range ends.
    pub closed spec fn spec_end(self) -> u32 {
        self.end
    }

    /// The range from `start` up to `end`.
    pub fn new(start: u32, end: u32) -> (range: TextRange)
        requires
            start <= end,
        ensures
            range.spec_start() == start,
            range.spec_end() == end,
    {
        TextRange { start, end }
    }

    #[verifier::when_used_as_spec(spec_start)]
    pub fn start(self) -> (offset: u32)
        ensures
            offset == self.spec_start(),
            offset <= self.spec_end(),
    {
        proof {
            use_type_invariant(&self);
        }
        self.start
    }

    #[verifier::when_used_as_spec(spec_end)]
    pub fn end(self) -> (offset: u32)
        ensures
            offset == self.spec_end(),
            self.spec_start() <= offset,
    {
        proof {
            use_type_invariant(&self);
        }
        self.end
    }

    /// The number of bytes the range covers.
    pub fn len(self) -> (n: u32)
        ensures
            n == self.spec_end() - self.spec_start(),
    {
        proof {
            use_type_invariant(&self);
        }
        self.end - self.start
    }

    /// Two ranges with the same bounds are the same range.
    pub proof fn lemma_equal_by_bounds(self, other: TextRange)
        requires
            self.spec_start() == other.spec_start(),
            self.spec_end() == other.spec_end(),
        ensures
            self == other,
    {
    }
}

/// Trusted: `==` on `str` of the standard library, which compares the two
/// strings byte by byte. Two strings hold the same bytes exactly when they
/// hold the same characters.
#[verifier::external_body]
pub(crate) fn str_eq(a: &str, b: &str) -> (same: bool)
    ensures
        same == (a@ == b@),
{
    a == b
}

/// Whether `c` has the Unicode property `White_Space`.
pub open spec fn is_white_space(c: char) -> bool {
    let n = c as u32;
    ||| 0x09 <= n <= 0x0D
    ||| n == 0x20
    ||| n == 0x85
    ||| n == 0xA0
    ||| n == 0x1680
    ||| 0x2000 <= n <= 0x200A
    ||| n == 0x2028
    ||| n == 0x2029
    ||| n == 0x202F
    ||| n == 0x205F
    ||| n == 0x3000
}

/// Whether `text` holds white space only, so that nothing is left of it once
/// it is trimmed. The empty text is blank.
pub open spec fn is_blank(text: Seq<char>) -> bool {
    forall|i: int| 0 <= i < text.len() ==> is_white_space(#[trigger] text[i])
}

pub fn char_is_white_space(c: char) -> (white: bool)
    ensures
        white == is_white_space(c),
{
    let n: u32 = c as u32;
    (0x09 <= n && n <= 0x0D) || n == 0x20 || n == 0x85 || n == 0xA0 || n == 0x1680 || (0x2000 <= n
        && n <= 0x200A) || n == 0x2028 || n == 0x2029 || n == 0x202F || n == 0x205F || n == 0x3000
}

pub fn text_is_blank(text: &str) -> (blank: bool)
    ensures
        blank == is_blank(text@),
{
    let mut blank = true;
    for c in it: text.chars()
        invariant
            it.seq() == text@,
            blank == is_blank(text@.take(it.index() as int)),
    {
        proof {
            let i = it.index() as int;
            assert(text@.take(i + 1)[i] == c);
            assert forall|j: int| 0 <= j < i implies text@.take(i)[j] == text@.take(i + 1)[j] by {}
        }
        if !char_is_white_space(c) {
            blank = false;
        }
    }
    assert(text@.take(text@.len() as int) =~= text@);
    blank
}

} // verus!
