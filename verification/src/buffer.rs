//! The text buffer: an ordered sequence of lines, each a sequence of
//! Unicode scalar values with no trailing newline stored.

use vstd::prelude::*;

verus! {

/// The document: `lines[i]` is the `i`-th buffer line, in document order.
pub struct Buffer {
    pub lines: Vec<Vec<char>>,
}

/// A workable buffer: at least one line (an empty document is one empty
/// line), and few enough lines that a line index plus a screen row never
/// overflows a `usize`.
pub open spec fn buffer_wf(lines: Seq<Seq<char>>) -> bool {
    &&& lines.len() >= 1
    &&& lines.len() + 65536 <= usize::MAX
}

/// The length of line `i`, or zero for an index past the last line.
pub open spec fn spec_line_len(lines: Seq<Seq<char>>, i: int) -> int {
    if 0 <= i < lines.len() {
        lines[i].len() as int
    } else {
        0
    }
}

/// The highest index of a non-empty line, or zero when every line is empty.
/// The Bottom command scrolls to this line rather than to trailing blanks.
pub open spec fn spec_last_nonempty(lines: Seq<Seq<char>>) -> int
    decreases lines.len(),
{
    if lines.len() == 0 {
        0
    } else if lines.last().len() > 0 {
        lines.len() - 1
    } else {
        spec_last_nonempty(lines.drop_last())
    }
}

pub proof fn lemma_last_nonempty_in_range(lines: Seq<Seq<char>>)
    requires
        lines.len() >= 1,
    ensures
        0 <= spec_last_nonempty(lines) < lines.len(),
    decreases lines.len(),
{
    if lines.last().len() == 0 {
        if lines.len() > 1 {
            lemma_last_nonempty_in_range(lines.drop_last());
        } else {
            assert(spec_last_nonempty(lines.drop_last()) == 0);
        }
    }
}

impl Buffer {
    pub open spec fn wf(&self) -> bool {
        buffer_wf(self.lines@.map_values(|l: Vec<char>| l@))
    }

    /// The buffer's mathematical model: a sequence of lines of characters.
    pub open spec fn view_lines(&self) -> Seq<Seq<char>> {
        self.lines@.map_values(|l: Vec<char>| l@)
    }

    /// A buffer holding the given lines.
    pub fn new(lines: Vec<Vec<char>>) -> (b: Buffer)
        ensures
            b.view_lines() == lines@.map_values(|l: Vec<char>| l@),
    {
        Buffer { lines }
    }

    /// An empty document: a single empty line.
    pub fn empty() -> (b: Buffer)
        ensures
            b.wf(),
            b.view_lines() =~= seq![Seq::<char>::empty()],
    {
        let mut lines: Vec<Vec<char>> = Vec::new();
        lines.push(Vec::new());
        let b = Buffer { lines };
        proof {
            assert(b.view_lines() =~= seq![Seq::<char>::empty()]);
        }
        b
    }

    pub fn line_count(&self) -> (n: usize)
        ensures
            n == self.view_lines().len(),
    {
        self.lines.len()
    }

    /// The length of line `index`; zero when `index` is past the last line.
    pub fn line_len(&self, index: usize) -> (n: usize)
        ensures
            n == spec_line_len(self.view_lines(), index as int),
    {
        if index < self.lines.len() {
            self.lines[index].len()
        } else {
            0
        }
    }

    /// The highest index of a non-empty line, or zero when all are empty.
    pub fn last_nonempty_line(&self) -> (r: usize)
        requires
            self.view_lines().len() >= 1,
        ensures
            r == spec_last_nonempty(self.view_lines()),
            r < self.view_lines().len(),
    {
        let ghost lines = self.view_lines();
        let mut i: usize = self.lines.len();
        proof {
            assert(lines.take(lines.len() as int) =~= lines);
        }
        loop
            invariant
                0 < i <= lines.len(),
                lines == self.view_lines(),
                spec_last_nonempty(lines.take(i as int)) == spec_last_nonempty(lines),
            decreases i,
        {
            if self.lines[i - 1].len() > 0 {
                proof {
                    assert(lines.take(i as int).last() == lines[i - 1]);
                }
                return i - 1;
            }
            if i == 1 {
                proof {
                    assert(lines.take(1int).last() == lines[0]);
                    assert(lines.take(1int).drop_last() =~= lines.take(0int));
                    assert(spec_last_nonempty(lines.take(0int)) == 0);
                }
                return 0;
            }
            proof {
                assert(lines.take(i as int).drop_last() =~= lines.take(i - 1));
                assert(lines.take(i as int).last() == lines[i - 1]);
            }
            i = i - 1;
        }
    }
}

} // verus!
