//! Source lines surrounding a diagnostic: up to a configured number of
//! lines strictly before the diagnostic line, the line itself, and up to
//! the same number of lines strictly after, clipped at the file limits.

use vstd::prelude::*;

verus! {

/// Spec-level value of a [`CodeContext`].
pub ghost struct CodeContextView {
    pub before: Seq<Seq<char>>,
    pub line: Seq<char>,
    pub after: Seq<Seq<char>>,
}

pub struct CodeContext {
    pub before: Vec<String>,
    pub line: String,
    pub after: Vec<String>,
}

impl View for CodeContext {
    type V = CodeContextView;

    open spec fn view(&self) -> CodeContextView {
        CodeContextView {
            before: self.before.deep_view(),
            line: self.line@,
            after: self.after.deep_view(),
        }
    }
}

impl DeepView for CodeContext {
    type V = CodeContextView;

    open spec fn deep_view(&self) -> CodeContextView {
        self.view()
    }
}

/// The all-empty context.
pub open spec fn empty_context() -> CodeContextView {
    CodeContextView { before: Seq::empty(), line: Seq::empty(), after: Seq::empty() }
}

/// The context that a file with the given `lines` yields for the 1-based
/// line number `ln` with `width` lines of context on each side: clipped at
/// the start and end of the file, and all empty when `ln` is out of range.
pub open spec fn context_of_lines(lines: Seq<Seq<char>>, ln: int, width: int) -> CodeContextView {
    if 1 <= ln <= lines.len() {
        let idx = ln - 1;
        let start = if idx - width >= 0 {
            idx - width
        } else {
            0
        };
        let end = if idx + 1 + width <= lines.len() {
            idx + 1 + width
        } else {
            lines.len() as int
        };
        CodeContextView {
            before: lines.subrange(start, idx),
            line: lines[idx],
            after: lines.subrange(idx + 1, end),
        }
    } else {
        empty_context()
    }
}

impl CodeContext {
    pub fn new(before: Vec<String>, line: String, after: Vec<String>) -> (r: Self)
        ensures
            r@.before == before.deep_view(),
            r@.line == line@,
            r@.after == after.deep_view(),
    {
        Self { before, line, after }
    }

    /// A context holding only the diagnostic line itself.
    pub fn empty(line: String) -> (r: Self)
        ensures
            r@.before == Seq::<Seq<char>>::empty(),
            r@.line == line@,
            r@.after == Seq::<Seq<char>>::empty(),
    {
        let r = Self { before: Vec::new(), line, after: Vec::new() };
        proof {
            assert(r.before.deep_view() =~= Seq::<Seq<char>>::empty());
            assert(r.after.deep_view() =~= Seq::<Seq<char>>::empty());
        }
        r
    }

    /// Slice the context for 1-based line `ln` out of a file's lines.
    pub fn from_lines(lines: &Vec<String>, ln: usize, width: usize) -> (r: Self)
        ensures
            r@ == context_of_lines(lines.deep_view(), ln as int, width as int),
    {
        let ghost lv = lines.deep_view();
        let n = lines.len();
        assert(lv.len() == n);
        if 1 <= ln && ln <= n {
            let idx = ln - 1;
            let start = if idx >= width {
                idx - width
            } else {
                0
            };
            let end = if width <= n - (idx + 1) {
                idx + 1 + width
            } else {
                n
            };
            let before = clone_line_range(lines, start, idx);
            let line = lines[idx].clone();
            let after = clone_line_range(lines, idx + 1, end);
            let r = Self { before, line, after };
            proof {
                assert(r.before.deep_view() =~= lv.subrange(start as int, idx as int));
                assert(r.after.deep_view() =~= lv.subrange(idx as int + 1, end as int));
            }
            r
        } else {
            let r = Self { before: Vec::new(), line: String::new(), after: Vec::new() };
            proof {
                assert(r.before.deep_view() =~= Seq::<Seq<char>>::empty());
                assert(r.after.deep_view() =~= Seq::<Seq<char>>::empty());
            }
            r
        }
    }
}

/// Copies of the lines in the range `[a, b)`.
fn clone_line_range(lines: &Vec<String>, a: usize, b: usize) -> (r: Vec<String>)
    requires
        a <= b <= lines@.len(),
    ensures
        r.deep_view() =~= lines.deep_view().subrange(a as int, b as int),
{
    let mut r: Vec<String> = Vec::new();
    let mut i: usize = a;
    while i < b
        invariant
            a <= i <= b <= lines@.len(),
            r@.len() == i - a,
            forall|k: int|
                0 <= k < r@.len() ==> #[trigger] r@[k].deep_view() == lines.deep_view()[a + k],
        decreases b - i,
    {
        r.push(lines[i].clone());
        proof {
            assert(r@[i - a].deep_view() == lines.deep_view()[i as int]);
        }
        i = i + 1;
    }
    proof {
        assert forall|k: int|
            0 <= k < r.deep_view().len() implies r.deep_view()[k] == lines.deep_view().subrange(
            a as int,
            b as int,
        )[k] by {
            assert(r@[k].deep_view() == lines.deep_view()[a + k]);
        }
        assert(r.deep_view() =~= lines.deep_view().subrange(a as int, b as int));
    }
    r
}

} // verus!
