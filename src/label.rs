//! Styled labels, as item names carry them, and their flattening to plain
//! text.
use vstd::prelude::*;

verus! {

/// Formatting attached to one run of a label. None of it reaches the plain
/// text.
#[derive(Clone, Debug, PartialEq, Eq)]
pub struct TextStyle {
    pub color: Option<String>,
    pub bold: bool,
    pub italic: bool,
    pub underlined: bool,
    pub strikethrough: bool,
    pub obfuscated: bool,
}

/// One piece of a label: characters and the style they are shown in.
#[derive(Clone, Debug, PartialEq, Eq)]
pub struct StyledRun {
    pub text: String,
    pub style: TextStyle,
}

/// A styled label: its runs in reading order, nested components already
/// laid out depth-first.
#[derive(Clone, Debug, PartialEq, Eq)]
pub struct StyledText {
    pub runs: Vec<StyledRun>,
}

/// The characters of `runs`, one run after the other, with all style dropped.
pub open spec fn render_runs(runs: Seq<StyledRun>) -> Seq<char>
    decreases runs.len(),
{
    if runs.len() == 0 {
        Seq::empty()
    } else {
        render_runs(runs.drop_last()) + runs.last().text@
    }
}

impl StyledText {
    /// The plain text of the label.
    pub open spec fn plain(&self) -> Seq<char> {
        render_runs(self.runs@)
    }

    /// A label of one unstyled run.
    pub fn plain_text(s: &str) -> (r: StyledText)
        ensures
            r.runs@.len() == 1,
            r.plain() == s@,
    {
        let style = TextStyle {
            color: None,
            bold: false,
            italic: false,
            underlined: false,
            strikethrough: false,
            obfuscated: false,
        };
        let mut runs: Vec<StyledRun> = Vec::new();
        runs.push(StyledRun { text: String::from_str(s), style });
        proof {
            assert(runs@.drop_last() =~= Seq::<StyledRun>::empty());
            assert(render_runs(runs@.drop_last()) == Seq::<char>::empty());
            assert(runs@.last().text@ == s@);
            assert(Seq::<char>::empty() + s@ =~= s@);
        }
        StyledText { runs }
    }

    /// Flattens the label to plain text: the characters of every run, in
    /// order, without any style.
    pub fn render(&self) -> (r: String)
        ensures
            r@ == self.plain(),
    {
        let mut out = String::new();
        let mut i: usize = 0;
        while i < self.runs.len()
            invariant
                0 <= i <= self.runs@.len(),
                out@ == render_runs(self.runs@.subrange(0, i as int)),
            decreases self.runs@.len() - i,
        {
            proof {
                let next = self.runs@.subrange(0, i + 1);
                assert(next.drop_last() =~= self.runs@.subrange(0, i as int));
            }
            out.append(self.runs[i].text.as_str());
            i = i + 1;
        }
        proof {
            assert(self.runs@.subrange(0, i as int) =~= self.runs@);
        }
        out
    }
}

} // verus!
