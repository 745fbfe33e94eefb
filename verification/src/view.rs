//! The rendering of a state: one line of three styled segments.

use vstd::prelude::*;
use crate::model::{Model, ModelView};

verus! {

/// How a segment is drawn.
#[derive(Clone, Copy, Debug, PartialEq, Eq, Structural)]
pub enum Emphasis {
    /// The terminal's default style.
    Plain,
    /// A distinct foreground colour.
    Highlighted,
}

/// A run of text in one style.
#[derive(Debug, PartialEq, Eq)]
pub struct Segment {
    pub text: String,
    pub emphasis: Emphasis,
}

/// What a [`Segment`] is, with its text as a sequence of characters.
pub struct SegmentView {
    pub text: Seq<char>,
    pub emphasis: Emphasis,
}

impl View for Segment {
    type V = SegmentView;

    open spec fn view(&self) -> SegmentView {
        SegmentView { text: self.text@, emphasis: self.emphasis }
    }
}

/// One frame: a single styled line that fills the terminal's area, its
/// segments from left to right.
#[derive(Debug, PartialEq, Eq)]
pub struct RenderedFrame {
    pub segments: Vec<Segment>,
}

impl View for RenderedFrame {
    type V = Seq<SegmentView>;

    open spec fn view(&self) -> Seq<SegmentView> {
        Seq::new(self.segments@.len(), |i: int| self.segments@[i]@)
    }
}

/// The texts of `segments` joined from left to right, styles dropped.
pub open spec fn plain_text(segments: Seq<SegmentView>) -> Seq<char>
    decreases segments.len(),
{
    if segments.len() == 0 {
        Seq::empty()
    } else {
        plain_text(segments.drop_last()) + segments.last().text
    }
}

/// The line that shows `m`: the leading text plain, the highlight
/// emphasised, the following text plain.
pub open spec fn rendered(m: ModelView) -> Seq<SegmentView> {
    seq![
        SegmentView { text: m.leading, emphasis: Emphasis::Plain },
        SegmentView { text: m.highlight, emphasis: Emphasis::Highlighted },
        SegmentView { text: m.follow_word, emphasis: Emphasis::Plain },
    ]
}

/// Read without its styles, the rendered line is the leading text, the
/// highlight and the following text, in this order, for every state.
pub proof fn lemma_rendered_text(m: ModelView)
    ensures
        plain_text(rendered(m)) == m.line(),
{
    let three = rendered(m);
    let two = three.drop_last();
    let one = two.drop_last();
    assert(one.drop_last().len() == 0);
    assert(plain_text(one) =~= m.leading) by {
        assert(plain_text(one.drop_last()) =~= Seq::<char>::empty());
    }
    assert(plain_text(two) =~= m.leading + m.highlight);
    assert(plain_text(three) =~= m.leading + m.highlight + m.follow_word);
}

/// Two frames that render one state are the same frame, segment by segment,
/// and read the same without their styles.
pub proof fn lemma_rendering_is_repeatable(
    m: ModelView,
    first: Seq<SegmentView>,
    second: Seq<SegmentView>,
)
    requires
        first == rendered(m),
        second == rendered(m),
    ensures
        first == second,
        plain_text(first) == plain_text(second),
{
}

/// Renders the model. The frame depends on the model's state alone, so two
/// calls on one state give the same frame.
pub fn view(model: &Model) -> (frame: RenderedFrame)
    ensures
        frame@ == rendered(model@),
        plain_text(frame@) == model@.line(),
{
    let mut segments: Vec<Segment> = Vec::new();
    segments.push(Segment { text: model.leading.clone(), emphasis: Emphasis::Plain });
    segments.push(Segment { text: model.highlight.clone(), emphasis: Emphasis::Highlighted });
    segments.push(Segment { text: model.follow_word.clone(), emphasis: Emphasis::Plain });
    let frame = RenderedFrame { segments };
    proof {
        assert(frame@ =~= rendered(model@));
        lemma_rendered_text(model@);
    }
    frame
}

impl RenderedFrame {
    /// The characters of the line, styles dropped.
    pub fn text(&self) -> (line: String)
        ensures
            line@ == plain_text(self@),
    {
        let mut line = String::new();
        let mut i: usize = 0;
        while i < self.segments.len()
            invariant
                i <= self.segments@.len(),
                line@ == plain_text(self@.take(i as int)),
            decreases self.segments@.len() - i,
        {
            proof {
                let upto = self@.take(i + 1);
                assert(upto.drop_last() =~= self@.take(i as int));
                assert(upto.last() == self@[i as int]);
            }
            line.append(self.segments[i].text.as_str());
            i = i + 1;
        }
        proof {
            assert(self@.take(i as int) =~= self@);
        }
        line
    }
}

} // verus!
