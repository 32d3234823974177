//! What a drawing has asked of the host so far.

use vstd::prelude::*;
use crate::command::{CommandView, ReplyView};
use crate::draw::{keeps_to_triangle, lemma_draw_request_keeps_to_triangle, lemma_draw_run_wf};
use crate::draw::DrawTaskView;
use crate::error::GlErrorView;
use crate::scalar::chosen_color;

verus! {

impl DrawTaskView {
    /// The calls that the host has answered when it has given `replies`,
    /// in the order in which they were made. A reply that does not answer
    /// the pending call counts for nothing.
    pub open spec fn answered_calls(self, replies: Seq<ReplyView>) -> Seq<CommandView>
        decreases replies.len(),
    {
        if replies.len() == 0 {
            Seq::empty()
        } else {
            let before = self.run(replies.drop_last());
            if before.accepts(replies.last()) {
                self.answered_calls(replies.drop_last()).push(before.request()->Some_0)
            } else {
                self.answered_calls(replies.drop_last())
            }
        }
    }
}

/// One more reply moves the task by one step, and adds the call that was
/// pending to those answered if it answers it.
pub proof fn lemma_answer(start: DrawTaskView, replies: Seq<ReplyView>, reply: ReplyView)
    ensures
        start.run(replies.push(reply)) == start.run(replies).advance(reply),
        start.answered_calls(replies.push(reply)) == if start.run(replies).accepts(reply) {
            start.answered_calls(replies).push(start.run(replies).request()->Some_0)
        } else {
            start.answered_calls(replies)
        },
{
    assert(replies.push(reply).drop_last() =~= replies);
}

/// Replies given in two lots do what they do when given in one.
pub proof fn lemma_answers_in_two_lots(
    start: DrawTaskView,
    first: Seq<ReplyView>,
    second: Seq<ReplyView>,
)
    ensures
        start.run(first + second) == start.run(first).run(second),
        start.answered_calls(first + second) == start.answered_calls(first) + start.run(
            first,
        ).answered_calls(second),
    decreases second.len(),
{
    if second.len() == 0 {
        assert(first + second =~= first);
        assert(start.answered_calls(first) + Seq::<CommandView>::empty() =~= start.answered_calls(
            first,
        ));
    } else {
        let earlier = second.drop_last();
        lemma_answers_in_two_lots(start, first, earlier);
        assert(first + second =~= (first + earlier).push(second.last()));
        lemma_answer(start, first + earlier, second.last());
        let middle = start.run(first);
        let before = middle.run(earlier);
        if before.accepts(second.last()) {
            assert(start.answered_calls(first + second) =~= start.answered_calls(first)
                + middle.answered_calls(second));
        }
    }
}

/// Every call that the host has answered kept to the triangle and to the
/// color selected, whatever the host said and however far the drawing
/// came.
pub proof fn lemma_answered_calls_keep_to_triangle(
    canvas_id: Seq<char>,
    selected: Option<Seq<u32>>,
    replies: Seq<ReplyView>,
)
    ensures
        ({
            let calls = DrawTaskView::start(canvas_id, selected).answered_calls(replies);
            forall|i: int|
                0 <= i < calls.len() ==> keeps_to_triangle(
                    #[trigger] calls[i],
                    chosen_color(selected),
                )
        }),
    decreases replies.len(),
{
    if replies.len() > 0 {
        let start = DrawTaskView::start(canvas_id, selected);
        let earlier = start.answered_calls(replies.drop_last());
        let calls = start.answered_calls(replies);
        lemma_answered_calls_keep_to_triangle(canvas_id, selected, replies.drop_last());
        lemma_draw_run_wf(start, replies.drop_last());
        lemma_draw_request_keeps_to_triangle(start.run(replies.drop_last()));
        assert forall|i: int| 0 <= i < calls.len() implies keeps_to_triangle(
            #[trigger] calls[i],
            chosen_color(selected),
        ) by {
            if i < earlier.len() {
                assert(calls[i] == earlier[i]);
            }
        }
    }
}

/// When the host's first answer is that the canvas is not there, the
/// lookup of the canvas is the only call that was ever answered, whatever
/// the host says afterwards, and the drawing has failed with `NotFound`.
pub proof fn lemma_missing_canvas_answers_one_call(
    canvas_id: Seq<char>,
    selected: Option<Seq<u32>>,
    later: Seq<ReplyView>,
)
    ensures
        ({
            let start = DrawTaskView::start(canvas_id, selected);
            let replies = seq![ReplyView::Presence(false)] + later;
            &&& start.answered_calls(replies) == seq![CommandView::GetCanvas { id: canvas_id }]
            &&& start.run(replies).outcome() == Some(
                Err::<(), GlErrorView>(GlErrorView::NotFound),
            )
        }),
    decreases later.len(),
{
    let start = DrawTaskView::start(canvas_id, selected);
    let first = seq![ReplyView::Presence(false)];
    if later.len() == 0 {
        assert(first + later =~= Seq::<ReplyView>::empty().push(ReplyView::Presence(false)));
        lemma_answer(start, Seq::empty(), ReplyView::Presence(false));
    } else {
        lemma_missing_canvas_answers_one_call(canvas_id, selected, later.drop_last());
        assert(first + later =~= (first + later.drop_last()).push(later.last()));
        lemma_answer(start, first + later.drop_last(), later.last());
    }
}

} // verus!
