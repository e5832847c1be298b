//! The turn under construction that every decoder writes to.

use crate::model::{
    all_finished, clone_parts, close_all, part_views, FinishReason, Message, MessageView, Part,
    PartView, Response, ResponseView, Role,
};
use crate::usage::{Usage, UsageView};
use vstd::prelude::*;

verus! {

/// One assistant message under construction, with the token totals
/// reported so far and the reason the turn ended, once it has.
#[derive(Debug, PartialEq)]
pub struct Turn {
    pub parts: Vec<Part>,
    pub usage: Usage,
    pub finish: FinishReason,
}

pub struct TurnView {
    pub parts: Seq<PartView>,
    pub usage: UsageView,
    pub finish: FinishReason,
}

impl TurnView {
    /// A turn of which nothing has arrived.
    pub open spec fn initial() -> TurnView {
        TurnView { parts: Seq::empty(), usage: UsageView::empty(), finish: FinishReason::Unfinished }
    }

    /// The response that shows this turn: a single assistant message.
    pub open spec fn response(self) -> ResponseView {
        ResponseView {
            data: seq![MessageView { role: Role::Assistant, parts: self.parts }],
            usage: self.usage,
            finish: self.finish,
        }
    }

    /// The turn with every unit closed.
    pub open spec fn closed(self) -> TurnView {
        TurnView { parts: close_all(self.parts), ..self }
    }

    /// The turn with the last unit closed, if there is one.
    pub open spec fn last_closed(self) -> TurnView {
        if self.parts.len() > 0 {
            TurnView {
                parts: self.parts.update(self.parts.len() - 1, self.parts.last().close()),
                ..self
            }
        } else {
            self
        }
    }

    /// The turn with one more unit at its end.
    pub open spec fn pushed(self, part: PartView) -> TurnView {
        TurnView { parts: self.parts.push(part), ..self }
    }

    /// The turn with one more usage report merged into its totals.
    pub open spec fn counted(self, usage: UsageView) -> TurnView {
        TurnView { usage: self.usage.merge(usage), ..self }
    }
}

impl View for Turn {
    type V = TurnView;

    open spec fn view(&self) -> TurnView {
        TurnView { parts: part_views(self.parts@), usage: self.usage@, finish: self.finish }
    }
}

/// Closing every unit leaves none open.
pub proof fn close_all_finishes(parts: Seq<PartView>)
    ensures
        all_finished(close_all(parts)),
        close_all(parts).len() == parts.len(),
{
}

impl Turn {
    /// A turn of which nothing has arrived.
    pub fn new() -> (r: Turn)
        ensures
            r@ == TurnView::initial(),
    {
        let r = Turn { parts: Vec::new(), usage: Usage::default(), finish: FinishReason::Unfinished };
        assert(r@.parts =~= Seq::empty());
        r
    }

    /// Appends a unit.
    pub fn push(&mut self, part: Part)
        ensures
            final(self)@ == old(self)@.pushed(part@),
    {
        self.parts.push(part);
        assert(final(self)@.parts =~= old(self)@.parts.push(part@));
    }

    /// Closes the last unit, if there is one.
    pub fn close_last(&mut self)
        ensures
            final(self)@ == old(self)@.last_closed(),
    {
        let n = self.parts.len();
        if n > 0 {
            self.parts[n - 1].finish();
            assert(final(self)@.parts =~= old(self)@.last_closed().parts);
        }
    }

    /// Closes every unit that is still open.
    pub fn close_all(&mut self)
        ensures
            final(self)@ == old(self)@.closed(),
    {
        let mut i: usize = 0;
        while i < self.parts.len()
            invariant
                i <= self.parts.len(),
                self.parts.len() == old(self).parts.len(),
                self.usage == old(self).usage,
                self.finish == old(self).finish,
                forall|j: int| 0 <= j < i ==> self.parts[j]@ == old(self).parts[j]@.close(),
                forall|j: int| i <= j < self.parts.len() ==> self.parts[j] == old(self).parts[j],
            decreases self.parts.len() - i,
        {
            self.parts[i].finish();
            i += 1;
        }
        assert(final(self)@.parts =~= close_all(old(self)@.parts));
    }

    /// Merges one more usage report into the totals.
    pub fn count(&mut self, usage: &Usage)
        requires
            old(self)@.usage.merge(usage@).fits(),
        ensures
            final(self)@ == old(self)@.counted(usage@),
    {
        self.usage = self.usage.merge(usage);
    }

    /// A copy of the turn as a response.
    pub fn snapshot(&self) -> (r: Response)
        ensures
            r@ == self@.response(),
    {
        let mut data: Vec<Message> = Vec::new();
        data.push(Message::Assistant(clone_parts(&self.parts)));
        let r = Response { data, usage: self.usage, finish: self.finish };
        assert(r@.data =~= self@.response().data);
        r
    }

    /// The turn as a response.
    pub fn into_response(self) -> (r: Response)
        ensures
            r@ == self@.response(),
    {
        let mut data: Vec<Message> = Vec::new();
        data.push(Message::Assistant(self.parts));
        let r = Response { data, usage: self.usage, finish: self.finish };
        assert(r@.data =~= self@.response().data);
        r
    }
}

} // verus!
