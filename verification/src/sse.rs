//! Lines of a server-sent-event stream.
//!
//! An event line has the form `data: <content>`. A stream ends with the
//! line `data: [DONE]`.

use crate::text::{same_text, split_once, strip_prefix, trim, trimmed};
use vstd::prelude::*;
use vstd::string::StringExecFns;

verus! {

/// What `parse_sse_line` yields for a line.
pub open spec fn sse_data(line: Seq<char>) -> Option<Seq<char>> {
    if "data: "@.is_prefix_of(line) {
        Some(trimmed(line.skip("data: "@.len() as int)))
    } else {
        None
    }
}

/// The data of an event line: what follows `data: `, without the white
/// space around it. A line that does not start with `data: ` has none.
pub fn parse_sse_line(line: &str) -> (r: Option<&str>)
    ensures
        r is Some <==> sse_data(line@) is Some,
        r matches Some(data) ==> Some(data@) == sse_data(line@),
{
    match strip_prefix(line, "data: ") {
        Some(rest) => Some(trim(rest)),
        None => None,
    }
}

/// Whether the data of an event line marks the end of the stream.
pub fn is_done_marker(data: &str) -> (r: bool)
    ensures
        r == (data@ == "[DONE]"@),
{
    same_text(data, "[DONE]")
}

/// Where the first line of a text ends: the position of its first line
/// feed, or its length where it has none.
pub open spec fn line_end(s: Seq<char>) -> int
    decreases s.len(),
{
    if s.len() == 0 {
        0
    } else if s[0] == '\n' {
        0
    } else {
        1 + line_end(s.skip(1))
    }
}

/// The first line ends within the text, and before its end where the text
/// holds a line feed.
pub proof fn line_end_is_within(s: Seq<char>)
    ensures
        0 <= line_end(s) <= s.len(),
        s.contains('\n') ==> line_end(s) < s.len() && s[line_end(s)] == '\n',
    decreases s.len(),
{
    if s.len() > 0 && s[0] != '\n' {
        line_end_is_within(s.skip(1));
        if s.contains('\n') {
            let i = choose|i: int| 0 <= i < s.len() && s[i] == '\n';
            assert(s.skip(1)[i - 1] == '\n');
        }
    }
}

proof fn line_end_of_split(head: Seq<char>, tail: Seq<char>)
    requires
        !head.contains('\n'),
    ensures
        line_end(head + seq!['\n'] + tail) == head.len(),
    decreases head.len(),
{
    let s = head + seq!['\n'] + tail;
    if head.len() == 0 {
        assert(s[0] == '\n');
    } else {
        assert(s[0] == head[0]);
        assert(head.contains(head[0]));
        assert(s.skip(1) =~= head.skip(1) + seq!['\n'] + tail);
        assert forall|i: int| 0 <= i < head.skip(1).len() implies head.skip(1)[i] != '\n' by {
            assert(head.contains(head[i + 1]));
        }
        line_end_of_split(head.skip(1), tail);
    }
}

/// What a poll of the framer yields.
#[derive(Debug, PartialEq)]
pub enum SseStep {
    /// The data of the next event.
    Event(String),
    /// No complete line is buffered: more of the stream is needed.
    NeedMore,
    /// The stream is over.
    Finished,
}

pub enum SseStepView {
    Event(Seq<char>),
    NeedMore,
    Finished,
}

impl View for SseStep {
    type V = SseStepView;

    open spec fn view(&self) -> SseStepView {
        match *self {
            SseStep::Event(data) => SseStepView::Event(data@),
            SseStep::NeedMore => SseStepView::NeedMore,
            SseStep::Finished => SseStepView::Finished,
        }
    }
}

/// What the complete lines of a buffer hold, and what is left of it.
pub struct Scan {
    /// The first event among the complete lines, or the end of the stream
    /// if the done marker comes first. `None` if the lines hold neither.
    pub found: Option<SseStepView>,
    /// What follows the line that was found, or the incomplete last line.
    pub rest: Seq<char>,
}

/// The step that the data of an event line stands for.
pub open spec fn data_step(data: Seq<char>) -> SseStepView {
    if data == "[DONE]"@ {
        SseStepView::Finished
    } else {
        SseStepView::Event(data)
    }
}

/// Goes through the complete lines of a buffer up to the first that holds
/// an event. Lines that are not event lines are dropped.
pub open spec fn scan(buffer: Seq<char>) -> Scan
    decreases buffer.len(),
{
    if !buffer.contains('\n') {
        Scan { found: None, rest: buffer }
    } else {
        proof {
            line_end_is_within(buffer);
        }
        let n = line_end(buffer);
        match sse_data(trimmed(buffer.take(n))) {
            Some(data) => Scan { found: Some(data_step(data)), rest: buffer.skip(n + 1) },
            None => scan(buffer.skip(n + 1)),
        }
    }
}

/// The state of a framer.
pub struct SseFramerView {
    /// What has arrived and was not handed out yet.
    pub buffer: Seq<char>,
    /// Whether all of the stream has arrived.
    pub ended: bool,
    /// Whether the stream is over for the reader.
    pub done: bool,
}

/// The result of a poll: what it yields, and the state after it.
pub struct Polled {
    pub step: SseStepView,
    pub state: SseFramerView,
}

impl SseFramerView {
    pub open spec fn initial() -> SseFramerView {
        SseFramerView { buffer: Seq::empty(), ended: false, done: false }
    }

    /// A poll. The first event of the complete lines is handed out. The
    /// done marker ends the stream. Without either, more is needed, unless
    /// all of the stream has arrived: then the incomplete last line is
    /// handed out if it is an event, and the stream is over.
    pub open spec fn polled(self) -> Polled {
        if self.done {
            Polled { step: SseStepView::Finished, state: self }
        } else {
            let s = scan(self.buffer);
            match s.found {
                Some(SseStepView::Event(data)) => Polled {
                    step: SseStepView::Event(data),
                    state: SseFramerView { buffer: s.rest, ..self },
                },
                Some(_) => Polled {
                    step: SseStepView::Finished,
                    state: SseFramerView { buffer: s.rest, done: true, ..self },
                },
                None => if !self.ended {
                    Polled {
                        step: SseStepView::NeedMore,
                        state: SseFramerView { buffer: s.rest, ..self },
                    }
                } else {
                    match sse_data(trimmed(s.rest)) {
                        Some(data) => if data == "[DONE]"@ {
                            Polled {
                                step: SseStepView::Finished,
                                state: SseFramerView { buffer: Seq::empty(), done: true, ..self },
                            }
                        } else {
                            Polled {
                                step: SseStepView::Event(data),
                                state: SseFramerView { buffer: Seq::empty(), ..self },
                            }
                        },
                        None => Polled {
                            step: SseStepView::Finished,
                            state: SseFramerView { buffer: Seq::empty(), done: true, ..self },
                        },
                    }
                },
            }
        }
    }
}

/// Cuts a stream of text into the data of its events.
///
/// The reader pushes what arrives, says when the stream has ended, and
/// polls for events.
pub struct SseFramer {
    buffer: String,
    ended: bool,
    done: bool,
}

impl View for SseFramer {
    type V = SseFramerView;

    closed spec fn view(&self) -> SseFramerView {
        SseFramerView { buffer: self.buffer@, ended: self.ended, done: self.done }
    }
}

impl SseFramer {
    /// A framer that has seen nothing.
    pub fn new() -> (r: SseFramer)
        ensures
            r@ == SseFramerView::initial(),
    {
        SseFramer { buffer: String::new(), ended: false, done: false }
    }

    /// More of the stream arrived.
    pub fn push(&mut self, text: &str)
        ensures
            final(self)@ == (SseFramerView { buffer: old(self)@.buffer + text@, ..old(self)@ }),
    {
        self.buffer.append(text);
    }

    /// All of the stream has arrived.
    pub fn end(&mut self)
        ensures
            final(self)@ == (SseFramerView { ended: true, ..old(self)@ }),
    {
        self.ended = true;
    }

    /// Polls for the next event.
    pub fn next(&mut self) -> (r: SseStep)
        ensures
            r@ == old(self)@.polled().step,
            final(self)@ == old(self)@.polled().state,
    {
        if self.done {
            return SseStep::Finished;
        }
        loop
            invariant
                !self.done,
                !old(self).done,
                self.ended == old(self).ended,
                scan(self.buffer@) == scan(old(self).buffer@),
            ensures
                !self.done,
                !old(self).done,
                self.ended == old(self).ended,
                scan(self.buffer@) == scan(old(self).buffer@),
                !self.buffer@.contains('\n'),
            decreases self.buffer@.len(),
        {
            let ghost before = self.buffer@;
            let found: Option<String>;
            let rest: String;
            match split_once(self.buffer.as_str(), '\n') {
                Some(split) => {
                    proof {
                        line_end_of_split(split.head@, split.tail@);
                        line_end_is_within(before);
                        assert(before.take(line_end(before)) =~= split.head@);
                        assert(before.skip(line_end(before) + 1) =~= split.tail@);
                    }
                    found = match parse_sse_line(trim(split.head)) {
                        Some(data) => Some(String::from_str(data)),
                        None => None,
                    };
                    rest = String::from_str(split.tail);
                },
                None => {
                    break ;
                },
            }
            self.buffer = rest;
            assert(scan(before) == match sse_data(trimmed(before.take(line_end(before)))) {
                Some(data) => Scan { found: Some(data_step(data)), rest: self.buffer@ },
                None => scan(self.buffer@),
            });
            match found {
                Some(data) => {
                    if is_done_marker(data.as_str()) {
                        self.done = true;
                        return SseStep::Finished;
                    } else {
                        return SseStep::Event(data);
                    }
                },
                None => {},
            }
        }
        if !self.ended {
            return SseStep::NeedMore;
        }
        let last: Option<String> = match parse_sse_line(trim(self.buffer.as_str())) {
            Some(data) => Some(String::from_str(data)),
            None => None,
        };
        self.buffer = String::new();
        match last {
            Some(data) => {
                if !is_done_marker(data.as_str()) {
                    return SseStep::Event(data);
                }
            },
            None => {},
        }
        self.done = true;
        SseStep::Finished
    }
}

} // verus!
