//! One progress bar per sequence. This module keeps the state of each bar; drawing them is
//! left to the caller, who reads the bars after each event.

use crate::log::LogLevel;
use crate::step::event::{EventData, NewSequenceEvent};
use crate::step::msg_handler::EventHandler;
use crate::step::StepDetails;
use crate::text::join2;
use vstd::prelude::*;
use vstd::string::*;

verus! {

/// The decimal digits of a number.
pub open spec fn decimal(n: nat) -> Seq<char>
    decreases n,
{
    let d = (('0' as u8) + (n % 10) as u8) as char;
    if n < 10 {
        seq![d]
    } else {
        decimal(n / 10).push(d)
    }
}

/// Relies on usize's Display (through to_string): a number in decimal digits.
#[verifier::external_body]
fn decimal_text(n: usize) -> (r: String)
    ensures
        r@ == decimal(n as nat),
{
    n.to_string()
}

/// The state of the progress bar of one sequence.
pub struct BarState {
    /// The sequence the bar belongs to.
    pub name: String,
    /// The number of steps the bar counts to.
    pub length: usize,
    /// The number of steps done.
    pub position: usize,
    /// The text shown beside the bar.
    pub message: String,
    /// Whether the sequence has ended.
    pub finished: bool,
}

/// The index of the bar of sequence `name`, if there is one.
pub open spec fn bar_index(bars: Seq<BarState>, name: Seq<char>) -> Option<int> {
    if exists|i: int| is_first_bar(bars, name, i) {
        Some(choose|i: int| is_first_bar(bars, name, i))
    } else {
        None
    }
}

/// `i` is the first bar of sequence `name`.
pub open spec fn is_first_bar(bars: Seq<BarState>, name: Seq<char>, i: int) -> bool {
    &&& 0 <= i < bars.len()
    &&& bars[i].name@ == name
    &&& forall|j: int| 0 <= j < i ==> #[trigger] bars[j].name@ != name
}

/// `after` is `before` with the bar of `name`, if any, changed by `f`.
pub open spec fn bar_changed(
    before: Seq<BarState>,
    after: Seq<BarState>,
    name: Seq<char>,
    f: spec_fn(BarState) -> BarState,
) -> bool {
    match bar_index(before, name) {
        Some(i) => after == before.update(i, f(before[i])),
        None => after == before,
    }
}

/// The bar of `name` is made in `after` unless `before` has one: with the announced length,
/// nothing done, no text, not finished. Nothing changes at level `Silent`.
pub open spec fn opened(before: ProgressBarsEventHandler, details: NewSequenceEvent, after: ProgressBarsEventHandler) -> bool {
    &&& after.msg_level == before.msg_level
    &&& before.msg_level is Silent || bar_index(before.progress_bars@, details.sequence_name@) is Some
        ==> after.progress_bars@ == before.progress_bars@
    &&& !(before.msg_level is Silent) && bar_index(before.progress_bars@, details.sequence_name@) is None
        ==> {
        &&& after.progress_bars@.len() == before.progress_bars@.len() + 1
        &&& after.progress_bars@.drop_last() == before.progress_bars@
        &&& after.progress_bars@.last().name == details.sequence_name
        &&& after.progress_bars@.last().length == details.length
        &&& after.progress_bars@.last().position == 0
        &&& after.progress_bars@.last().message@.len() == 0
        &&& !after.progress_bars@.last().finished
    }
}

/// The bar of `name`, if any, is changed by `f` in `after`. Nothing changes at level
/// `Silent`.
pub open spec fn changed(
    before: ProgressBarsEventHandler,
    name: Seq<char>,
    f: spec_fn(BarState) -> BarState,
    after: ProgressBarsEventHandler,
) -> bool {
    &&& after.msg_level == before.msg_level
    &&& before.msg_level is Silent ==> after.progress_bars@ == before.progress_bars@
    &&& !(before.msg_level is Silent) ==> bar_changed(before.progress_bars@, after.progress_bars@, name, f)
}

/// The bar of `name`, if any, shows the text `message` in `after`, and counts one more step
/// done if `advance`; nothing else changes. Nothing changes at level `Silent`.
pub open spec fn relabeled(
    before: ProgressBarsEventHandler,
    name: Seq<char>,
    message: Seq<char>,
    advance: bool,
    after: ProgressBarsEventHandler,
) -> bool {
    let (b, a) = (before.progress_bars@, after.progress_bars@);
    &&& after.msg_level == before.msg_level
    &&& before.msg_level is Silent ==> a == b
    &&& !(before.msg_level is Silent) ==> match bar_index(b, name) {
        Some(i) => {
            &&& a.len() == b.len()
            &&& forall|j: int| 0 <= j < b.len() && j != i ==> #[trigger] a[j] == b[j]
            &&& a[i].name == b[i].name
            &&& a[i].length == b[i].length
            &&& a[i].finished == b[i].finished
            &&& a[i].message@ == message
            &&& a[i].position == if advance {
                saturate_inc(b[i].position)
            } else {
                b[i].position
            }
        },
        None => a == b,
    }
}

/// The number of steps done on the bar of `name`, 0 where there is none.
pub open spec fn position_of(bars: Seq<BarState>, name: Seq<char>) -> nat {
    match bar_index(bars, name) {
        Some(i) => bars[i].position as nat,
        None => 0,
    }
}

/// The text shown when a step is skipped: its title, the event's message, and the number
/// of steps done before it.
pub open spec fn skip_text(bars: Seq<BarState>, step: StepDetails, data: EventData) -> Seq<char> {
    step.title@ + ": "@ + data.msg@ + " "@ + decimal(position_of(bars, data.sequence_name@))
}

/// Handler that keeps one progress bar per sequence. Nothing is kept at level `Silent`.
pub struct ProgressBarsEventHandler {
    pub msg_level: LogLevel,
    pub progress_bars: Vec<BarState>,
}

impl ProgressBarsEventHandler {
    pub fn new(msg_level: LogLevel) -> (r: ProgressBarsEventHandler)
        ensures
            r.msg_level == msg_level,
            r.progress_bars@.len() == 0,
    {
        ProgressBarsEventHandler { msg_level, progress_bars: Vec::new() }
    }

    /// Finds the bar of a sequence.
    pub fn find(&self, name: &str) -> (r: Option<usize>)
        ensures
            match r {
                Some(i) => bar_index(self.progress_bars@, name@) == Some(i as int),
                None => bar_index(self.progress_bars@, name@) is None,
            },
    {
        let wanted = name.to_owned();
        let mut i: usize = 0;
        while i < self.progress_bars.len()
            invariant
                i <= self.progress_bars@.len(),
                wanted@ == name@,
                forall|j: int| 0 <= j < i ==> #[trigger] self.progress_bars@[j].name@ != name@,
            decreases self.progress_bars@.len() - i,
        {
            if self.progress_bars[i].name == wanted {
                assert(is_first_bar(self.progress_bars@, name@, i as int));
                proof {
                    let k = bar_index(self.progress_bars@, name@)->Some_0;
                    assert(is_first_bar(self.progress_bars@, name@, k));
                    if k < i {
                    } else if k > i {
                        assert(self.progress_bars@[i as int].name@ == name@);
                    }
                }
                return Some(i);
            }
            i = i + 1;
        }
        assert forall|k: int| !is_first_bar(self.progress_bars@, name@, k) by {
            if 0 <= k < self.progress_bars@.len() {
                assert(self.progress_bars@[k].name@ != name@);
            }
        }
        None
    }

    /// Creates the bar of a sequence with its length, unless the sequence has one already:
    /// a sequence is announced once but entered again for each of its batches.
    pub fn open_bar(&mut self, details: NewSequenceEvent)
        ensures
            opened(*old(self), details, *final(self)),
    {
        if self.msg_level == LogLevel::Silent {
            return;
        }
        if self.find(details.sequence_name.as_str()).is_some() {
            return;
        }
        let ghost before = self.progress_bars@;
        let bar = BarState {
            name: details.sequence_name,
            length: details.length,
            position: 0,
            message: String::new(),
            finished: false,
        };
        self.progress_bars.push(bar);
        assert(self.progress_bars@.drop_last() =~= before);
    }

    /// Puts `bar` in place of the bar at `i`.
    fn change_bar(&mut self, i: usize, bar: BarState)
        requires
            i < old(self).progress_bars@.len(),
        ensures
            final(self).msg_level == old(self).msg_level,
            final(self).progress_bars@ == old(self).progress_bars@.update(i as int, bar),
    {
        self.progress_bars.set(i, bar);
    }

    /// Marks the bar of an ended sequence as finished.
    pub fn finish_bar(&mut self, sequence_name: &str)
        ensures
            changed(*old(self), sequence_name@, |b: BarState| BarState { finished: true, ..b }, *final(self)),
    {
        if self.msg_level == LogLevel::Silent {
            return;
        }
        match self.find(sequence_name) {
            Some(i) => {
                let old_bar = &self.progress_bars[i];
                let bar = BarState {
                    name: old_bar.name.clone(),
                    length: old_bar.length,
                    position: old_bar.position,
                    message: old_bar.message.clone(),
                    finished: true,
                };
                self.change_bar(i, bar);
            },
            None => {},
        }
    }

    /// Shows a text beside the bar of a sequence and, if `advance`, counts one more step
    /// done.
    pub fn label_bar(&mut self, sequence_name: &str, message: String, advance: bool)
        ensures
            relabeled(*old(self), sequence_name@, message@, advance, *final(self)),
    {
        if self.msg_level == LogLevel::Silent {
            return;
        }
        match self.find(sequence_name) {
            Some(i) => {
                let old_bar = &self.progress_bars[i];
                let position = if advance {
                    old_bar.position.saturating_add(1)
                } else {
                    old_bar.position
                };
                let bar = BarState {
                    name: old_bar.name.clone(),
                    length: old_bar.length,
                    position,
                    message,
                    finished: old_bar.finished,
                };
                self.change_bar(i, bar);
            },
            None => {},
        }
    }

    /// Counts one more step done on the bar of a sequence.
    pub fn advance_bar(&mut self, sequence_name: &str)
        ensures
            changed(
                *old(self),
                sequence_name@,
                |b: BarState| BarState { position: saturate_inc(b.position), ..b },
                *final(self),
            ),
    {
        if self.msg_level == LogLevel::Silent {
            return;
        }
        match self.find(sequence_name) {
            Some(i) => {
                let old_bar = &self.progress_bars[i];
                let bar = BarState {
                    name: old_bar.name.clone(),
                    length: old_bar.length,
                    position: old_bar.position.saturating_add(1),
                    message: old_bar.message.clone(),
                    finished: old_bar.finished,
                };
                self.change_bar(i, bar);
            },
            None => {},
        }
    }

    /// The text shown when a step is skipped.
    pub fn skip_label(&self, step: &StepDetails, data: &EventData) -> (r: String)
        ensures
            r@ == skip_text(self.progress_bars@, *step, *data),
    {
        let position = match self.find(data.sequence_name.as_str()) {
            Some(i) => self.progress_bars[i].position,
            None => 0,
        };
        let mut r = join2(step.title.as_str(), ": ");
        r.append(data.msg.as_str());
        r.append(" ");
        let digits = decimal_text(position);
        r.append(digits.as_str());
        r
    }
}

/// One more, the largest `usize` staying as it is.
pub open spec fn saturate_inc(n: usize) -> usize {
    if n < usize::MAX {
        (n + 1) as usize
    } else {
        n
    }
}

impl EventHandler for ProgressBarsEventHandler {
    open spec fn sequence_started(before: Self, details: NewSequenceEvent, after: Self) -> bool {
        opened(before, details, after)
    }

    open spec fn sequence_ended(before: Self, details: EventData, after: Self) -> bool {
        changed(before, details.sequence_name@, |b: BarState| BarState { finished: true, ..b }, after)
    }

    open spec fn step_started(before: Self, step: StepDetails, details: EventData, after: Self) -> bool {
        relabeled(before, details.sequence_name@, step.title@, false, after)
    }

    open spec fn step_was_skipped(before: Self, step: StepDetails, details: EventData, after: Self) -> bool {
        relabeled(
            before,
            details.sequence_name@,
            skip_text(before.progress_bars@, step, details),
            true,
            after,
        )
    }

    open spec fn step_ended(before: Self, step: StepDetails, details: EventData, after: Self) -> bool {
        changed(
            before,
            details.sequence_name@,
            |b: BarState| BarState { position: saturate_inc(b.position), ..b },
            after,
        )
    }

    open spec fn step_failed(before: Self, step: StepDetails, details: EventData, after: Self) -> bool {
        after == before
    }

    fn sequence_start(&mut self, details: NewSequenceEvent) {
        self.open_bar(details);
    }

    fn sequence_end(&mut self, details: &EventData) {
        self.finish_bar(details.sequence_name.as_str());
    }

    fn step_start(&mut self, step: StepDetails, data: &EventData) {
        self.label_bar(data.sequence_name.as_str(), step.title, false);
    }

    fn step_skipped(&mut self, step: StepDetails, data: &EventData) {
        let label = self.skip_label(&step, data);
        self.label_bar(data.sequence_name.as_str(), label, true);
    }

    fn step_end(&mut self, step: StepDetails, data: &EventData) {
        self.advance_bar(data.sequence_name.as_str());
    }

    fn step_error(&mut self, step: StepDetails, data: &EventData) {
    }
}

} // verus!
