//! The serial-line monitor: it gathers what the board prints, read by read,
//! until the sentinel shows up in the gathered text or a read comes back
//! empty.
//!
//! The sentinel is looked for in all the text gathered so far, not in the
//! latest read alone, so it is found wherever the reads happen to cut it.
//! There is no limit on the number of reads: a deadline applies to each read
//! on its own, and a read that brings no data ends the watch.

use crate::text::{contains, lemma_occurrence_across_join, occurs_in};
use vstd::prelude::*;
use vstd::string::*;

verus! {

/// Where a watch stands.
#[derive(Clone, Copy, Debug, PartialEq, Eq, Structural)]
pub enum MonitorStatus {
    /// The sentinel has not been seen; more reads are wanted.
    Listening,
    /// The gathered text holds the sentinel.
    Complete,
    /// A read brought no data before the sentinel was seen.
    TimedOut,
}

/// The monitor as contracts see it.
pub struct MonitorState {
    /// The text whose appearance ends the watch.
    pub sentinel: Seq<char>,
    /// All the text gathered so far.
    pub output: Seq<char>,
    /// Where the watch stands.
    pub status: MonitorStatus,
}

impl MonitorState {
    /// A watch for `sentinel` that has gathered nothing yet.
    pub open spec fn fresh(sentinel: Seq<char>) -> MonitorState {
        MonitorState { sentinel, output: Seq::empty(), status: MonitorStatus::Listening }
    }

    /// What holds of every watch: it is complete exactly when it holds text
    /// with the sentinel in it.
    pub open spec fn coherent(self) -> bool {
        if self.status == MonitorStatus::Complete {
            self.output.len() > 0 && occurs_in(self.output, self.sentinel)
        } else {
            self.output.len() > 0 ==> !occurs_in(self.output, self.sentinel)
        }
    }

    /// The watch after one more read that brought `chunk`. An empty chunk
    /// ends it with the text untouched; any other chunk is appended, and the
    /// watch is complete as soon as the text holds the sentinel. A watch that
    /// is over ignores further reads.
    pub open spec fn fed(self, chunk: Seq<char>) -> MonitorState {
        if self.status != MonitorStatus::Listening {
            self
        } else if chunk.len() == 0 {
            MonitorState { status: MonitorStatus::TimedOut, ..self }
        } else {
            let output = self.output + chunk;
            MonitorState {
                output,
                status: if occurs_in(output, self.sentinel) {
                    MonitorStatus::Complete
                } else {
                    MonitorStatus::Listening
                },
                ..self
            }
        }
    }
}

/// Watches a serial stream for a sentinel and keeps everything read.
pub struct Monitor {
    sentinel: String,
    output: String,
    status: MonitorStatus,
}

impl View for Monitor {
    type V = MonitorState;

    closed spec fn view(&self) -> MonitorState {
        MonitorState { sentinel: self.sentinel@, output: self.output@, status: self.status }
    }
}

impl Monitor {
    #[verifier::type_invariant]
    spec fn coherent(self) -> bool {
        self@.coherent()
    }

    /// Starts a watch for `sentinel` with no text gathered.
    pub fn new(sentinel: &str) -> (monitor: Monitor)
        ensures
            monitor@ == MonitorState::fresh(sentinel@),
    {
        Monitor {
            sentinel: String::from_str(sentinel),
            output: String::new(),
            status: MonitorStatus::Listening,
        }
    }

    /// Takes what one read brought and returns the watch as it stands then.
    pub fn feed(self, chunk: &str) -> (next: Monitor)
        ensures
            next@ == self@.fed(chunk@),
    {
        proof {
            use_type_invariant(&self);
        }
        match self.status {
            MonitorStatus::Listening => {
                if chunk.is_empty() {
                    Monitor {
                        sentinel: self.sentinel,
                        output: self.output,
                        status: MonitorStatus::TimedOut,
                    }
                } else {
                    let output = self.output.concat(chunk);
                    let status = if contains(output.as_str(), self.sentinel.as_str()) {
                        MonitorStatus::Complete
                    } else {
                        MonitorStatus::Listening
                    };
                    Monitor { sentinel: self.sentinel, output, status }
                }
            },
            _ => self,
        }
    }

    /// Returns where the watch stands. It is complete exactly when the text
    /// gathered holds the sentinel.
    pub fn status(&self) -> (status: MonitorStatus)
        ensures
            status == self@.status,
            self@.coherent(),
    {
        proof {
            use_type_invariant(self);
        }
        self.status
    }

    /// Returns the text gathered so far.
    pub fn output(&self) -> (text: &str)
        ensures
            text@ == self@.output,
    {
        self.output.as_str()
    }

    /// Ends the watch and hands over the text gathered.
    pub fn into_output(self) -> (text: String)
        ensures
            text@ == self@.output,
    {
        self.output
    }
}

/// A read keeps a watch coherent.
pub proof fn lemma_fed_stays_coherent(state: MonitorState, chunk: Seq<char>)
    requires
        state.coherent(),
    ensures
        state.fed(chunk).coherent(),
        state.fed(chunk).sentinel == state.sentinel,
{
}

/// The watch for `sentinel` after the reads `reads`, in order.
pub open spec fn watch(sentinel: Seq<char>, reads: Seq<Seq<char>>) -> MonitorState
    decreases reads.len(),
{
    if reads.len() == 0 {
        MonitorState::fresh(sentinel)
    } else {
        watch(sentinel, reads.drop_last()).fed(reads.last())
    }
}

/// How many of `reads` went into the gathered text: the reads before the
/// watch ended, but for the empty read that ended it.
pub open spec fn gathered(sentinel: Seq<char>, reads: Seq<Seq<char>>) -> nat
    decreases reads.len(),
{
    if reads.len() == 0 {
        0
    } else if watch(sentinel, reads.drop_last()).status == MonitorStatus::Listening
        && reads.last().len() > 0 {
        gathered(sentinel, reads.drop_last()) + 1
    } else {
        gathered(sentinel, reads.drop_last())
    }
}

/// The text of the first `count` reads, joined.
pub open spec fn text_of(reads: Seq<Seq<char>>, count: int) -> Seq<char> {
    reads.take(count).flatten()
}

/// None of the first `count` reads is empty.
pub open spec fn all_brought_data(reads: Seq<Seq<char>>, count: int) -> bool {
    forall|j: int| 0 <= j < count ==> (#[trigger] reads[j]).len() > 0
}

/// The sentinel was seen by the read numbered `count`: that read and all
/// before it brought data, and their joined text holds the sentinel.
pub open spec fn seen_by(sentinel: Seq<char>, reads: Seq<Seq<char>>, count: int) -> bool {
    &&& 1 <= count <= reads.len()
    &&& all_brought_data(reads, count)
    &&& occurs_in(text_of(reads, count), sentinel)
}

/// What holds of every watch: its text is the first reads joined, each of
/// which brought data and none of which but the last completed the text; and
/// its status says why no more was gathered.
pub proof fn lemma_watch_gathers_reads(sentinel: Seq<char>, reads: Seq<Seq<char>>)
    ensures
        ({
            let state = watch(sentinel, reads);
            let count: int = gathered(sentinel, reads) as int;
            &&& state.sentinel == sentinel
            &&& 0 <= count <= reads.len()
            &&& state.output == text_of(reads, count)
            &&& all_brought_data(reads, count)
            &&& forall|j: int| 1 <= j < count ==> !occurs_in(#[trigger] text_of(reads, j), sentinel)
            &&& state.status == MonitorStatus::Listening ==> count == reads.len() && (count >= 1
                ==> !occurs_in(state.output, sentinel))
            &&& state.status == MonitorStatus::Complete ==> count >= 1 && occurs_in(
                state.output,
                sentinel,
            )
            &&& state.status == MonitorStatus::TimedOut ==> count < reads.len()
                && reads[count].len() == 0 && (count >= 1 ==> !occurs_in(state.output, sentinel))
        }),
    decreases reads.len(),
{
    if reads.len() == 0 {
        assert(reads.take(0).flatten() =~= Seq::<char>::empty());
    } else {
        let earlier = reads.drop_last();
        lemma_watch_gathers_reads(sentinel, earlier);
        let before = watch(sentinel, earlier);
        let seen: int = gathered(sentinel, earlier) as int;
        let count: int = gathered(sentinel, reads) as int;
        assert forall|j: int| 0 <= j <= earlier.len() implies #[trigger] text_of(reads, j)
            == text_of(earlier, j) by {
            assert(reads.take(j) =~= earlier.take(j));
        }
        assert forall|j: int| 0 <= j < earlier.len() implies #[trigger] reads[j] == earlier[j] by {}
        if before.status == MonitorStatus::Listening && reads.last().len() > 0 {
            assert(earlier.take(seen) =~= earlier);
            assert(reads.take(count) =~= earlier.push(reads.last()));
            earlier.lemma_flatten_push(reads.last());
        }
    }
}

/// The watch ends complete exactly when the sentinel stands in the joined
/// text of the first reads, up to some read, with no empty read among them.
/// Since the result is written out exactly when the watch is complete, it is
/// written if and only if the sentinel was seen before a read brought no
/// data.
pub proof fn law_complete_iff_sentinel_seen(sentinel: Seq<char>, reads: Seq<Seq<char>>)
    ensures
        watch(sentinel, reads).status == MonitorStatus::Complete <==> exists|count: int|
            seen_by(sentinel, reads, count),
    decreases reads.len(),
{
    lemma_watch_gathers_reads(sentinel, reads);
    let state = watch(sentinel, reads);
    if state.status == MonitorStatus::Complete {
        assert(seen_by(sentinel, reads, gathered(sentinel, reads) as int));
    }
    if exists|count: int| seen_by(sentinel, reads, count) {
        let count: int = choose|count: int| seen_by(sentinel, reads, count);
        let earlier = reads.drop_last();
        lemma_watch_gathers_reads(sentinel, earlier);
        let before = watch(sentinel, earlier);
        if count < reads.len() {
            assert(reads.take(count) =~= earlier.take(count));
            assert forall|j: int| 0 <= j < count implies (#[trigger] earlier[j]).len() > 0 by {
                assert(earlier[j] == reads[j]);
            }
            assert(seen_by(sentinel, earlier, count));
            law_complete_iff_sentinel_seen(sentinel, earlier);
        } else {
            assert(reads.take(count) =~= reads);
            assert(reads =~= earlier.push(reads.last()));
            earlier.lemma_flatten_push(reads.last());
            if before.status == MonitorStatus::TimedOut {
                let stalled: int = gathered(sentinel, earlier) as int;
                assert(reads[stalled] == earlier[stalled]);
            } else if before.status == MonitorStatus::Listening {
                assert(earlier.take(earlier.len() as int) =~= earlier);
            }
        }
    }
}

/// The text of a complete watch is the joined text of the reads up to the
/// first one by which the sentinel was seen: nothing read later is in it, and
/// nothing read before is missing.
pub proof fn law_complete_text_ends_at_first_sighting(sentinel: Seq<char>, reads: Seq<Seq<char>>)
    requires
        watch(sentinel, reads).status == MonitorStatus::Complete,
    ensures
        ({
            let count: int = gathered(sentinel, reads) as int;
            &&& seen_by(sentinel, reads, count)
            &&& forall|j: int| 1 <= j < count ==> !#[trigger] seen_by(sentinel, reads, j)
            &&& watch(sentinel, reads).output == text_of(reads, count)
        }),
{
    lemma_watch_gathers_reads(sentinel, reads);
}

/// A watch that timed out holds exactly the joined text of the reads before
/// the empty one, each of which brought data: nothing is lost and nothing is
/// cut.
pub proof fn law_timeout_keeps_text(sentinel: Seq<char>, reads: Seq<Seq<char>>)
    requires
        watch(sentinel, reads).status == MonitorStatus::TimedOut,
    ensures
        ({
            let count: int = gathered(sentinel, reads) as int;
            &&& 0 <= count < reads.len()
            &&& reads[count].len() == 0
            &&& all_brought_data(reads, count)
            &&& watch(sentinel, reads).output == text_of(reads, count)
        }),
{
    lemma_watch_gathers_reads(sentinel, reads);
}

/// No number of reads ends a watch by itself: as long as every read brings
/// data and the joined text does not hold the sentinel, the watch listens on
/// and has gathered all of it.
pub proof fn law_watch_has_no_read_limit(sentinel: Seq<char>, reads: Seq<Seq<char>>)
    requires
        all_brought_data(reads, reads.len() as int),
        forall|count: int|
            1 <= count <= reads.len() ==> !occurs_in(#[trigger] text_of(reads, count), sentinel),
    ensures
        watch(sentinel, reads).status == MonitorStatus::Listening,
        watch(sentinel, reads).output == text_of(reads, reads.len() as int),
{
    lemma_watch_gathers_reads(sentinel, reads);
}

/// A sentinel that two reads in a row cut in two is still seen: if one read
/// ends with the head of the sentinel and the next begins with its tail, the
/// watch is complete after the second, whatever was gathered before.
pub proof fn law_split_sentinel_is_seen(
    state: MonitorState,
    first: Seq<char>,
    second: Seq<char>,
    head: Seq<char>,
    tail: Seq<char>,
)
    requires
        state.status == MonitorStatus::Listening,
        state.sentinel == head + tail,
        first.len() > 0,
        second.len() > 0,
        head.is_suffix_of(first),
        tail.is_prefix_of(second),
    ensures
        state.fed(first).fed(second).status == MonitorStatus::Complete,
{
    lemma_occurrence_across_join(state.output, first, second, head, tail);
}

} // verus!
