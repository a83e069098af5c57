//! The interactive line reader's decision core: a state machine that turns a
//! stream of terminal events into one completed input line, while tracking
//! the raw-mode and bracketed-paste flags it holds on the terminal. The
//! caller performs the actual terminal I/O (reading events, echoing, and
//! switching modes) and feeds every event through `on_event`; the machine
//! guarantees that whenever a read ends -- completion or failure -- the
//! terminal flags are back at their pre-call state.

use vstd::prelude::*;

verus! {

/// The terminal events the reader distinguishes. Anything that is not one of
/// the first four shapes is unhandled and fatal to the read: the one policy
/// this design adopts for unrecognized events (a modified Enter included).
#[derive(Debug, PartialEq, Eq)]
pub enum TermEvent {
    /// Enter with no modifiers: completes the entry.
    Enter,
    /// Backspace with no modifiers: removes the last character, if any.
    Backspace,
    /// A character key, under any modifier combination: accumulates.
    Key(char),
    /// A bulk-paste block delivered as one unit: accumulates verbatim.
    Paste(String),
    /// Any other event shape: unhandled, fatal.
    Other,
}

/// The terminal-mode flags the reader acquires and must give back: raw mode
/// (character-at-a-time delivery, no line editing, no automatic echo) and
/// bracketed-paste reporting.
#[derive(Debug, Clone, Copy, PartialEq, Eq, Structural)]
pub struct TermFlags {
    pub raw: bool,
    pub paste: bool,
}

/// Where a read operation stands.
#[derive(Debug, Clone, Copy, PartialEq, Eq, Structural)]
pub enum Phase {
    /// Waiting for further events; the terminal is held raw with paste
    /// reporting on.
    Reading,
    /// Entry completed by Enter; the line is ready to take.
    Done,
    /// The read failed: the event source broke or an event was unhandled.
    Failed,
}

/// What the caller must echo to the display after an accumulating step.
#[derive(Debug, PartialEq, Eq)]
pub enum EchoAction {
    /// Erase the last visible glyph.
    EraseGlyph,
    /// Echo one character as typed.
    Echo(char),
    /// Echo a whole pasted block.
    EchoStr(String),
    /// Nothing to show.
    Silent,
}

/// The outcome of feeding one event to the reader.
#[derive(Debug, PartialEq, Eq)]
pub enum Step {
    /// Still accumulating; perform the echo action.
    Continue(EchoAction),
    /// Entry complete: emit a newline to the display and take the line.
    Complete,
    /// Unhandled event: the read fails.
    Unhandled,
}

/// The buffer after one event: Enter appends the terminating newline,
/// Backspace pops the last character if there is one, a key or a paste
/// appends verbatim, and an unhandled event leaves the buffer alone.
/// Pasted text is not scanned for Enter semantics.
pub open spec fn buffer_after(buf: Seq<char>, ev: TermEvent) -> Seq<char> {
    match ev {
        TermEvent::Enter => buf.push('\n'),
        TermEvent::Backspace => if buf.len() > 0 {
            buf.drop_last()
        } else {
            buf
        },
        TermEvent::Key(c) => buf.push(c),
        TermEvent::Paste(s) => buf + s@,
        TermEvent::Other => buf,
    }
}

/// The phase after one event: Enter completes, an unhandled event fails,
/// everything else keeps reading.
pub open spec fn phase_after(ev: TermEvent) -> Phase {
    match ev {
        TermEvent::Enter => Phase::Done,
        TermEvent::Other => Phase::Failed,
        _ => Phase::Reading,
    }
}

/// The step outcome for one event, including what to echo: a backspace on an
/// empty buffer echoes nothing, on a non-empty buffer it erases one glyph.
pub open spec fn step_after(buf: Seq<char>, ev: TermEvent) -> Step {
    match ev {
        TermEvent::Enter => Step::Complete,
        TermEvent::Backspace => if buf.len() > 0 {
            Step::Continue(EchoAction::EraseGlyph)
        } else {
            Step::Continue(EchoAction::Silent)
        },
        TermEvent::Key(c) => Step::Continue(EchoAction::Echo(c)),
        TermEvent::Paste(s) => Step::Continue(EchoAction::EchoStr(s)),
        TermEvent::Other => Step::Unhandled,
    }
}

/// One in-progress read of a single logical input entry.
#[derive(Debug)]
pub struct LineReader {
    saved: TermFlags,
    flags: TermFlags,
    phase: Phase,
    buffer: String,
}

/// Relies on String::push: appends the given character to the end of the
/// string.
#[verifier::external_body]
fn push_char(s: &mut String, c: char)
    ensures
        final(s)@ == old(s)@.push(c),
{
    s.push(c);
}

/// Relies on String::pop: removes the last character of the string; an empty
/// string stays empty.
#[verifier::external_body]
fn pop_char(s: &mut String)
    ensures
        old(s)@.len() == 0 ==> final(s)@ == old(s)@,
        old(s)@.len() > 0 ==> final(s)@ == old(s)@.drop_last(),
{
    let _ = s.pop();
}

impl LineReader {
    /// The terminal flags recorded at the start of the read, to be restored.
    pub closed spec fn saved_flags(self) -> TermFlags {
        self.saved
    }

    /// The terminal flags the reader currently holds the terminal in.
    pub closed spec fn cur_flags(self) -> TermFlags {
        self.flags
    }

    /// Where the read stands.
    pub closed spec fn phase_of(self) -> Phase {
        self.phase
    }

    /// The characters accumulated so far.
    pub closed spec fn line_view(self) -> Seq<char> {
        self.buffer@
    }

    /// Well-formedness: while reading, the terminal is held raw with paste
    /// reporting on; once the read has ended, the flags are back at their
    /// pre-call state. Established by `start`, preserved by every step.
    pub closed spec fn wf(self) -> bool {
        &&& self.phase == Phase::Reading ==> self.flags == (TermFlags { raw: true, paste: true })
        &&& self.phase != Phase::Reading ==> self.flags == self.saved
    }

    /// Begin a read: remember the pre-call terminal flags, hold the terminal
    /// raw with paste reporting on, and start from an empty buffer. The
    /// caller switches the real terminal alongside and shows the prompt cue.
    pub fn start(prior: TermFlags) -> (r: LineReader)
        ensures
            r.wf(),
            r.saved_flags() == prior,
            r.cur_flags() == (TermFlags { raw: true, paste: true }),
            r.phase_of() == Phase::Reading,
            r.line_view() == Seq::<char>::empty(),
    {
        LineReader {
            saved: prior,
            flags: TermFlags { raw: true, paste: true },
            phase: Phase::Reading,
            buffer: String::new(),
        }
    }

    /// Feed the next terminal event. The buffer, phase, and outcome follow
    /// the transition table (`buffer_after`, `phase_after`, `step_after`);
    /// when the event ends the read, the terminal flags return to their
    /// pre-call state.
    pub fn on_event(&mut self, ev: TermEvent) -> (r: Step)
        requires
            old(self).wf(),
            old(self).phase_of() == Phase::Reading,
        ensures
            final(self).wf(),
            final(self).saved_flags() == old(self).saved_flags(),
            final(self).line_view() == buffer_after(old(self).line_view(), ev),
            final(self).phase_of() == phase_after(ev),
            r == step_after(old(self).line_view(), ev),
            final(self).cur_flags() == if phase_after(ev) == Phase::Reading {
                old(self).cur_flags()
            } else {
                old(self).saved_flags()
            },
    {
        match ev {
            TermEvent::Enter => {
                push_char(&mut self.buffer, '\n');
                self.flags = self.saved;
                self.phase = Phase::Done;
                Step::Complete
            },
            TermEvent::Backspace => {
                if !self.buffer.as_str().is_empty() {
                    pop_char(&mut self.buffer);
                    Step::Continue(EchoAction::EraseGlyph)
                } else {
                    Step::Continue(EchoAction::Silent)
                }
            },
            TermEvent::Key(c) => {
                push_char(&mut self.buffer, c);
                Step::Continue(EchoAction::Echo(c))
            },
            TermEvent::Paste(s) => {
                self.buffer.append(s.as_str());
                Step::Continue(EchoAction::EchoStr(s))
            },
            TermEvent::Other => {
                self.flags = self.saved;
                self.phase = Phase::Failed;
                Step::Unhandled
            },
        }
    }

    /// The event source failed to deliver an event: the read fails, and the
    /// terminal flags return to their pre-call state before the failure
    /// propagates to the caller. The buffer is left as it was.
    pub fn on_read_error(&mut self)
        requires
            old(self).wf(),
            old(self).phase_of() == Phase::Reading,
        ensures
            final(self).wf(),
            final(self).phase_of() == Phase::Failed,
            final(self).saved_flags() == old(self).saved_flags(),
            final(self).cur_flags() == old(self).saved_flags(),
            final(self).line_view() == old(self).line_view(),
    {
        self.flags = self.saved;
        self.phase = Phase::Failed;
    }

    /// Whether the reader is still waiting for events.
    pub fn is_reading(&self) -> (r: bool)
        ensures
            r == (self.phase_of() == Phase::Reading),
    {
        self.phase == Phase::Reading
    }

    /// Whether the entry has completed and the line is ready to take.
    pub fn is_done(&self) -> (r: bool)
        ensures
            r == (self.phase_of() == Phase::Done),
    {
        self.phase == Phase::Done
    }

    /// The characters accumulated so far, read-only.
    pub fn line_so_far(&self) -> (r: &str)
        ensures
            r@ == self.line_view(),
    {
        self.buffer.as_str()
    }

    /// The terminal flags the reader currently holds the terminal in.
    pub fn flags(&self) -> (r: TermFlags)
        ensures
            r == self.cur_flags(),
    {
        self.flags
    }

    /// Take the completed line, including its trailing terminator.
    pub fn take_line(self) -> (r: String)
        requires
            self.phase_of() == Phase::Done,
        ensures
            r@ == self.line_view(),
    {
        let LineReader { buffer, .. } = self;
        buffer
    }
}

/// Raw mode is released on every exit path: a well-formed reader whose read
/// has ended -- normally or through any failure -- holds the terminal flags
/// it was entered with.
pub proof fn lemma_terminal_restored(r: LineReader)
    requires
        r.wf(),
        r.phase_of() != Phase::Reading,
    ensures
        r.cur_flags() == r.saved_flags(),
{
}

} // verus!
