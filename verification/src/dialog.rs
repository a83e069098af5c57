//! The conversation transcript: role-tagged turns in strict append order,
//! and the serializer that renders them into the model's prompt template.

use vstd::prelude::*;

verus! {

/// Who authored a turn. A closed set: every consumer matches exhaustively.
#[derive(Debug, Clone, Copy, PartialEq, Eq, Structural)]
pub enum Role {
    System,
    User,
    Assistant,
    ToolOutput,
}

/// One role-attributed block of content in a conversation. Immutable after
/// creation; the content is kept verbatim, with no trimming or re-encoding.
#[derive(Debug, Clone, PartialEq, Eq)]
pub struct Turn {
    pub role: Role,
    pub content: String,
}

/// The ordered, append-only log of turns for one session thread. The thread
/// identifier is fixed at creation; turns are only ever added at the end.
#[derive(Debug, PartialEq, Eq)]
pub struct Dialog {
    thread: String,
    turns: Vec<Turn>,
}

/// The display form of a role, exactly as it appears inside a turn header.
pub open spec fn role_text(r: Role) -> Seq<char> {
    match r {
        Role::System => "System"@,
        Role::User => "User"@,
        Role::Assistant => "Assistant"@,
        Role::ToolOutput => "ToolOutput"@,
    }
}

/// A start-of-turn header: marker, role name, end marker, blank line.
pub open spec fn header_text(r: Role) -> Seq<char> {
    "<|start_header_id|>"@ + role_text(r) + "<|end_header_id|>\n\n"@
}

/// The serialized form of one stored turn: its header, its content verbatim,
/// and the end-of-turn marker with a newline.
pub open spec fn turn_text(t: Turn) -> Seq<char> {
    header_text(t.role) + t.content@ + "<|eot_id|>\n"@
}

/// The serialized form of a sequence of turns, in order.
pub open spec fn turns_text(ts: Seq<Turn>) -> Seq<char>
    decreases ts.len(),
{
    if ts.len() == 0 {
        Seq::empty()
    } else {
        turns_text(ts.drop_last()) + turn_text(ts.last())
    }
}

/// The full prompt for a dialog: the begin-of-text marker, every stored turn
/// in append order, then a trailing Assistant header that primes the model to
/// continue as the assistant. The primer is never stored as a turn.
pub open spec fn dialog_text(ts: Seq<Turn>) -> Seq<char> {
    "<|begin_of_text|>\n"@ + turns_text(ts) + header_text(Role::Assistant)
}

/// The display form of a role as an executable string slice.
pub fn role_name(r: &Role) -> (s: &'static str)
    ensures
        s@ == role_text(*r),
{
    match r {
        Role::System => "System",
        Role::User => "User",
        Role::Assistant => "Assistant",
        Role::ToolOutput => "ToolOutput",
    }
}

impl Dialog {
    /// The turns recorded so far, in append order.
    pub closed spec fn turns_view(self) -> Seq<Turn> {
        self.turns@
    }

    /// The thread identifier this dialog was created with.
    pub closed spec fn thread_view(self) -> Seq<char> {
        self.thread@
    }

    /// Allocate a new dialog bound to the given thread, with no turns.
    pub fn new(thread: String) -> (d: Dialog)
        ensures
            d.thread_view() == thread@,
            d.turns_view() == Seq::<Turn>::empty(),
    {
        Dialog { thread, turns: Vec::new() }
    }

    /// Add a conversation turn at the end. The dialog grows by exactly one
    /// turn; every earlier turn and the thread identifier are untouched.
    pub fn add(&mut self, role: Role, content: String)
        ensures
            final(self).thread_view() == old(self).thread_view(),
            final(self).turns_view() == old(self).turns_view().push((Turn { role, content })),
    {
        self.turns.push(Turn { role, content });
    }

    /// Read access to the turns in append order. Shared, so no caller can
    /// mutate the log other than through `add`.
    pub fn turns_of(&self) -> (r: &Vec<Turn>)
        ensures
            r@ == self.turns_view(),
    {
        &self.turns
    }

    /// Serialize the dialog into the prompt template.
    pub fn format(&self) -> (r: String)
        ensures
            r@ == dialog_text(self.turns_view()),
    {
        let mut out = String::new();
        out.append("<|begin_of_text|>\n");
        let mut i: usize = 0;
        while i < self.turns.len()
            invariant
                i <= self.turns.len(),
                out@ == "<|begin_of_text|>\n"@ + turns_text(self.turns@.take(i as int)),
            decreases self.turns.len() - i,
        {
            let t = &self.turns[i];
            out.append("<|start_header_id|>");
            out.append(role_name(&t.role));
            out.append("<|end_header_id|>\n\n");
            out.append(t.content.as_str());
            out.append("<|eot_id|>\n");
            proof {
                let ts = self.turns@;
                assert(ts.take(i + 1).drop_last() =~= ts.take(i as int));
                assert(ts.take(i + 1).last() == ts[i as int]);
                assert(out@ =~= "<|begin_of_text|>\n"@ + turns_text(ts.take(i + 1)));
            }
            i = i + 1;
        }
        out.append("<|start_header_id|>");
        out.append("Assistant");
        out.append("<|end_header_id|>\n\n");
        proof {
            assert(self.turns@.take(self.turns@.len() as int) =~= self.turns@);
            assert(out@ =~= dialog_text(self.turns_view()));
        }
        out
    }
}

/// Appending is append-only: a push lengthens the sequence by exactly one,
/// leaves every earlier turn at its index unaltered, and places the new turn
/// at the end. So a run of `add` calls yields exactly those turns, in order.
pub proof fn lemma_append_only(ts: Seq<Turn>, t: Turn)
    ensures
        ts.push(t).len() == ts.len() + 1,
        forall|i: int| 0 <= i < ts.len() ==> ts.push(t)[i] == ts[i],
        ts.push(t)[ts.len() as int] == t,
{
}

/// Serialization is deterministic: the prompt text is a pure function of the
/// turn sequence, so unmodified dialogs always serialize byte-identically.
pub proof fn lemma_format_deterministic(d1: Dialog, d2: Dialog)
    requires
        d1.turns_view() == d2.turns_view(),
    ensures
        dialog_text(d1.turns_view()) == dialog_text(d2.turns_view()),
{
}

/// An empty dialog serializes to the begin-of-text marker immediately
/// followed by the Assistant primer header, with no turn markers between.
pub proof fn lemma_format_empty()
    ensures
        dialog_text(Seq::<Turn>::empty()) == "<|begin_of_text|>\n"@ + header_text(Role::Assistant),
{
    assert(dialog_text(Seq::<Turn>::empty()) =~= "<|begin_of_text|>\n"@
        + header_text(Role::Assistant));
}

/// A single-turn dialog serializes to the begin-of-text marker, a header
/// carrying that role's exact display name, the content verbatim, the
/// end-of-turn marker, and the Assistant primer.
pub proof fn lemma_format_single_turn(t: Turn)
    ensures
        dialog_text(seq![t]) == "<|begin_of_text|>\n"@ + "<|start_header_id|>"@ + role_text(t.role)
            + "<|end_header_id|>\n\n"@ + t.content@ + "<|eot_id|>\n"@ + header_text(Role::Assistant),
{
    let ts = seq![t];
    assert(ts.drop_last() =~= Seq::<Turn>::empty());
    assert(ts.last() == t);
    assert(turns_text(Seq::<Turn>::empty()) == Seq::<char>::empty());
    assert(turns_text(ts) == Seq::<char>::empty() + turn_text(t));
    assert(turns_text(ts) =~= turn_text(t));
    assert(dialog_text(ts) =~= "<|begin_of_text|>\n"@ + "<|start_header_id|>"@ + role_text(t.role)
        + "<|end_header_id|>\n\n"@ + t.content@ + "<|eot_id|>\n"@ + header_text(Role::Assistant));
}

} // verus!
