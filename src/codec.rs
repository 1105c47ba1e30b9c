//! Reading envelopes and bare messages back from their wire text.
//!
//! The readers accept exactly the canonical texts that the encoders write:
//! a text is decoded to the value whose encoding it is, and any other text
//! is refused.
use vstd::prelude::*;
use crate::coordination_message::{
    fields_text, has_fields, message_text, variant_name, CoordinationMessage,
    MessageModel,
};
use crate::envelope::{
    encode_envelope, encode_message, envelope_text, target_text, EnvelopeModel, MessageEnvelope,
};
use crate::error::CommunicationError;
use crate::text::{
    escape, escape_char, lemma_escape_cat, chars_equal, chars_of, decimal, lemma_lit_cat, lemma_number_decimal,
    lemma_string_quoted, lit_at, number_at, quoted, scan_number, scan_string, skip_lit,
    string_at, string_of,
};
use crate::workflow_phase::{lemma_phase_named, WorkflowPhase};

verus! {

// ---------------------------------------------------------------------------
// What the readers compute
// ---------------------------------------------------------------------------

/// A JSON string that follows the text `key` at `p`.
pub open spec fn keyed_string(t: Seq<char>, p: int, key: Seq<char>) -> Option<(Seq<char>, int)> {
    if lit_at(t, p, key) {
        string_at(t, p + key.len())
    } else {
        None
    }
}

/// The variant without fields named `name`.
pub open spec fn unit_named(name: Seq<char>) -> Option<MessageModel> {
    if name == "StartImplementation"@ {
        Some(MessageModel::StartImplementation)
    } else if name == "AllTasksComplete"@ {
        Some(MessageModel::AllTasksComplete)
    } else if name == "StartReview"@ {
        Some(MessageModel::StartReview)
    } else {
        None
    }
}

/// Reads the fields of a `StartPlanning` message starting at `p`.
pub open spec fn start_planning_at(t: Seq<char>, p: int) -> Option<(MessageModel, int)> {
    if lit_at(t, p, "\"task_id\":"@) {
        match number_at(t, p + "\"task_id\":"@.len()) {
            Some((id, q)) => if id <= u32::MAX {
                match keyed_string(t, q, ",\"task_description\":"@) {
                    Some((d, e)) => Some(
                        (MessageModel::StartPlanning { task_id: id as u32, task_description: d }, e),
                    ),
                    None => None,
                }
            } else {
                None
            },
            None => None,
        }
    } else {
        None
    }
}

/// Reads the fields of a `PhaseTransition` message starting at `p`.
pub open spec fn phase_transition_at(t: Seq<char>, p: int) -> Option<(MessageModel, int)> {
    match keyed_string(t, p, "\"from\":"@) {
        Some((f, q)) => match WorkflowPhase::named(f) {
            Some(from) => match keyed_string(t, q, ",\"to\":"@) {
                Some((g, e)) => match WorkflowPhase::named(g) {
                    Some(to) => Some((MessageModel::PhaseTransition { from, to }, e)),
                    None => None,
                },
                None => None,
            },
            None => None,
        },
        None => None,
    }
}

/// Reads the fields of a `FileChanged` message starting at `p`.
pub open spec fn file_changed_at(t: Seq<char>, p: int) -> Option<(MessageModel, int)> {
    match keyed_string(t, p, "\"file_path\":"@) {
        Some((f, q)) => match keyed_string(t, q, ",\"event_type\":"@) {
            Some((k, e)) => Some((MessageModel::FileChanged { file_path: f, event_type: k }, e)),
            None => None,
        },
        None => None,
    }
}

/// Reads the fields of the variant named `name` starting at `p`.
pub open spec fn fields_at(t: Seq<char>, name: Seq<char>, p: int) -> Option<(MessageModel, int)> {
    if name == "StartPlanning"@ {
        start_planning_at(t, p)
    } else if name == "PlanReady"@ {
        match keyed_string(t, p, "\"todo_file_path\":"@) {
            Some((s, e)) => Some((MessageModel::PlanReady { todo_file_path: s }, e)),
            None => None,
        }
    } else if name == "TaskCompleted"@ {
        match keyed_string(t, p, "\"task_id\":"@) {
            Some((s, e)) => Some((MessageModel::TaskCompleted { task_id: s }, e)),
            None => None,
        }
    } else if name == "ReviewComplete"@ {
        match keyed_string(t, p, "\"review_file_path\":"@) {
            Some((s, e)) => Some((MessageModel::ReviewComplete { review_file_path: s }, e)),
            None => None,
        }
    } else if name == "PhaseTransition"@ {
        phase_transition_at(t, p)
    } else if name == "FileChanged"@ {
        file_changed_at(t, p)
    } else {
        None
    }
}

/// Reads a message starting at `i`.
pub open spec fn message_at(t: Seq<char>, i: int) -> Option<(MessageModel, int)> {
    if !(0 <= i < t.len()) {
        None
    } else if t[i] == '"' {
        match string_at(t, i) {
            Some((name, e)) => match unit_named(name) {
                Some(m) => Some((m, e)),
                None => None,
            },
            None => None,
        }
    } else if t[i] == '{' {
        match string_at(t, i + 1) {
            Some((name, p)) => if lit_at(t, p, ":{"@) {
                match fields_at(t, name, p + ":{"@.len()) {
                    Some((m, q)) => if lit_at(t, q, "}}"@) {
                        Some((m, q + "}}"@.len()))
                    } else {
                        None
                    },
                    None => None,
                }
            } else {
                None
            },
            None => None,
        }
    } else {
        None
    }
}

/// Reads the target of an envelope starting at `p`: a string or `null`.
pub open spec fn target_at(t: Seq<char>, p: int) -> Option<(Option<Seq<char>>, int)> {
    if 0 <= p < t.len() && t[p] == '"' {
        match string_at(t, p) {
            Some((s, e)) => Some((Some(s), e)),
            None => None,
        }
    } else if lit_at(t, p, "null"@) {
        Some((None, p + "null"@.len()))
    } else {
        None
    }
}

/// Reads a whole text as an envelope.
pub open spec fn envelope_at(t: Seq<char>) -> Option<EnvelopeModel> {
    if !lit_at(t, 0, "{\"target_pane\":"@) {
        None
    } else {
        match target_at(t, "{\"target_pane\":"@.len() as int) {
            None => None,
            Some((tp, p1)) => if !lit_at(t, p1, ",\"coordination_message\":"@) {
                None
            } else {
                match message_at(t, p1 + ",\"coordination_message\":"@.len()) {
                    None => None,
                    Some((m, p2)) => match keyed_string(t, p2, ",\"sender\":"@) {
                        None => None,
                        Some((snd, p3)) => if !lit_at(t, p3, ",\"timestamp\":"@) {
                            None
                        } else {
                            match number_at(t, p3 + ",\"timestamp\":"@.len()) {
                                None => None,
                                Some((ts, p4)) => if ts <= u64::MAX && lit_at(t, p4, "}"@) && p4
                                    + "}"@.len() == t.len() {
                                    Some(
                                        EnvelopeModel {
                                            target_pane: tp,
                                            coordination_message: m,
                                            sender: snd,
                                            timestamp: ts as u64,
                                        },
                                    )
                                } else {
                                    None
                                },
                            }
                        },
                    },
                }
            },
        }
    }
}

/// Reads a whole text as a bare message.
pub open spec fn bare_message_at(t: Seq<char>) -> Option<MessageModel> {
    match message_at(t, 0) {
        Some((m, e)) => if e == t.len() {
            Some(m)
        } else {
            None
        },
        None => None,
    }
}

// ---------------------------------------------------------------------------
// The readers
// ---------------------------------------------------------------------------

fn scan_keyed_string(t: &Vec<char>, p: usize, key: &str) -> (r: Option<(Vec<char>, usize)>)
    ensures
        match keyed_string(t@, p as int, key@) {
            Some((s, e)) => r matches Some((v, e2)) && v@ == s && e2 == e,
            None => r is None,
        },
{
    match skip_lit(t, p, key) {
        Some(q) => scan_string(t, q),
        None => None,
    }
}

fn phase_named(v: &Vec<char>) -> (r: Option<WorkflowPhase>)
    ensures
        r == WorkflowPhase::named(v@),
{
    if chars_equal(v, "Initializing") {
        Some(WorkflowPhase::Initializing)
    } else if chars_equal(v, "PlanningInProgress") {
        Some(WorkflowPhase::PlanningInProgress)
    } else if chars_equal(v, "PlanReady") {
        Some(WorkflowPhase::PlanReady)
    } else if chars_equal(v, "ImplementationInProgress") {
        Some(WorkflowPhase::ImplementationInProgress)
    } else if chars_equal(v, "ImplementationComplete") {
        Some(WorkflowPhase::ImplementationComplete)
    } else if chars_equal(v, "ReviewInProgress") {
        Some(WorkflowPhase::ReviewInProgress)
    } else if chars_equal(v, "ReviewComplete") {
        Some(WorkflowPhase::ReviewComplete)
    } else if chars_equal(v, "Finished") {
        Some(WorkflowPhase::Finished)
    } else {
        None
    }
}

fn scan_start_planning(t: &Vec<char>, p: usize) -> (r: Option<(CoordinationMessage, usize)>)
    ensures
        match start_planning_at(t@, p as int) {
            Some((m, e)) => r matches Some((x, e2)) && x@ == m && e2 == e,
            None => r is None,
        },
{
    let q0 = match skip_lit(t, p, "\"task_id\":") {
        Some(q) => q,
        None => {
            return None;
        },
    };
    let (id, q) = match scan_number(t, q0) {
        Some(x) => x,
        None => {
            return None;
        },
    };
    if id > u32::MAX as u64 {
        return None;
    }
    match scan_keyed_string(t, q, ",\"task_description\":") {
        Some((d, e)) => Some(
            (
                CoordinationMessage::StartPlanning {
                    task_id: id as u32,
                    task_description: string_of(&d),
                },
                e,
            ),
        ),
        None => None,
    }
}

fn scan_phase_transition(t: &Vec<char>, p: usize) -> (r: Option<(CoordinationMessage, usize)>)
    ensures
        match phase_transition_at(t@, p as int) {
            Some((m, e)) => r matches Some((x, e2)) && x@ == m && e2 == e,
            None => r is None,
        },
{
    let (f, q) = match scan_keyed_string(t, p, "\"from\":") {
        Some(x) => x,
        None => {
            return None;
        },
    };
    let from = match phase_named(&f) {
        Some(x) => x,
        None => {
            return None;
        },
    };
    let (g, e) = match scan_keyed_string(t, q, ",\"to\":") {
        Some(x) => x,
        None => {
            return None;
        },
    };
    match phase_named(&g) {
        Some(to) => Some((CoordinationMessage::PhaseTransition { from, to }, e)),
        None => None,
    }
}

fn scan_file_changed(t: &Vec<char>, p: usize) -> (r: Option<(CoordinationMessage, usize)>)
    ensures
        match file_changed_at(t@, p as int) {
            Some((m, e)) => r matches Some((x, e2)) && x@ == m && e2 == e,
            None => r is None,
        },
{
    let (f, q) = match scan_keyed_string(t, p, "\"file_path\":") {
        Some(x) => x,
        None => {
            return None;
        },
    };
    match scan_keyed_string(t, q, ",\"event_type\":") {
        Some((k, e)) => Some(
            (
                CoordinationMessage::FileChanged {
                    file_path: string_of(&f),
                    event_type: string_of(&k),
                },
                e,
            ),
        ),
        None => None,
    }
}

fn scan_fields(t: &Vec<char>, name: &Vec<char>, p: usize) -> (r: Option<
    (CoordinationMessage, usize),
>)
    ensures
        match fields_at(t@, name@, p as int) {
            Some((m, e)) => r matches Some((x, e2)) && x@ == m && e2 == e,
            None => r is None,
        },
{
    if chars_equal(name, "StartPlanning") {
        scan_start_planning(t, p)
    } else if chars_equal(name, "PlanReady") {
        match scan_keyed_string(t, p, "\"todo_file_path\":") {
            Some((s, e)) => Some(
                (CoordinationMessage::PlanReady { todo_file_path: string_of(&s) }, e),
            ),
            None => None,
        }
    } else if chars_equal(name, "TaskCompleted") {
        match scan_keyed_string(t, p, "\"task_id\":") {
            Some((s, e)) => Some((CoordinationMessage::TaskCompleted { task_id: string_of(&s) }, e)),
            None => None,
        }
    } else if chars_equal(name, "ReviewComplete") {
        match scan_keyed_string(t, p, "\"review_file_path\":") {
            Some((s, e)) => Some(
                (CoordinationMessage::ReviewComplete { review_file_path: string_of(&s) }, e),
            ),
            None => None,
        }
    } else if chars_equal(name, "PhaseTransition") {
        scan_phase_transition(t, p)
    } else if chars_equal(name, "FileChanged") {
        scan_file_changed(t, p)
    } else {
        None
    }
}

fn scan_message(t: &Vec<char>, i: usize) -> (r: Option<(CoordinationMessage, usize)>)
    ensures
        match message_at(t@, i as int) {
            Some((m, e)) => r matches Some((x, e2)) && x@ == m && e2 == e,
            None => r is None,
        },
{
    if i >= t.len() {
        return None;
    }
    if t[i] == '"' {
        let (name, e) = match scan_string(t, i) {
            Some(x) => x,
            None => {
                return None;
            },
        };
        if chars_equal(&name, "StartImplementation") {
            Some((CoordinationMessage::StartImplementation, e))
        } else if chars_equal(&name, "AllTasksComplete") {
            Some((CoordinationMessage::AllTasksComplete, e))
        } else if chars_equal(&name, "StartReview") {
            Some((CoordinationMessage::StartReview, e))
        } else {
            None
        }
    } else if t[i] == '{' {
        let (name, p) = match scan_string(t, i + 1) {
            Some(x) => x,
            None => {
                return None;
            },
        };
        let p2 = match skip_lit(t, p, ":{") {
            Some(x) => x,
            None => {
                return None;
            },
        };
        let (m, q) = match scan_fields(t, &name, p2) {
            Some(x) => x,
            None => {
                return None;
            },
        };
        match skip_lit(t, q, "}}") {
            Some(e) => Some((m, e)),
            None => None,
        }
    } else {
        None
    }
}

fn scan_envelope(t: &Vec<char>) -> (r: Option<MessageEnvelope>)
    ensures
        match envelope_at(t@) {
            Some(e) => r matches Some(x) && x@ == e,
            None => r is None,
        },
{
    let p0 = match skip_lit(t, 0, "{\"target_pane\":") {
        Some(x) => x,
        None => {
            return None;
        },
    };
    let (target_pane, p1) = if p0 < t.len() && t[p0] == '"' {
        match scan_string(t, p0) {
            Some((s, e)) => (Some(string_of(&s)), e),
            None => {
                return None;
            },
        }
    } else {
        match skip_lit(t, p0, "null") {
            Some(e) => (None, e),
            None => {
                return None;
            },
        }
    };
    let p1b = match skip_lit(t, p1, ",\"coordination_message\":") {
        Some(x) => x,
        None => {
            return None;
        },
    };
    let (m, p2) = match scan_message(t, p1b) {
        Some(x) => x,
        None => {
            return None;
        },
    };
    let (snd, p3) = match scan_keyed_string(t, p2, ",\"sender\":") {
        Some(x) => x,
        None => {
            return None;
        },
    };
    let p3b = match skip_lit(t, p3, ",\"timestamp\":") {
        Some(x) => x,
        None => {
            return None;
        },
    };
    let (ts, p4) = match scan_number(t, p3b) {
        Some(x) => x,
        None => {
            return None;
        },
    };
    match skip_lit(t, p4, "}") {
        Some(e) => if e == t.len() {
            let r = MessageEnvelope {
                target_pane,
                coordination_message: m,
                sender: string_of(&snd),
                timestamp: ts,
            };
            Some(r)
        } else {
            None
        },
        None => None,
    }
}

// ---------------------------------------------------------------------------
// Every encoding reads back to its value
// ---------------------------------------------------------------------------

proof fn lemma_keyed(t: Seq<char>, p: int, key: Seq<char>, s: Seq<char>)
    requires
        lit_at(t, p, key + quoted(s)),
    ensures
        keyed_string(t, p, key) == Some((s, p + key.len() + quoted(s).len())),
{
    lemma_lit_cat(t, p, key, quoted(s));
    lemma_string_quoted(t, p + key.len(), s);
}

proof fn lemma_char_at(t: Seq<char>, p: int, l: Seq<char>, k: int)
    requires
        lit_at(t, p, l),
        0 <= k < l.len(),
    ensures
        t[p + k] == l[k],
{
    assert(t.subrange(p, p + l.len())[k] == t[p + k]);
}

proof fn lemma_quoted_first(s: Seq<char>)
    ensures
        quoted(s)[0] == '"',
        quoted(s).len() >= 2,
{
}

proof fn lemma_names_distinct()
    ensures
        "StartPlanning"@.len() == 13,
        "PlanReady"@.len() == 9,
        "StartImplementation"@.len() == 19,
        "TaskCompleted"@.len() == 13,
        "AllTasksComplete"@.len() == 16,
        "StartReview"@.len() == 11,
        "ReviewComplete"@.len() == 14,
        "PhaseTransition"@.len() == 15,
        "FileChanged"@.len() == 11,
        "StartPlanning"@ != "TaskCompleted"@,
{
    reveal_strlit("StartPlanning");
    reveal_strlit("PlanReady");
    reveal_strlit("StartImplementation");
    reveal_strlit("TaskCompleted");
    reveal_strlit("AllTasksComplete");
    reveal_strlit("StartReview");
    reveal_strlit("ReviewComplete");
    reveal_strlit("PhaseTransition");
    reveal_strlit("FileChanged");
    assert("StartPlanning"@[0] != "TaskCompleted"@[0]);
}

proof fn lemma_fields(t: Seq<char>, p: int, m: MessageModel)
    requires
        has_fields(m),
        lit_at(t, p, fields_text(m)),
    ensures
        fields_at(t, variant_name(m), p) == Some((m, p + fields_text(m).len())),
{
    lemma_names_distinct();
    match m {
        MessageModel::StartPlanning { task_id, task_description } => {
            let a = "\"task_id\":"@;
            let b = decimal(task_id as nat);
            let c = ",\"task_description\":"@;
            let d = quoted(task_description);
            assert(fields_text(m) =~= (a + b) + (c + d));
            lemma_lit_cat(t, p, a + b, c + d);
            lemma_lit_cat(t, p, a, b);
            lemma_lit_cat(t, p + a.len() + b.len(), c, d);
            reveal_strlit(",\"task_description\":");
            lemma_char_at(t, p + a.len() + b.len(), c, 0);
            lemma_number_decimal(t, p + a.len(), task_id as nat);
            lemma_keyed(t, p + a.len() + b.len(), c, task_description);
        },
        MessageModel::PlanReady { todo_file_path } => {
            lemma_keyed(t, p, "\"todo_file_path\":"@, todo_file_path);
        },
        MessageModel::TaskCompleted { task_id } => {
            lemma_keyed(t, p, "\"task_id\":"@, task_id);
        },
        MessageModel::ReviewComplete { review_file_path } => {
            lemma_keyed(t, p, "\"review_file_path\":"@, review_file_path);
        },
        MessageModel::PhaseTransition { from, to } => {
            let a = "\"from\":"@ + quoted(from.name());
            let c = ",\"to\":"@ + quoted(to.name());
            assert(fields_text(m) =~= a + c);
            lemma_lit_cat(t, p, a, c);
            lemma_keyed(t, p, "\"from\":"@, from.name());
            lemma_keyed(t, p + a.len(), ",\"to\":"@, to.name());
            lemma_phase_named(from);
            lemma_phase_named(to);
        },
        MessageModel::FileChanged { file_path, event_type } => {
            let a = "\"file_path\":"@ + quoted(file_path);
            let c = ",\"event_type\":"@ + quoted(event_type);
            assert(fields_text(m) =~= a + c);
            lemma_lit_cat(t, p, a, c);
            lemma_keyed(t, p, "\"file_path\":"@, file_path);
            lemma_keyed(t, p + a.len(), ",\"event_type\":"@, event_type);
        },
        _ => {},
    }
}

proof fn lemma_message(t: Seq<char>, i: int, m: MessageModel)
    requires
        lit_at(t, i, message_text(m)),
    ensures
        message_at(t, i) == Some((m, i + message_text(m).len())),
{
    lemma_names_distinct();
    let n = variant_name(m);
    lemma_quoted_first(n);
    if has_fields(m) {
        let o = "{"@;
        let c = ":{"@;
        let f = fields_text(m);
        let z = "}}"@;
        reveal_strlit("{");
        reveal_strlit(":{");
        reveal_strlit("}}");
        assert(message_text(m) == (((o + quoted(n)) + c) + f) + z);
        lemma_lit_cat(t, i, ((o + quoted(n)) + c) + f, z);
        lemma_lit_cat(t, i, (o + quoted(n)) + c, f);
        lemma_lit_cat(t, i, o + quoted(n), c);
        lemma_lit_cat(t, i, o, quoted(n));
        lemma_char_at(t, i, o, 0);
        lemma_string_quoted(t, i + 1, n);
        lemma_fields(t, i + 1 + quoted(n).len() + 2, m);
    } else {
        lemma_char_at(t, i, quoted(n), 0);
        lemma_string_quoted(t, i, n);
    }
}

proof fn lemma_whole(t: Seq<char>)
    ensures
        lit_at(t, 0, t),
{
    assert(t.subrange(0, t.len() as int) =~= t);
}

proof fn lemma_parts(
    t: Seq<char>,
    k0: Seq<char>,
    tt: Seq<char>,
    k1: Seq<char>,
    mt: Seq<char>,
    k2: Seq<char>,
    q: Seq<char>,
    k3: Seq<char>,
    d: Seq<char>,
    k4: Seq<char>,
)
    requires
        t == k0 + tt + k1 + mt + k2 + q + k3 + d + k4,
    ensures
        lit_at(t, 0, k0),
        lit_at(t, k0.len() as int, tt),
        lit_at(t, (k0.len() + tt.len()) as int, k1),
        lit_at(t, (k0.len() + tt.len() + k1.len()) as int, mt),
        lit_at(t, (k0.len() + tt.len() + k1.len() + mt.len()) as int, k2 + q),
        lit_at(t, (k0.len() + tt.len() + k1.len() + mt.len() + k2.len() + q.len()) as int, k3),
        lit_at(
            t,
            (k0.len() + tt.len() + k1.len() + mt.len() + k2.len() + q.len() + k3.len()) as int,
            d,
        ),
        lit_at(
            t,
            (k0.len() + tt.len() + k1.len() + mt.len() + k2.len() + q.len() + k3.len()
                + d.len()) as int,
            k4,
        ),
        t.len() == k0.len() + tt.len() + k1.len() + mt.len() + k2.len() + q.len() + k3.len()
            + d.len() + k4.len(),
{
    lemma_whole(t);
    lemma_lit_cat(t, 0, k0 + tt + k1 + mt + k2 + q + k3 + d, k4);
    lemma_lit_cat(t, 0, k0 + tt + k1 + mt + k2 + q + k3, d);
    lemma_lit_cat(t, 0, k0 + tt + k1 + mt + k2 + q, k3);
    assert(k0 + tt + k1 + mt + k2 + q =~= (k0 + tt + k1 + mt) + (k2 + q));
    lemma_lit_cat(t, 0, k0 + tt + k1 + mt, k2 + q);
    lemma_lit_cat(t, 0, k0 + tt + k1, mt);
    lemma_lit_cat(t, 0, k0 + tt, k1);
    lemma_lit_cat(t, 0, k0, tt);
}

proof fn lemma_target(t: Seq<char>, p: int, target: Option<Seq<char>>)
    requires
        lit_at(t, p, target_text(target)),
    ensures
        target_at(t, p) == Some((target, p + target_text(target).len())),
{
    reveal_strlit("null");
    match target {
        Some(s) => {
            lemma_quoted_first(s);
            lemma_char_at(t, p, quoted(s), 0);
            lemma_string_quoted(t, p, s);
        },
        None => {
            lemma_char_at(t, p, "null"@, 0);
        },
    }
}

/// The text of an envelope reads back to that envelope.
proof fn lemma_envelope(e: EnvelopeModel)
    ensures
        envelope_at(envelope_text(e)) == Some(e),
{
    let t = envelope_text(e);
    let k0 = "{\"target_pane\":"@;
    let tt = target_text(e.target_pane);
    let k1 = ",\"coordination_message\":"@;
    let mt = message_text(e.coordination_message);
    let k2 = ",\"sender\":"@;
    let q = quoted(e.sender);
    let k3 = ",\"timestamp\":"@;
    let d = decimal(e.timestamp as nat);
    let k4 = "}"@;
    reveal_strlit("}");
    lemma_parts(t, k0, tt, k1, mt, k2, q, k3, d, k4);
    let p0 = k0.len() as int;
    lemma_target(t, p0, e.target_pane);
    let p1 = p0 + tt.len();
    lemma_message(t, p1 + k1.len(), e.coordination_message);
    let p2 = p1 + k1.len() + mt.len();
    lemma_keyed(t, p2, k2, e.sender);
    let p3 = p2 + k2.len() + q.len();
    let p4 = p3 + k3.len() + d.len();
    lemma_char_at(t, p4, k4, 0);
    lemma_number_decimal(t, p3 + k3.len(), e.timestamp as nat);
}

/// The text of a message reads back to that message.
proof fn lemma_bare_message(m: MessageModel)
    ensures
        bare_message_at(message_text(m)) == Some(m),
{
    lemma_whole(message_text(m));
    lemma_message(message_text(m), 0, m);
}

// ---------------------------------------------------------------------------
// Decoding
// ---------------------------------------------------------------------------

/// Some envelope has `s` as its text.
pub open spec fn is_envelope_text(s: Seq<char>) -> bool {
    exists|e: EnvelopeModel| #[trigger] envelope_text(e) == s
}

/// Some message has `s` as its text.
pub open spec fn is_message_text(s: Seq<char>) -> bool {
    exists|m: MessageModel| #[trigger] message_text(m) == s
}

/// The error with which the envelope reader refuses a text.
pub open spec fn envelope_refusal(err: CommunicationError) -> bool {
    err matches CommunicationError::SerializationError(reason) && reason@
        == "text is not a message envelope"@
}

/// The error with which the bare message reader refuses a text.
pub open spec fn message_refusal(err: CommunicationError) -> bool {
    err matches CommunicationError::SerializationError(reason) && reason@
        == "text is not a coordination message"@
}

/// Reads an envelope from its canonical text; any other text is refused.
pub fn decode_envelope(text: &str) -> (r: Result<MessageEnvelope, CommunicationError>)
    ensures
        match r {
            Ok(e) => envelope_text(e@) == text@,
            Err(err) => !is_envelope_text(text@) && envelope_refusal(err),
        },
{
    let t = chars_of(text);
    let found = scan_envelope(&t);
    if let Some(e) = found {
        let enc = encode_envelope(&e);
        if chars_equal(&t, enc.as_str()) {
            return Ok(e);
        }
    }
    proof {
        assert forall|v: EnvelopeModel| #[trigger] envelope_text(v) != text@ by {
            if envelope_text(v) == text@ {
                lemma_envelope(v);
            }
        }
    }
    Err(CommunicationError::SerializationError(String::from_str("text is not a message envelope")))
}

/// Reads a bare message from its canonical text; any other text is refused.
pub fn decode_message(text: &str) -> (r: Result<CoordinationMessage, CommunicationError>)
    ensures
        match r {
            Ok(m) => message_text(m@) == text@,
            Err(err) => !is_message_text(text@) && message_refusal(err),
        },
{
    let t = chars_of(text);
    let found = match scan_message(&t, 0) {
        Some((m, e)) => if e == t.len() {
            Some(m)
        } else {
            None
        },
        None => None,
    };
    if let Some(m) = found {
        let enc = encode_message(&m);
        if chars_equal(&t, enc.as_str()) {
            return Ok(m);
        }
    }
    proof {
        assert forall|v: MessageModel| #[trigger] message_text(v) != text@ by {
            if message_text(v) == text@ {
                lemma_bare_message(v);
            }
        }
    }
    Err(
        CommunicationError::SerializationError(
            String::from_str("text is not a coordination message"),
        ),
    )
}

// ---------------------------------------------------------------------------
// Laws
// ---------------------------------------------------------------------------

/// Decoding the text of an envelope gives that envelope back: the text is
/// an envelope text, and no other envelope has the same text.
pub proof fn law_envelope_round_trip(e: EnvelopeModel, other: EnvelopeModel)
    ensures
        is_envelope_text(envelope_text(e)),
        envelope_text(other) == envelope_text(e) ==> other == e,
{
    lemma_envelope(e);
    lemma_envelope(other);
}

/// Decoding the text of a bare message gives that message back.
pub proof fn law_message_round_trip(m: MessageModel, other: MessageModel)
    ensures
        is_message_text(message_text(m)),
        message_text(other) == message_text(m) ==> other == m,
{
    lemma_bare_message(m);
    lemma_bare_message(other);
}

proof fn lemma_escape_first(s: Seq<char>)
    requires
        s.len() > 0,
        escape_char(s[0]) == seq![s[0]],
    ensures
        escape(s)[0] == s[0],
{
    let rest = s.subrange(1, s.len() as int);
    assert(s =~= seq![s[0]] + rest);
    lemma_escape_cat(seq![s[0]], rest);
    assert(seq![s[0]].drop_last() =~= Seq::<char>::empty());
    assert(escape(Seq::<char>::empty()) =~= Seq::<char>::empty());
    assert(escape(seq![s[0]]) =~= escape_char(s[0]));
}

proof fn lemma_envelope_head(e: EnvelopeModel)
    ensures
        envelope_text(e).len() > 2,
        envelope_text(e)[0] == '{',
        envelope_text(e)[2] == 't',
{
    let t = envelope_text(e);
    let k0 = "{\"target_pane\":"@;
    reveal_strlit("{\"target_pane\":");
    let rest = target_text(e.target_pane) + ",\"coordination_message\":"@ + message_text(
        e.coordination_message,
    ) + ",\"sender\":"@ + quoted(e.sender) + ",\"timestamp\":"@ + decimal(e.timestamp as nat)
        + "}"@;
    assert(t =~= k0 + rest);
    assert(t[0] == k0[0]);
    assert(t[2] == k0[2]);
}

/// No bare message text is also an envelope text, so a reader that tries
/// the envelope form first never takes a bare message for an envelope.
pub proof fn law_message_is_not_envelope(m: MessageModel)
    ensures
        !is_envelope_text(message_text(m)),
{
    lemma_names_distinct();
    let n = variant_name(m);
    reveal_strlit("StartPlanning");
    reveal_strlit("PlanReady");
    reveal_strlit("TaskCompleted");
    reveal_strlit("ReviewComplete");
    reveal_strlit("PhaseTransition");
    reveal_strlit("FileChanged");
    reveal_strlit("{");
    assert forall|e: EnvelopeModel| #[trigger] envelope_text(e) != message_text(m) by {
        lemma_envelope_head(e);
        if has_fields(m) {
            lemma_escape_first(n);
            let rest = ":{"@ + fields_text(m) + "}}"@;
            assert(message_text(m) =~= "{"@ + (seq!['"'] + escape(n) + seq!['"']) + rest);
            assert(message_text(m)[2] == escape(n)[0]);
        } else {
            assert(message_text(m)[0] == '"');
        }
    }
}

} // verus!
