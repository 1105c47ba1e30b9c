//! The closed set of coordination messages and their canonical wire text.
use vstd::prelude::*;
use crate::text::{decimal, push_decimal, push_quoted, quoted};
use crate::workflow_phase::WorkflowPhase;

verus! {

/// A coordination message exchanged between the participants.
#[derive(Debug, Clone)]
pub enum CoordinationMessage {
    /// The command line starts the workflow with the task's details.
    StartPlanning { task_id: u32, task_description: String },
    /// Planning is done; the task list is at the given path.
    PlanReady { todo_file_path: String },
    StartImplementation,
    TaskCompleted { task_id: String },
    AllTasksComplete,
    StartReview,
    /// Review is done; the review is at the given path.
    ReviewComplete { review_file_path: String },
    /// Records a claimed phase change.
    PhaseTransition { from: WorkflowPhase, to: WorkflowPhase },
    /// A watched file changed.
    FileChanged { file_path: String, event_type: String },
}

/// Mathematical value of a [`CoordinationMessage`].
pub enum MessageModel {
    StartPlanning { task_id: u32, task_description: Seq<char> },
    PlanReady { todo_file_path: Seq<char> },
    StartImplementation,
    TaskCompleted { task_id: Seq<char> },
    AllTasksComplete,
    StartReview,
    ReviewComplete { review_file_path: Seq<char> },
    PhaseTransition { from: WorkflowPhase, to: WorkflowPhase },
    FileChanged { file_path: Seq<char>, event_type: Seq<char> },
}

impl View for CoordinationMessage {
    type V = MessageModel;

    open spec fn view(&self) -> MessageModel {
        match self {
            CoordinationMessage::StartPlanning { task_id, task_description } => {
                MessageModel::StartPlanning {
                    task_id: *task_id,
                    task_description: task_description@,
                }
            },
            CoordinationMessage::PlanReady { todo_file_path } => MessageModel::PlanReady {
                todo_file_path: todo_file_path@,
            },
            CoordinationMessage::StartImplementation => MessageModel::StartImplementation,
            CoordinationMessage::TaskCompleted { task_id } => MessageModel::TaskCompleted {
                task_id: task_id@,
            },
            CoordinationMessage::AllTasksComplete => MessageModel::AllTasksComplete,
            CoordinationMessage::StartReview => MessageModel::StartReview,
            CoordinationMessage::ReviewComplete { review_file_path } => {
                MessageModel::ReviewComplete { review_file_path: review_file_path@ }
            },
            CoordinationMessage::PhaseTransition { from, to } => MessageModel::PhaseTransition {
                from: *from,
                to: *to,
            },
            CoordinationMessage::FileChanged { file_path, event_type } => {
                MessageModel::FileChanged { file_path: file_path@, event_type: event_type@ }
            },
        }
    }
}

/// A variant with fields: `{"<name>":{<fields>}}`.
pub open spec fn tagged(name: Seq<char>, fields: Seq<char>) -> Seq<char> {
    "{"@ + quoted(name) + ":{"@ + fields + "}}"@
}

/// The fields of a variant that has some, as they stand between its braces.
pub open spec fn fields_text(m: MessageModel) -> Seq<char> {
    match m {
        MessageModel::StartPlanning { task_id, task_description } => "\"task_id\":"@ + decimal(
            task_id as nat,
        ) + ",\"task_description\":"@ + quoted(task_description),
        MessageModel::PlanReady { todo_file_path } => "\"todo_file_path\":"@ + quoted(
            todo_file_path,
        ),
        MessageModel::TaskCompleted { task_id } => "\"task_id\":"@ + quoted(task_id),
        MessageModel::ReviewComplete { review_file_path } => "\"review_file_path\":"@ + quoted(
            review_file_path,
        ),
        MessageModel::PhaseTransition { from, to } => "\"from\":"@ + quoted(from.name())
            + ",\"to\":"@ + quoted(to.name()),
        MessageModel::FileChanged { file_path, event_type } => "\"file_path\":"@ + quoted(
            file_path,
        ) + ",\"event_type\":"@ + quoted(event_type),
        _ => Seq::empty(),
    }
}

/// The variant's name.
pub open spec fn variant_name(m: MessageModel) -> Seq<char> {
    match m {
        MessageModel::StartPlanning { .. } => "StartPlanning"@,
        MessageModel::PlanReady { .. } => "PlanReady"@,
        MessageModel::StartImplementation => "StartImplementation"@,
        MessageModel::TaskCompleted { .. } => "TaskCompleted"@,
        MessageModel::AllTasksComplete => "AllTasksComplete"@,
        MessageModel::StartReview => "StartReview"@,
        MessageModel::ReviewComplete { .. } => "ReviewComplete"@,
        MessageModel::PhaseTransition { .. } => "PhaseTransition"@,
        MessageModel::FileChanged { .. } => "FileChanged"@,
    }
}

pub open spec fn has_fields(m: MessageModel) -> bool {
    !(m is StartImplementation || m is AllTasksComplete || m is StartReview)
}

/// Canonical wire text of a message: a variant without fields is its quoted
/// name, any other variant is an object keyed by its name.
pub open spec fn message_text(m: MessageModel) -> Seq<char> {
    if has_fields(m) {
        tagged(variant_name(m), fields_text(m))
    } else {
        quoted(variant_name(m))
    }
}

/// Appends the canonical wire text of `m`.
pub fn push_message(out: &mut String, m: &CoordinationMessage)
    ensures
        final(out)@ == old(out)@ + message_text(m@),
{
    let ghost start = out@;
    match m {
        CoordinationMessage::StartImplementation => {
            push_quoted(out, "StartImplementation");
            assert(out@ =~= start + message_text(m@));
        },
        CoordinationMessage::AllTasksComplete => {
            push_quoted(out, "AllTasksComplete");
            assert(out@ =~= start + message_text(m@));
        },
        CoordinationMessage::StartReview => {
            push_quoted(out, "StartReview");
            assert(out@ =~= start + message_text(m@));
        },
        CoordinationMessage::StartPlanning { task_id, task_description } => {
            out.append("{");
            push_quoted(out, "StartPlanning");
            out.append(":{");
            out.append("\"task_id\":");
            push_decimal(out, *task_id as u64);
            out.append(",\"task_description\":");
            push_quoted(out, task_description.as_str());
            out.append("}}");
            assert(out@ =~= start + message_text(m@));
        },
        CoordinationMessage::PlanReady { todo_file_path } => {
            out.append("{");
            push_quoted(out, "PlanReady");
            out.append(":{");
            out.append("\"todo_file_path\":");
            push_quoted(out, todo_file_path.as_str());
            out.append("}}");
            assert(out@ =~= start + message_text(m@));
        },
        CoordinationMessage::TaskCompleted { task_id } => {
            out.append("{");
            push_quoted(out, "TaskCompleted");
            out.append(":{");
            out.append("\"task_id\":");
            push_quoted(out, task_id.as_str());
            out.append("}}");
            assert(out@ =~= start + message_text(m@));
        },
        CoordinationMessage::ReviewComplete { review_file_path } => {
            out.append("{");
            push_quoted(out, "ReviewComplete");
            out.append(":{");
            out.append("\"review_file_path\":");
            push_quoted(out, review_file_path.as_str());
            out.append("}}");
            assert(out@ =~= start + message_text(m@));
        },
        CoordinationMessage::PhaseTransition { from, to } => {
            out.append("{");
            push_quoted(out, "PhaseTransition");
            out.append(":{");
            out.append("\"from\":");
            push_quoted(out, from.name_str());
            out.append(",\"to\":");
            push_quoted(out, to.name_str());
            out.append("}}");
            assert(out@ =~= start + message_text(m@));
        },
        CoordinationMessage::FileChanged { file_path, event_type } => {
            out.append("{");
            push_quoted(out, "FileChanged");
            out.append(":{");
            out.append("\"file_path\":");
            push_quoted(out, file_path.as_str());
            out.append(",\"event_type\":");
            push_quoted(out, event_type.as_str());
            out.append("}}");
            assert(out@ =~= start + message_text(m@));
        },
    }
}

} // verus!
