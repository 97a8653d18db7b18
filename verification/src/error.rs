//! What can go wrong, and how it is worded.

use crate::ids::{task_id_text, task_id_text_of};
use vstd::prelude::*;
use vstd::string::*;

verus! {

/// The failures that an operation of this library, or of what stands around
/// it, can report. None of them ends the process.
#[derive(Clone, Debug, PartialEq, Eq)]
pub enum Error {
    /// A task could not be carried out, or the storage behind the tasks could
    /// not be reached; the text says which.
    TaskExecution(String),
    /// A task was submitted under an identifier that the table already holds.
    DuplicateTaskId(u128),
    /// No task is known under the identifier.
    TaskNotFound(u128),
    /// A parameter, by name, and what is wrong with it.
    InvalidParameter(String, String),
    /// The language model could not be reached or understood.
    LlmCommunication(String),
    /// Structured data could not be read or written.
    Serialization(String),
    /// Storage failed, or does not support what was asked.
    Io(String),
    /// Any other failure, in its own words.
    Other(String),
}

impl Error {
    /// The failure in words.
    pub open spec fn message_of(&self) -> Seq<char> {
        match self {
            Error::TaskExecution(detail) => "Task execution failed: "@ + detail@,
            Error::DuplicateTaskId(id) => "Task execution failed: Task with ID "@
                + task_id_text_of(*id) + " already exists"@,
            Error::TaskNotFound(id) => "Task execution failed: Task with ID "@ + task_id_text_of(
                *id,
            ) + " not found"@,
            Error::InvalidParameter(name, detail) => "Invalid parameter '"@ + name@ + "': "@
                + detail@,
            Error::LlmCommunication(detail) => "LLM communication error: "@ + detail@,
            Error::Serialization(detail) => "Serialization error: "@ + detail@,
            Error::Io(detail) => "I/O error: "@ + detail@,
            Error::Other(detail) => detail@,
        }
    }

    /// The failure in words.
    pub fn message(&self) -> (text: String)
        ensures
            text@ == self.message_of(),
    {
        match self {
            Error::TaskExecution(detail) => {
                let mut text = "Task execution failed: ".to_owned();
                text.append(detail.as_str());
                text
            },
            Error::DuplicateTaskId(id) => {
                let mut text = "Task execution failed: Task with ID ".to_owned();
                text.append(task_id_text(*id).as_str());
                text.append(" already exists");
                text
            },
            Error::TaskNotFound(id) => {
                let mut text = "Task execution failed: Task with ID ".to_owned();
                text.append(task_id_text(*id).as_str());
                text.append(" not found");
                text
            },
            Error::InvalidParameter(name, detail) => {
                let mut text = "Invalid parameter '".to_owned();
                text.append(name.as_str());
                text.append("': ");
                text.append(detail.as_str());
                text
            },
            Error::LlmCommunication(detail) => {
                let mut text = "LLM communication error: ".to_owned();
                text.append(detail.as_str());
                text
            },
            Error::Serialization(detail) => {
                let mut text = "Serialization error: ".to_owned();
                text.append(detail.as_str());
                text
            },
            Error::Io(detail) => {
                let mut text = "I/O error: ".to_owned();
                text.append(detail.as_str());
                text
            },
            Error::Other(detail) => detail.clone(),
        }
    }
}

} // verus!
