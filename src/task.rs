use vstd::prelude::*;
use crate::error::UpdateError;
use crate::hashing::sha1_hex_of;
use crate::install::{download_fresh, fresh_install, patch_file, patch_install};
use crate::manifest::{FileObject, first_patch, has_patch};
use crate::reconcile::{plan_file, Action};
use crate::report::{file_outcome, outcome_spec, FileOutcome};

verus! {

/// Where the work on one file of the manifest stands. Steps within a file are
/// strictly sequential: read, fetch, check, write.
#[derive(Debug)]
pub enum FileTask {
    /// The local copy is to be read.
    ReadLocal,
    /// A payload is being fetched for `action`; a patch keeps the original
    /// bytes, read in full before anything is written.
    Fetching { action: Action, original: Option<Vec<u8>> },
    /// Checked content is being committed for `action`.
    Writing { action: Action },
    /// The file is finished.
    Done(FileOutcome),
}

/// What the outside world reports back to a file's task.
#[derive(Debug)]
pub enum FileEvent {
    /// The bytes of the local copy, or `None` where it is absent.
    Local(Option<Vec<u8>>),
    /// The fetched payload, or why it could not be fetched.
    Fetched(Result<Vec<u8>, UpdateError>),
    /// Whether the content was committed.
    Written(Result<(), UpdateError>),
}

/// What the outside world is asked to do next for a file.
#[derive(Debug)]
pub enum Command {
    /// Fetch the payload of this name from the content-delivery endpoint.
    Fetch(String),
    /// Write these bytes to a temporary file beside the destination, then
    /// rename it over the destination.
    Write(Vec<u8>),
    /// Nothing further: the task is done, or the event did not fit it.
    Finish,
}

/// The content hash of an optional local copy.
pub open spec fn local_hash(l: Option<Vec<u8>>) -> Option<Seq<char>> {
    match l {
        Some(v) => Some(sha1_hex_of(v@)),
        None => None,
    }
}

/// The task and command that a checked result leads to.
pub open spec fn after_check(
    r: (FileTask, Command),
    checked: Result<Seq<u8>, UpdateError>,
    action: Action,
) -> bool {
    match checked {
        Ok(c) => r.0 == FileTask::Writing { action } && (r.1 matches Command::Write(w) && w@ == c),
        Err(e) => r.0 == FileTask::Done(FileOutcome::Failed(e)) && r.1 is Finish,
    }
}

/// Advances the task of the file `obj` by one event.
pub fn step(task: FileTask, event: FileEvent, obj: &FileObject) -> (r: (FileTask, Command))
    ensures
        // Reading the local copy chooses the action by its hash alone.
        task is ReadLocal && event is Local ==> {
            let l = event->Local_0;
            match local_hash(l) {
                Some(h) if h == obj.hash@ => r.0 == FileTask::Done(FileOutcome::UpToDate)
                    && r.1 is Finish,
                Some(h) if has_patch(obj.patches@, h) => r.0 matches FileTask::Fetching {
                    action: Action::Patch(i),
                    original: Some(o),
                } && first_patch(obj.patches@, h, i as int) && o@ == l->Some_0@
                    && (r.1 matches Command::Fetch(n) && n@ == obj.patches@[i as int].1.filename@),
                _ => r.0 == FileTask::Fetching { action: Action::Download, original: None }
                    && (r.1 matches Command::Fetch(n) && n@ == obj.dl@),
            }
        },
        // A failed fetch fails the file.
        task is Fetching ==> (event matches FileEvent::Fetched(Err(e)) ==> (r.0 == FileTask::Done(
            FileOutcome::Failed(e),
        ) && r.1 is Finish)),
        // A fetched full file is written only once both of its hashes match.
        task matches FileTask::Fetching { action: Action::Download, .. } ==> (
        event matches FileEvent::Fetched(Ok(b)) ==> after_check(
            r,
            fresh_install(b@, *obj),
            Action::Download,
        )),
        // A fetched patch is applied to the original bytes, and the result is
        // written only once every hash on the way matches.
        task matches FileTask::Fetching { action: Action::Patch(i), original: Some(o) } ==> (i
            < obj.patches@.len() ==> (event matches FileEvent::Fetched(Ok(b)) ==> after_check(
            r,
            patch_install(b@, obj.patches@[i as int].1, *obj, o@),
            Action::Patch(i),
        ))),
        // Committing ends the file with the outcome of its action.
        task matches FileTask::Writing { action } ==> (event matches FileEvent::Written(w) ==> (
        r.0 == FileTask::Done(outcome_spec(action, w)) && r.1 is Finish)),
        // Whatever is written has the file's target content hash.
        r.1 matches Command::Write(w) ==> sha1_hex_of(w@) == obj.hash@,
{
    match task {
        FileTask::ReadLocal => match event {
            FileEvent::Local(l) => {
                let action = match &l {
                    Some(bytes) => plan_file(Some(bytes.as_slice()), obj),
                    None => plan_file(None, obj),
                };
                match action {
                    Action::UpToDate => (FileTask::Done(FileOutcome::UpToDate), Command::Finish),
                    Action::Download => (
                        FileTask::Fetching { action: Action::Download, original: None },
                        Command::Fetch(obj.dl.clone()),
                    ),
                    Action::Patch(i) => {
                        let name = obj.patches[i].1.filename.clone();
                        (FileTask::Fetching { action: Action::Patch(i), original: l }, Command::Fetch(name))
                    },
                }
            },
            _ => (FileTask::ReadLocal, Command::Finish),
        },
        FileTask::Fetching { action, original } => match event {
            FileEvent::Fetched(Err(e)) => (FileTask::Done(FileOutcome::Failed(e)), Command::Finish),
            FileEvent::Fetched(Ok(bytes)) => {
                let checked = match action {
                    Action::Patch(i) => match &original {
                        Some(o) => {
                            if i < obj.patches.len() {
                                patch_file(bytes.as_slice(), &obj.patches[i].1, obj, o.as_slice())
                            } else {
                                Err(UpdateError::Patching)
                            }
                        },
                        None => Err(UpdateError::Patching),
                    },
                    _ => download_fresh(bytes.as_slice(), obj),
                };
                match checked {
                    Ok(content) => (FileTask::Writing { action }, Command::Write(content)),
                    Err(e) => (FileTask::Done(FileOutcome::Failed(e)), Command::Finish),
                }
            },
            _ => (FileTask::Fetching { action, original }, Command::Finish),
        },
        FileTask::Writing { action } => match event {
            FileEvent::Written(w) => (FileTask::Done(file_outcome(action, w)), Command::Finish),
            _ => (FileTask::Writing { action }, Command::Finish),
        },
        FileTask::Done(outcome) => (FileTask::Done(outcome), Command::Finish),
    }
}

} // verus!
