//! Submission: a task definition and its inputs become a job under a fresh
//! identifier, to be announced on the queue's topic.

use vstd::prelude::*;
use crate::bus::job_publication;
use crate::bus::MessageView;
use crate::bus::Publication;
use crate::keyspace::announce_topic;
use crate::schema::Job;
use crate::schema::JobView;
use crate::schema::TaskDefinition;
use crate::schema::DEFAULT_TIMEOUT_SECONDS;

verus! {

/// A job that is ready to be announced, with the identifier under which its
/// results will come.
#[derive(Debug, PartialEq, Eq)]
pub struct Submission {
    pub task_id: String,
    pub publication: Publication,
}

/// The announcement of `job`.
pub fn announce(job: Job) -> (submission: Submission)
    ensures
        submission.task_id@ == job@.task_id,
        submission.publication@ == job_publication(job@),
{
    let task_id = job.task_id.clone();
    Submission { task_id, publication: Publication::of_job(job) }
}

/// Builds the job that asks for `task_definition` on `inputs` under a fresh
/// identifier and returns its announcement on the topic of `queue`. The
/// submitter publishes it and does not wait for anything.
///
/// The identifier and the creation time are whatever the generator and the
/// clock give; the rest of the job is fixed by the arguments.
pub fn submit(queue: String, task_definition: TaskDefinition, inputs: String) -> (submission:
    Submission)
    ensures
        submission.task_id@.len() == 36,
        submission.publication@.topic == announce_topic(queue@),
        submission.publication@.message matches MessageView::Job(job) && job == (JobView {
            task_id: submission.task_id@,
            queue: queue@,
            task_definition: Some(task_definition@),
            inputs: inputs@,
            priority: Some(0i32),
            created_at_ms: job.created_at_ms,
            timeout_seconds: Some(DEFAULT_TIMEOUT_SECONDS),
        }),
{
    announce(Job::new_user_task(queue, task_definition, inputs))
}

} // verus!
