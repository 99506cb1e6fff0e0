//! What a component hands to the bus: a message and the topic it goes to.

use vstd::prelude::*;
use crate::keyspace::announce_topic;
use crate::keyspace::assign_topic;
use crate::keyspace::claim_topic;
use crate::keyspace::k_assign;
use crate::keyspace::k_claim;
use crate::keyspace::k_queue_announce;
use crate::keyspace::k_result;
use crate::keyspace::k_status;
use crate::keyspace::result_topic;
use crate::keyspace::status_topic;
use crate::schema::Assign;
use crate::schema::AssignView;
use crate::schema::Claim;
use crate::schema::ClaimView;
use crate::schema::Job;
use crate::schema::JobView;
use crate::schema::Status;
use crate::schema::StatusView;
use crate::schema::Result;
use crate::schema::ResultView;

verus! {

/// One of the five records of the protocol.
#[derive(Debug, PartialEq, Eq)]
pub enum Message {
    Job(Job),
    Claim(Claim),
    Assign(Assign),
    Status(Status),
    Result(Result),
}

/// The mathematical view of `Message`.
pub enum MessageView {
    Job(JobView),
    Claim(ClaimView),
    Assign(AssignView),
    Status(StatusView),
    Result(ResultView),
}

impl DeepView for Message {
    type V = MessageView;

    open spec fn deep_view(&self) -> MessageView {
        match self {
            Message::Job(job) => MessageView::Job(job@),
            Message::Claim(claim) => MessageView::Claim(claim@),
            Message::Assign(assign) => MessageView::Assign(assign@),
            Message::Status(status) => MessageView::Status(status@),
            Message::Result(result) => MessageView::Result(result@),
        }
    }
}

impl View for Message {
    type V = MessageView;

    open spec fn view(&self) -> MessageView {
        self.deep_view()
    }
}

/// A message on its way to a topic.
#[derive(Debug, PartialEq, Eq)]
pub struct Publication {
    pub topic: String,
    pub message: Message,
}

/// The mathematical view of `Publication`.
pub struct PublicationView {
    pub topic: Seq<char>,
    pub message: MessageView,
}

impl DeepView for Publication {
    type V = PublicationView;

    open spec fn deep_view(&self) -> PublicationView {
        PublicationView { topic: self.topic@, message: self.message@ }
    }
}

impl View for Publication {
    type V = PublicationView;

    open spec fn view(&self) -> PublicationView {
        self.deep_view()
    }
}

/// A job goes to the announce topic of its queue.
pub open spec fn job_publication(job: JobView) -> PublicationView {
    PublicationView { topic: announce_topic(job.queue), message: MessageView::Job(job) }
}

/// A claim goes to the claim topic of its task.
pub open spec fn claim_publication(claim: ClaimView) -> PublicationView {
    PublicationView { topic: claim_topic(claim.task_id), message: MessageView::Claim(claim) }
}

/// An assignment goes to the assign topic of its task.
pub open spec fn assign_publication(assign: AssignView) -> PublicationView {
    PublicationView { topic: assign_topic(assign.task_id), message: MessageView::Assign(assign) }
}

/// A status record goes to the status topic of its task.
pub open spec fn status_publication(status: StatusView) -> PublicationView {
    PublicationView { topic: status_topic(status.task_id), message: MessageView::Status(status) }
}

/// A result goes to the result topic of its task.
pub open spec fn result_publication(result: ResultView) -> PublicationView {
    PublicationView { topic: result_topic(result.task_id), message: MessageView::Result(result) }
}

impl Publication {
    /// The announcement of `job` on the topic of its queue.
    pub fn of_job(job: Job) -> (publication: Publication)
        ensures
            publication@ == job_publication(job@),
    {
        Publication { topic: k_queue_announce(job.queue.as_str()), message: Message::Job(job) }
    }

    /// `claim` on the claim topic of its task.
    pub fn of_claim(claim: Claim) -> (publication: Publication)
        ensures
            publication@ == claim_publication(claim@),
    {
        Publication { topic: k_claim(claim.task_id.as_str()), message: Message::Claim(claim) }
    }

    /// `assign` on the assign topic of its task.
    pub fn of_assign(assign: Assign) -> (publication: Publication)
        ensures
            publication@ == assign_publication(assign@),
    {
        Publication { topic: k_assign(assign.task_id.as_str()), message: Message::Assign(assign) }
    }

    /// `status` on the status topic of its task.
    pub fn of_status(status: Status) -> (publication: Publication)
        ensures
            publication@ == status_publication(status@),
    {
        Publication { topic: k_status(status.task_id.as_str()), message: Message::Status(status) }
    }

    /// `result` on the result topic of its task.
    pub fn of_result(result: Result) -> (publication: Publication)
        ensures
            publication@ == result_publication(result@),
    {
        Publication { topic: k_result(result.task_id.as_str()), message: Message::Result(result) }
    }
}

} // verus!
