//! What the status line says of a background task: when it is started, and
//! when it has ended.

use crate::app::AppMsg;
use crate::app::AppMsgModel;
use crate::app::Task;
use crate::app::TaskModel;
use crate::mail::summaries_model;
use crate::mail::MessageSummary;
use crate::mail::SummaryModel;
use crate::number::decimal;
use crate::number::push_decimal;
use vstd::prelude::*;
use vstd::view::View as _;

verus! {

/// The status line for a task that is started.
pub open spec fn started_text(t: TaskModel) -> Seq<char> {
    match t {
        TaskModel::RefreshList => "Fetching mail list..."@,
        TaskModel::FetchBody(h) => "Fetching body (uid="@ + decimal(h.uid as nat) + ")..."@,
        TaskModel::SendMail { to, subject, body } => "Sending..."@,
    }
}

/// The report for a listing that ended with `r`: the list, or a status
/// line with the error.
pub open spec fn list_report(r: Result<Seq<SummaryModel>, Seq<char>>)
    -> AppMsgModel {
    match r {
        Ok(list) => AppMsgModel::MailList(list),
        Err(why) => AppMsgModel::Status("IMAP list error: "@ + why),
    }
}

/// The report for the reading of the message `header` that ended with `r`:
/// the text with the summary it was asked for, or a status line with the
/// error.
pub open spec fn body_report(header: SummaryModel, r: Result<Seq<char>, Seq<char>>)
    -> AppMsgModel {
    match r {
        Ok(body) => AppMsgModel::MailBody { header: header, body: body },
        Err(why) => AppMsgModel::Status("IMAP body error: "@ + why),
    }
}

/// The report for a sending that ended with `r`: a status line that says
/// so, or one with the error.
pub open spec fn send_report(r: Result<(), Seq<char>>) -> AppMsgModel {
    match r {
        Ok(_) => AppMsgModel::Status("Sent"@),
        Err(why) => AppMsgModel::Status("SMTP error: "@ + why),
    }
}

impl Task {
    /// The report that announces the task.
    pub fn started(&self) -> (m: AppMsg)
        ensures
            m@ == AppMsgModel::Status(started_text(self@)),
    {
        match self {
            Task::RefreshList => AppMsg::Status("Fetching mail list...".to_owned()),
            Task::FetchBody(h) => {
                let mut s = "Fetching body (uid=".to_owned();
                push_decimal(&mut s, h.uid as u64);
                s.append(")...");
                AppMsg::Status(s)
            },
            Task::SendMail { to, subject, body } => AppMsg::Status("Sending...".to_owned()),
        }
    }
}

/// `prefix` followed by `why`, as a status line.
fn failure(prefix: &str, why: &str) -> (m: AppMsg)
    ensures
        m@ == AppMsgModel::Status(prefix@ + why@),
{
    let mut s = prefix.to_owned();
    s.append(why);
    AppMsg::Status(s)
}

/// The report for a listing that ended with `r`.
pub fn list_finished(r: Result<Vec<MessageSummary>, String>) -> (m: AppMsg)
    ensures
        m@ == list_report(
            match r {
                Ok(list) => Ok(summaries_model(list@)),
                Err(why) => Err(why@),
            },
        ),
{
    match r {
        Ok(list) => AppMsg::MailList(list),
        Err(why) => failure("IMAP list error: ", why.as_str()),
    }
}

/// The report for the reading of the message `header` that ended with `r`.
pub fn body_finished(header: MessageSummary, r: Result<String, String>) -> (m: AppMsg)
    ensures
        m@ == body_report(
            header@,
            match r {
                Ok(body) => Ok(body@),
                Err(why) => Err(why@),
            },
        ),
{
    match r {
        Ok(body) => AppMsg::MailBody { header: header, body: body },
        Err(why) => failure("IMAP body error: ", why.as_str()),
    }
}

/// The report for a sending that ended with `r`.
pub fn send_finished(r: Result<(), String>) -> (m: AppMsg)
    ensures
        m@ == send_report(
            match r {
                Ok(_) => Ok(()),
                Err(why) => Err(why@),
            },
        ),
{
    match r {
        Ok(_) => AppMsg::Status("Sent".to_owned()),
        Err(why) => failure("SMTP error: ", why.as_str()),
    }
}

} // verus!
