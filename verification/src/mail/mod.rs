//! Mail as the client sees it: message summaries and the rules applied to
//! what the servers return.

use crate::config::MailConfig;
use vstd::prelude::*;

pub mod imap;
pub mod mime;

verus! {

/// The header data of one message, as shown in the list.
#[derive(Debug, PartialEq, Eq)]
pub struct MessageSummary {
    pub uid: u32,
    pub from: String,
    pub date: String,
    pub subject: String,
}

/// What a `MessageSummary` holds, as plain values.
pub struct SummaryModel {
    pub uid: u32,
    pub from: Seq<char>,
    pub date: Seq<char>,
    pub subject: Seq<char>,
}

impl View for MessageSummary {
    type V = SummaryModel;

    open spec fn view(&self) -> SummaryModel {
        SummaryModel {
            uid: self.uid,
            from: self.from@,
            date: self.date@,
            subject: self.subject@,
        }
    }
}

impl Clone for MessageSummary {
    fn clone(&self) -> (r: Self)
        ensures
            r == *self,
    {
        MessageSummary {
            uid: self.uid,
            from: self.from.clone(),
            date: self.date.clone(),
            subject: self.subject.clone(),
        }
    }
}

/// The models of a list of summaries, in order.
pub open spec fn summaries_model(list: Seq<MessageSummary>) -> Seq<SummaryModel> {
    list.map_values(|m: MessageSummary| m@)
}

/// Whether `host` names this machine.
pub open spec fn localhost(host: Seq<char>) -> bool {
    host == "127.0.0.1"@ || host == "localhost"@
}

/// Decides whether `host` names this machine.
pub fn is_localhost(host: &str) -> (b: bool)
    ensures
        b == localhost(host@),
{
    let h = host.to_owned();
    h == "127.0.0.1".to_owned() || h == "localhost".to_owned()
}

/// How far the certificate of a server is checked.
#[derive(Clone, Copy, PartialEq, Eq, Structural, Debug)]
pub struct TlsPolicy {
    /// Whether a certificate that cannot be verified is accepted.
    pub accept_invalid_certs: bool,
    /// Whether a certificate for another host name is accepted.
    pub accept_invalid_hostnames: bool,
}

/// The policy for the server `cfg`: a server on this machine is trusted
/// whatever its certificate, any other server only with a valid one.
pub fn tls_policy_for(cfg: &MailConfig) -> (p: TlsPolicy)
    ensures
        p.accept_invalid_certs == localhost(cfg.host@),
        p.accept_invalid_hostnames == localhost(cfg.host@),
{
    let local = is_localhost(cfg.host.as_str());
    TlsPolicy { accept_invalid_certs: local, accept_invalid_hostnames: local }
}

} // verus!
