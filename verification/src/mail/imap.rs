//! Rules for reading a mailbox: which messages are listed, and what is
//! shown of each.

use crate::mail::mime::body_text;
use crate::mail::mime::text_of_message;
use crate::mail::summaries_model;
use crate::mail::MessageSummary;
use crate::mail::SummaryModel;
use crate::text::trim;
use crate::text::trim_str;
use vstd::prelude::*;
use vstd::relations::sorted_by;
use vstd::seq_lib::lemma_sorted_unique;

verus! {

/// What `String::from_utf8_lossy` makes of bytes: the text that they
/// encode, with U+FFFD in place of what is not UTF-8.
pub uninterp spec fn lossy_text(bytes: Seq<u8>) -> Seq<char>;

/// `String::from_utf8_lossy`: the text that `b` encodes. Nothing is claimed
/// of the result but that it depends on `b` alone.
#[verifier::external_body]
fn from_utf8_lossy(b: &[u8]) -> (r: String)
    ensures
        r@ == lossy_text(b@),
{
    String::from_utf8_lossy(b).into_owned()
}

/// `sort_unstable` on a slice of numbers: afterwards the numbers are in
/// ascending order, and they are the numbers that were there.
#[verifier::external_body]
fn sort_uids(v: &mut Vec<u32>)
    ensures
        sorted_by(final(v)@, ascending_order()),
        final(v)@.to_multiset() == old(v)@.to_multiset(),
{
    v.sort_unstable()
}

/// The number of messages that the list shows at most.
pub const LIST_LIMIT: usize = 50;

/// The order of numbers by size.
pub open spec fn ascending_order() -> spec_fn(u32, u32) -> bool {
    |a: u32, b: u32| a <= b
}

/// The numbers `s` in ascending order.
pub open spec fn ascending(s: Seq<u32>) -> Seq<u32> {
    s.sort_by(ascending_order())
}

/// The `limit` highest of the numbers `uids`, or all of them if they are
/// fewer, in ascending order: the most recent messages, the newest last.
pub open spec fn recent(uids: Seq<u32>, limit: nat) -> Seq<u32> {
    let a = ascending(uids);
    if a.len() > limit {
        a.skip(a.len() - limit)
    } else {
        a
    }
}

/// The identifiers of the messages to list, of those that the mailbox
/// holds: the `limit` most recent ones, the newest last.
pub fn pick_recent(uids: Vec<u32>, limit: usize) -> (r: Vec<u32>)
    ensures
        r@ == recent(uids@, limit as nat),
{
    let mut v = uids;
    sort_uids(&mut v);
    proof {
        uids@.lemma_sort_by_ensures(ascending_order());
        lemma_sorted_unique(v@, ascending(uids@), ascending_order());
    }
    let n = v.len();
    let start: usize = if n > limit {
        n - limit
    } else {
        0
    };
    let mut r: Vec<u32> = Vec::new();
    let mut i: usize = start;
    while i < n
        invariant
            start <= i <= n == v.len(),
            r@ == v@.subrange(start as int, i as int),
        decreases n - i,
    {
        r.push(v[i]);
        i += 1;
    }
    r
}

/// What the messages picked are: as many as the limit allows, in ascending
/// order, each of them one of the mailbox, and none of them older than a
/// message that was left out.
pub proof fn law_recent(uids: Seq<u32>, limit: nat)
    ensures
        recent(uids, limit).len() == if uids.len() < limit {
            uids.len()
        } else {
            limit
        },
        forall|i: int, j: int|
            0 <= i < j < recent(uids, limit).len() ==> recent(uids, limit)[i] <= recent(
                uids,
                limit,
            )[j],
        forall|i: int|
            0 <= i < recent(uids, limit).len() ==> uids.contains(#[trigger] recent(uids, limit)[i]),
        forall|x: u32, i: int|
            #![trigger uids.contains(x), recent(uids, limit)[i]]
            uids.contains(x) && !recent(uids, limit).contains(x) && 0 <= i < recent(
                uids,
                limit,
            ).len() ==> x <= recent(uids, limit)[i],
{
    let a = ascending(uids);
    let r = recent(uids, limit);
    uids.lemma_sort_by_ensures(ascending_order());
    uids.to_multiset_ensures();
    a.to_multiset_ensures();
    let d = a.len() - r.len();
    assert forall|i: int, j: int| 0 <= i < j < r.len() implies r[i] <= r[j] by {
        assert(ascending_order()(a[i + d], a[j + d]));
    }
    assert forall|i: int| 0 <= i < r.len() implies uids.contains(#[trigger] r[i]) by {
        assert(uids.to_multiset().count(a[i + d]) > 0);
    }
    assert forall|x: u32, i: int|
        #![trigger uids.contains(x), r[i]]
        uids.contains(x) && !r.contains(x) && 0 <= i < r.len() implies x <= r[i] by {
        assert(a.to_multiset().count(x) > 0);
        let k = choose|k: int| 0 <= k < a.len() && a[k] == x;
        if k >= d {
            assert(r[k - d] == x);
        } else {
            assert(ascending_order()(a[k], a[i + d]));
        }
    }
}

/// The bytes that a value holds, if it holds any.
pub open spec fn bytes_of(v: Option<&[u8]>) -> Option<Seq<u8>> {
    match v {
        Some(b) => Some(b@),
        None => None,
    }
}

/// The text of a header value: what the bytes encode, trimmed; nothing for
/// a value that is absent.
pub open spec fn header_text(v: Option<Seq<u8>>) -> Seq<char> {
    match v {
        Some(b) => trim(lossy_text(b)),
        None => Seq::empty(),
    }
}

/// The text of a header value.
pub fn bytes_opt_to_string(v: Option<&[u8]>) -> (r: String)
    ensures
        r@ == header_text(bytes_of(v)),
{
    match v {
        Some(b) => {
            let s = from_utf8_lossy(b);
            trim_str(s.as_str())
        },
        None => String::new(),
    }
}

/// A sender as shown in the list: the name, then the address in angle
/// brackets; the address alone where there is no name; the name alone where
/// the address lacks its mailbox or its host.
pub open spec fn sender_text(
    name: Option<Seq<u8>>,
    mailbox: Option<Seq<u8>>,
    host: Option<Seq<u8>>,
) -> Seq<char> {
    let n = header_text(name);
    if mailbox.is_some() && host.is_some() {
        let address = seq!['<'] + lossy_text(mailbox.unwrap()) + seq!['@'] + lossy_text(
            host.unwrap(),
        ) + seq!['>'];
        if n.len() > 0 {
            n + seq![' '] + address
        } else {
            address
        }
    } else {
        n
    }
}

/// A sender as shown in the list.
pub fn addr_to_string(name: Option<&[u8]>, mailbox: Option<&[u8]>, host: Option<&[u8]>) -> (r:
    String)
    ensures
        r@ == sender_text(bytes_of(name), bytes_of(mailbox), bytes_of(host)),
{
    let mut out = bytes_opt_to_string(name);
    match (mailbox, host) {
        (Some(m), Some(h)) => {
            if !out.as_str().is_empty() {
                out.append(" ");
            }
            out.append("<");
            out.append(from_utf8_lossy(m).as_str());
            out.append("@");
            out.append(from_utf8_lossy(h).as_str());
            out.append(">");
            proof {
                reveal_strlit(" ");
                reveal_strlit("<");
                reveal_strlit("@");
                reveal_strlit(">");
            }
            out
        },
        _ => out,
    }
}

/// One address of an envelope, as the server gave it.
#[derive(Debug, PartialEq, Eq)]
pub struct Address {
    pub name: Option<Vec<u8>>,
    pub mailbox: Option<Vec<u8>>,
    pub host: Option<Vec<u8>>,
}

/// What an `Address` holds, as plain values.
pub struct AddressModel {
    pub name: Option<Seq<u8>>,
    pub mailbox: Option<Seq<u8>>,
    pub host: Option<Seq<u8>>,
}

/// The bytes that a field holds, if it holds any.
pub open spec fn field_bytes(v: Option<Vec<u8>>) -> Option<Seq<u8>> {
    match v {
        Some(b) => Some(b@),
        None => None,
    }
}

impl View for Address {
    type V = AddressModel;

    open spec fn view(&self) -> AddressModel {
        AddressModel {
            name: field_bytes(self.name),
            mailbox: field_bytes(self.mailbox),
            host: field_bytes(self.host),
        }
    }
}

/// The header data of a message, as the server gave it.
#[derive(Debug, PartialEq, Eq)]
pub struct Envelope {
    pub from: Option<Vec<Address>>,
    pub date: Option<Vec<u8>>,
    pub subject: Option<Vec<u8>>,
}

/// What an `Envelope` holds, as plain values.
pub struct EnvelopeModel {
    pub from: Option<Seq<AddressModel>>,
    pub date: Option<Seq<u8>>,
    pub subject: Option<Seq<u8>>,
}

impl View for Envelope {
    type V = EnvelopeModel;

    open spec fn view(&self) -> EnvelopeModel {
        EnvelopeModel {
            from: match self.from {
                Some(list) => Some(list@.map_values(|a: Address| a@)),
                None => None,
            },
            date: field_bytes(self.date),
            subject: field_bytes(self.subject),
        }
    }
}

/// What came back when the envelope of one message was asked for.
#[derive(Debug, PartialEq, Eq)]
pub enum Fetched {
    /// The server returned nothing for the message.
    Nothing,
    /// The server returned the message without its envelope.
    NoEnvelope,
    /// The envelope.
    Envelope(Envelope),
}

/// What a `Fetched` holds, as plain values.
pub enum FetchedModel {
    Nothing,
    NoEnvelope,
    Envelope(EnvelopeModel),
}

impl View for Fetched {
    type V = FetchedModel;

    open spec fn view(&self) -> FetchedModel {
        match self {
            Fetched::Nothing => FetchedModel::Nothing,
            Fetched::NoEnvelope => FetchedModel::NoEnvelope,
            Fetched::Envelope(e) => FetchedModel::Envelope(e@),
        }
    }
}

/// The models of messages with what came back for each, in order.
pub open spec fn fetched_model(items: Seq<(u32, Fetched)>) -> Seq<(u32, FetchedModel)> {
    items.map_values(|x: (u32, Fetched)| (x.0, x.1@))
}

/// What is missing in what a server returned for a message.
#[derive(Clone, Copy, PartialEq, Eq, Structural, Debug)]
pub enum FetchError {
    /// The server returned nothing for the message.
    NoFetchResult,
    /// The server returned the message without its envelope.
    NoEnvelope,
    /// The server returned the message without its body.
    NoBody,
}

impl FetchError {
    /// The error in words.
    pub open spec fn text(self) -> Seq<char> {
        match self {
            FetchError::NoFetchResult => "no fetch result"@,
            FetchError::NoEnvelope => "no envelope"@,
            FetchError::NoBody => "no body"@,
        }
    }

    /// The error in words.
    pub fn message(&self) -> (s: String)
        ensures
            s@ == self.text(),
    {
        match self {
            FetchError::NoFetchResult => "no fetch result".to_owned(),
            FetchError::NoEnvelope => "no envelope".to_owned(),
            FetchError::NoBody => "no body".to_owned(),
        }
    }
}

/// What came back when the body of one message was asked for.
#[derive(Debug, PartialEq, Eq)]
pub enum FetchedBody {
    /// The server returned nothing for the message.
    Nothing,
    /// The server returned the message without its body.
    NoBody,
    /// The bytes of the message.
    Body(Vec<u8>),
}

/// What a `FetchedBody` holds, as plain values.
pub enum FetchedBodyModel {
    Nothing,
    NoBody,
    Body(Seq<u8>),
}

impl View for FetchedBody {
    type V = FetchedBodyModel;

    open spec fn view(&self) -> FetchedBodyModel {
        match self {
            FetchedBody::Nothing => FetchedBodyModel::Nothing,
            FetchedBody::NoBody => FetchedBodyModel::NoBody,
            FetchedBody::Body(raw) => FetchedBodyModel::Body(raw@),
        }
    }
}

/// The text shown for a message, from what the server returned for it, or
/// the words of the error: what is missing, or why the message cannot be
/// read.
pub open spec fn fetched_text(f: FetchedBodyModel) -> Result<Seq<char>, Seq<char>> {
    match f {
        FetchedBodyModel::Nothing => Err(FetchError::NoFetchResult.text()),
        FetchedBodyModel::NoBody => Err(FetchError::NoBody.text()),
        FetchedBodyModel::Body(raw) => body_text(raw),
    }
}

/// The text shown for a message, from what the server returned for it.
pub fn fetch_body_plain(f: &FetchedBody) -> (r: Result<String, String>)
    ensures
        match r {
            Ok(t) => fetched_text(f@) == Ok::<Seq<char>, Seq<char>>(t@),
            Err(e) => fetched_text(f@) == Err::<Seq<char>, Seq<char>>(e@),
        },
{
    match f {
        FetchedBody::Nothing => Err(FetchError::NoFetchResult.message()),
        FetchedBody::NoBody => Err(FetchError::NoBody.message()),
        FetchedBody::Body(raw) => text_of_message(raw.as_slice()),
    }
}

/// The sender shown for an envelope: its first sender; nothing for an
/// envelope without senders.
pub open spec fn envelope_sender(e: EnvelopeModel) -> Seq<char> {
    match e.from {
        Some(list) => if list.len() > 0 {
            sender_text(list[0].name, list[0].mailbox, list[0].host)
        } else {
            Seq::empty()
        },
        None => Seq::empty(),
    }
}

/// The summary of the message `uid` with the envelope `e`.
pub open spec fn summary_of(uid: u32, e: EnvelopeModel) -> SummaryModel {
    SummaryModel {
        uid: uid,
        from: envelope_sender(e),
        date: header_text(e.date),
        subject: header_text(e.subject),
    }
}

/// What listing comes to for one message: its summary, or the error that
/// ends the listing.
pub open spec fn summary_or_error(uid: u32, f: FetchedModel) -> Result<SummaryModel, FetchError> {
    match f {
        FetchedModel::Nothing => Err(FetchError::NoFetchResult),
        FetchedModel::NoEnvelope => Err(FetchError::NoEnvelope),
        FetchedModel::Envelope(e) => Ok(summary_of(uid, e)),
    }
}

/// The summaries of the first `n` of the messages `items`, in order, or
/// the first error among them.
pub open spec fn summaries(items: Seq<(u32, FetchedModel)>, n: nat) -> Result<
    Seq<SummaryModel>,
    FetchError,
>
    decreases n,
{
    if n == 0 || n > items.len() {
        Ok(Seq::empty())
    } else {
        match summaries(items, (n - 1) as nat) {
            Err(e) => Err(e),
            Ok(before) => match summary_or_error(items[n - 1].0, items[n - 1].1) {
                Err(e) => Err(e),
                Ok(s) => Ok(before.push(s)),
            },
        }
    }
}

/// The list of a mailbox, from what the server returned for each of the
/// messages picked: their summaries in the order given, or the error of
/// the first message that came back without its envelope.
pub open spec fn listing(items: Seq<(u32, FetchedModel)>) -> Result<Seq<SummaryModel>, FetchError> {
    summaries(items, items.len())
}

/// The bytes of a field as a slice.
fn field_slice(v: &Option<Vec<u8>>) -> (r: Option<&[u8]>)
    ensures
        bytes_of(r) == field_bytes(*v),
{
    match v {
        Some(b) => Some(b.as_slice()),
        None => None,
    }
}

/// The summary of the message `uid` with the envelope `e`.
pub fn summarize(uid: u32, e: &Envelope) -> (r: MessageSummary)
    ensures
        r@ == summary_of(uid, e@),
{
    let from = match &e.from {
        Some(list) => if list.len() > 0 {
            addr_to_string(
                field_slice(&list[0].name),
                field_slice(&list[0].mailbox),
                field_slice(&list[0].host),
            )
        } else {
            String::new()
        },
        None => String::new(),
    };
    let date = bytes_opt_to_string(field_slice(&e.date));
    let subject = bytes_opt_to_string(field_slice(&e.subject));
    MessageSummary { uid, from, date, subject }
}

/// The list of the mailbox, from what the server returned for each of the
/// messages picked.
pub fn fetch_summaries(items: &Vec<(u32, Fetched)>) -> (r: Result<Vec<MessageSummary>, FetchError>)
    ensures
        match r {
            Ok(list) => listing(fetched_model(items@)) == Ok::<Seq<SummaryModel>, FetchError>(
                summaries_model(list@),
            ),
            Err(e) => listing(fetched_model(items@)) == Err::<Seq<SummaryModel>, FetchError>(e),
        },
{
    let n = items.len();
    let ghost model = fetched_model(items@);
    let mut out: Vec<MessageSummary> = Vec::new();
    let mut i: usize = 0;
    assert(summaries_model(out@) =~= Seq::empty());
    while i < n
        invariant
            i <= n == items@.len(),
            model == fetched_model(items@),
            summaries(model, i as nat) == Ok::<Seq<SummaryModel>, FetchError>(
                summaries_model(out@),
            ),
        decreases n - i,
    {
        match &items[i].1 {
            Fetched::Nothing => {
                proof {
                    lemma_error_ends_listing(model, i as nat, n as nat);
                }
                return Err(FetchError::NoFetchResult);
            },
            Fetched::NoEnvelope => {
                proof {
                    lemma_error_ends_listing(model, i as nat, n as nat);
                }
                return Err(FetchError::NoEnvelope);
            },
            Fetched::Envelope(e) => {
                let ghost before = summaries_model(out@);
                let s = summarize(items[i].0, e);
                out.push(s);
                assert(summaries_model(out@) =~= before.push(s@));
            },
        }
        i += 1;
    }
    Ok(out)
}

/// Once a message has failed, the listing of any more messages fails with
/// the same error.
proof fn lemma_error_ends_listing(items: Seq<(u32, FetchedModel)>, i: nat, n: nat)
    requires
        i < n <= items.len(),
        summaries(items, i) is Ok,
        summary_or_error(items[i as int].0, items[i as int].1) is Err,
    ensures
        summaries(items, n) == Err::<Seq<SummaryModel>, FetchError>(
            summary_or_error(items[i as int].0, items[i as int].1)->Err_0,
        ),
    decreases n,
{
    if n > i + 1 {
        lemma_error_ends_listing(items, i, (n - 1) as nat);
    }
}

} // verus!
