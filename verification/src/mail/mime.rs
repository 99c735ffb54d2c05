//! The parts of a message, and the text that is shown for it.

use crate::text::is_blank;
use crate::text::is_blank_str;
use crate::text::lowered;
use crate::text::lowered_is;
use crate::text::push_char;
use vstd::prelude::*;

verus! {

/// One part of a message: a leaf with a body, or a container of parts.
#[derive(Debug, PartialEq, Eq)]
pub struct MailPart {
    /// The content type, such as `text/plain`.
    pub mimetype: String,
    /// The body as text, where it could be decoded.
    pub body: Option<String>,
    /// The parts that this part holds.
    pub subparts: Vec<MailPart>,
}

/// What a `MailPart` holds, as plain values.
pub struct PartModel {
    pub mimetype: Seq<char>,
    pub body: Option<Seq<char>>,
    pub subparts: Seq<PartModel>,
}

/// The model of the part `p`.
pub open spec fn part_model(p: MailPart) -> PartModel
    decreases p, p.subparts@.len() + 1,
{
    PartModel {
        mimetype: p.mimetype@,
        body: match p.body {
            Some(b) => Some(b@),
            None => None,
        },
        subparts: part_models(p, p.subparts@.len()),
    }
}

/// The models of the first `n` parts that the part `p` holds, in order.
pub open spec fn part_models(p: MailPart, n: nat) -> Seq<PartModel>
    decreases p, n,
{
    if n == 0 || n > p.subparts@.len() {
        Seq::empty()
    } else {
        part_models(p, (n - 1) as nat).push(part_model(p.subparts@[n - 1]))
    }
}

impl View for MailPart {
    type V = PartModel;

    open spec fn view(&self) -> PartModel {
        part_model(*self)
    }
}

/// The models of the first `n` parts of a part are `n`, each the model of
/// the part at its place.
pub proof fn lemma_part_models(p: MailPart, n: nat)
    requires
        n <= p.subparts@.len(),
    ensures
        part_models(p, n).len() == n,
        forall|i: int| 0 <= i < n ==> part_models(p, n)[i] == (#[trigger] p.subparts@[i])@,
    decreases n,
{
    if n > 0 {
        lemma_part_models(p, (n - 1) as nat);
    }
}

#[verifier::external_type_specification]
#[verifier::external_body]
pub struct ExParsedMail<'a>(mailparse::ParsedMail<'a>);

/// What `mailparse::parse_mail` makes of the bytes of a message: its parts,
/// each with the body that `ParsedMail::get_body` decodes for it, or the
/// words of the error.
pub uninterp spec fn parsed_mail(raw: Seq<u8>) -> Result<PartModel, Seq<char>>;

/// A part as `mailparse` holds it, in the form of this library: the content
/// type as it stands in `ctype.mimetype`, the body that
/// `ParsedMail::get_body` decodes, if it decodes one, and the parts in
/// `subparts`, in their order. Nothing is claimed of the result.
#[verifier::external_body]
fn part_of(m: &mailparse::ParsedMail<'_>) -> MailPart {
    MailPart {
        mimetype: m.ctype.mimetype.clone(),
        body: m.get_body().ok(),
        subparts: m.subparts.iter().map(part_of).collect(),
    }
}

/// `mailparse::parse_mail`: the parts of the message `raw`, or the words of
/// the error if it cannot be read. Nothing is claimed of the result but
/// that it depends on `raw` alone.
#[verifier::external_body]
fn parse_mail(raw: &[u8]) -> (r: Result<MailPart, String>)
    ensures
        match r {
            Ok(p) => parsed_mail(raw@) == Ok::<PartModel, Seq<char>>(p@),
            Err(e) => parsed_mail(raw@) == Err::<PartModel, Seq<char>>(e@),
        },
{
    match mailparse::parse_mail(raw) {
        Ok(m) => Ok(part_of(&m)),
        Err(e) => Err(format!("{e}")),
    }
}

/// Whether a part with the content type `mimetype` holds plain text: the
/// type is `text/plain`, in capitals or small letters.
pub open spec fn is_text_plain(mimetype: Seq<char>) -> bool {
    lowered(mimetype) == "text/plain"@
}

/// The plain text of the part `p`: for a container the plain texts of its
/// parts that are not blank, with an empty line between them; for a leaf
/// of plain text its body, if it has one; else nothing.
pub open spec fn text_plain(p: PartModel) -> Seq<char>
    decreases p, p.subparts.len() + 1,
{
    if p.subparts.len() > 0 {
        joined_texts(p, p.subparts.len())
    } else if is_text_plain(p.mimetype) && p.body.is_some() {
        p.body.unwrap()
    } else {
        Seq::empty()
    }
}

/// The plain texts of the first `n` parts of `p` that are not blank, with
/// an empty line between them.
pub open spec fn joined_texts(p: PartModel, n: nat) -> Seq<char>
    decreases p, n,
{
    if n == 0 || n > p.subparts.len() {
        Seq::empty()
    } else {
        let before = joined_texts(p, (n - 1) as nat);
        let t = text_plain(p.subparts[n - 1]);
        if is_blank(t) {
            before
        } else if before.len() == 0 {
            t
        } else {
            before + seq!['\n', '\n'] + t
        }
    }
}

/// The text shown for the message `raw`: the plain text of its parts, or
/// the words of the error if it cannot be read.
pub open spec fn body_text(raw: Seq<u8>) -> Result<Seq<char>, Seq<char>> {
    match parsed_mail(raw) {
        Ok(p) => Ok(text_plain(p)),
        Err(e) => Err(e),
    }
}

/// The plain text of the part `m`.
pub fn extract_text_plain(m: &MailPart) -> (r: String)
    ensures
        r@ == text_plain(m@),
    decreases m,
{
    let n = m.subparts.len();
    proof {
        lemma_part_models(*m, m.subparts@.len());
    }
    if n > 0 {
        let mut out = String::new();
        let mut i: usize = 0;
        while i < n
            invariant
                i <= n == m.subparts@.len(),
                out@ == joined_texts(m@, i as nat),
            decreases n - i,
        {
            let t = extract_text_plain(&m.subparts[i]);
            proof {
                lemma_part_models(*m, m.subparts@.len());
            }
            if !is_blank_str(t.as_str()) {
                if !out.as_str().is_empty() {
                    push_char(&mut out, '\n');
                    push_char(&mut out, '\n');
                }
                out.append(t.as_str());
            }
            i += 1;
        }
        return out;
    }
    if lowered_is(m.mimetype.as_str(), "text/plain") {
        if let Some(body) = &m.body {
            return body.clone();
        }
    }
    String::new()
}

/// The text shown for the message `raw`.
pub fn text_of_message(raw: &[u8]) -> (r: Result<String, String>)
    ensures
        match r {
            Ok(t) => body_text(raw@) == Ok::<Seq<char>, Seq<char>>(t@),
            Err(e) => body_text(raw@) == Err::<Seq<char>, Seq<char>>(e@),
        },
{
    match parse_mail(raw) {
        Ok(p) => Ok(extract_text_plain(&p)),
        Err(e) => Err(e),
    }
}

} // verus!
