//! Composition of outgoing mail: the sender header and the checks on both
//! addresses that happen before anything is sent.

use vstd::prelude::*;

verus! {

/// Whether `lettre`'s `Mailbox::from_str` accepts a text (`Name <addr>` or a
/// bare address, with the address checked by `lettre`'s address rules).
pub uninterp spec fn mailbox_accepted(s: Seq<char>) -> bool;

/// Calls `<lettre::message::Mailbox as FromStr>::from_str`. Its success is
/// named `mailbox_accepted`; the one fact stated besides is from the source:
/// every accepted text holds an address, split at an `@` (`check_address`).
#[verifier::external_body]
fn lettre_mailbox_parses(text: &str) -> (ok: bool)
    ensures
        ok == mailbox_accepted(text@),
        ok ==> text@.contains('@'),
{
    match <lettre::message::Mailbox as std::str::FromStr>::from_str(text) {
        Ok(_) => true,
        Err(_) => false,
    }
}

/// The body type of a mail: plain text, HTML, or any other MIME type given
/// by its text (such as `text/csv; charset=utf-8`).
#[derive(Clone, Debug, PartialEq, Eq)]
pub enum MailContent {
    Plain,
    Html,
    Mime(String),
}

/// What a caller asks to send: `from` is the display name of the sender,
/// whose address is the service's mailing address.
#[derive(Clone, Debug)]
pub struct MailRequest {
    pub to: String,
    pub from: String,
    pub subject: String,
    pub body: String,
    pub content_type: Option<MailContent>,
}

/// A mail ready for the transport: both mailbox texts parse.
#[derive(Clone, Debug)]
pub struct OutgoingEmail {
    pub from: String,
    pub to: String,
    pub subject: String,
    pub body: String,
    pub content_type: MailContent,
}

#[derive(Clone, Copy, Debug, PartialEq, Eq, Structural)]
pub enum MailError {
    InvalidFrom,
    InvalidTo,
}

/// The sender mailbox text: `{name} <{address}>`.
pub open spec fn sender_mailbox(name: Seq<char>, address: Seq<char>) -> Seq<char> {
    name + " <"@ + address + ">"@
}

/// Builds the mail of `request`, sent from `mailing_address`. The sender is
/// checked first, then the recipient; the body type defaults to plain text.
pub fn compose_email(mailing_address: &str, request: MailRequest) -> (res: Result<OutgoingEmail, MailError>)
    ensures
        !mailbox_accepted(sender_mailbox(request.from@, mailing_address@)) ==> res == Err::<
            OutgoingEmail,
            MailError,
        >(MailError::InvalidFrom),
        mailbox_accepted(sender_mailbox(request.from@, mailing_address@)) && !mailbox_accepted(
            request.to@,
        ) ==> res == Err::<OutgoingEmail, MailError>(MailError::InvalidTo),
        res is Ok <==> mailbox_accepted(sender_mailbox(request.from@, mailing_address@))
            && mailbox_accepted(request.to@),
        res is Ok ==> request.to@.contains('@') && sender_mailbox(request.from@, mailing_address@).contains('@'),
        res matches Ok(mail) ==> {
            &&& mail.from@ == sender_mailbox(request.from@, mailing_address@)
            &&& mail.from@ == request.from@ + " <"@ + mailing_address@ + ">"@
            &&& mail.to == request.to
            &&& mail.subject == request.subject
            &&& mail.body == request.body
            &&& mail.content_type == (match request.content_type {
                Some(c) => c,
                None => MailContent::Plain,
            })
        },
{
    let mut from = request.from.clone();
    from.append(" <");
    from.append(mailing_address);
    from.append(">");
    if !lettre_mailbox_parses(from.as_str()) {
        return Err(MailError::InvalidFrom);
    }
    if !lettre_mailbox_parses(request.to.as_str()) {
        return Err(MailError::InvalidTo);
    }
    let content_type = match request.content_type {
        Some(c) => c,
        None => MailContent::Plain,
    };
    Ok(OutgoingEmail {
        from,
        to: request.to,
        subject: request.subject,
        body: request.body,
        content_type,
    })
}

/// The sender mailbox is the requested display name, then a space, then the
/// mailing address in angle brackets: it begins with the name, and the name
/// and the address both stand in it unchanged.
pub proof fn law_sender_mailbox(name: Seq<char>, address: Seq<char>)
    ensures
        sender_mailbox(name, address).len() == name.len() + address.len() + 3,
        sender_mailbox(name, address).subrange(0, name.len() as int) == name,
        sender_mailbox(name, address)[name.len() as int] == ' ',
        sender_mailbox(name, address)[name.len() as int + 1] == '<',
        sender_mailbox(name, address).subrange(name.len() as int + 2, name.len() as int + 2 + address.len())
            == address,
        sender_mailbox(name, address)[name.len() as int + address.len() as int + 2] == '>',
{
    reveal_strlit(" <");
    reveal_strlit(">");
    let m = sender_mailbox(name, address);
    assert(m.subrange(0, name.len() as int) =~= name);
    assert(m.subrange(name.len() as int + 2, name.len() as int + 2 + address.len()) =~= address);
}

} // verus!
