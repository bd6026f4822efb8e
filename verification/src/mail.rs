use vstd::prelude::*;
use vstd::string::*;
use crate::datetime::{DateTime, long_date_pt_br};

verus! {

/// An e-mail to send: sender, recipient, subject and HTML body.
pub struct MailDraft {
    pub from_name: String,
    pub from_address: String,
    pub to_name: Option<String>,
    pub to_address: String,
    pub subject: String,
    pub html: String,
}

/// The name that every e-mail of the service is sent under.
pub const SENDER_NAME: &'static str = "Equipe Plann.er";

/// The address that every e-mail of the service is sent from.
pub const SENDER_ADDRESS: &'static str = "noreply@plann.er";

pub const TRIP_MAIL_SUBJECT_START: &'static str = "Confirme sua viagem para ";

pub const INVITE_MAIL_SUBJECT_START: &'static str = "Confirme sua presença na viagem para ";

pub const SUBJECT_DATE_SEPARATOR: &'static str = " em ";

pub const TRIP_MAIL_OPENING: &'static str = "<div style=\"font-family: sans-serif; font-size: 16px; line-height: 1.6;\">\n                  <p>Você solicitou a criação de uma viagem para <strong>";
pub const TRIP_MAIL_AFTER_DESTINATION: &'static str = "</strong> nas datas de <strong>";
pub const TRIP_MAIL_AFTER_START: &'static str = "</strong> até <strong>";
pub const TRIP_MAIL_AFTER_END: &'static str = "</strong>.</p>\n                  <p></p>\n                  <p>Para confirmar sua viagem, clique no link abaixo:</p>\n                  <p></p>\n                  <p>\n                    <a href=\"";
pub const TRIP_MAIL_CLOSING: &'static str = "\">Confirmar viagem</a>\n                  </p>\n                  <p></p>\n                  <p>Caso você não saiba do que se trata esse e-mail, apenas ignore esse e-mail.</p>\n                </div>";
pub const INVITE_MAIL_OPENING: &'static str = "<div style=\"font-family: sans-serif; font-size: 16px; line-height: 1.6;\">\n                      <p>Você foi convidado(a) para participar de uma viagem para  <strong>";
pub const INVITE_MAIL_AFTER_DESTINATION: &'static str = "</strong> nas datas de <strong>";
pub const INVITE_MAIL_AFTER_START: &'static str = "</strong> até <strong>";
pub const INVITE_MAIL_AFTER_END: &'static str = "</strong>.</p>\n                      <p></p>\n                      <p>Para confirmar sua presença na viagem, clique no link abaixo:</p>\n                      <p></p>\n                      <p>\n                        <a href=\"";
pub const INVITE_MAIL_CLOSING: &'static str = "\">Confirmar viagem</a>\n                      </p>\n                      <p></p>\n                      <p>Caso você não saiba do que se trata esse e-mail, apenas ignore esse e-mail.</p>\n                    </div>";

/// The subject of the e-mail asking the owner to confirm a trip.
pub open spec fn trip_mail_subject(destination: Seq<char>, start: Seq<char>) -> Seq<char> {
    TRIP_MAIL_SUBJECT_START@ + destination + SUBJECT_DATE_SEPARATOR@ + start
}

/// The body of the e-mail asking the owner to confirm a trip.
pub open spec fn trip_mail_html(destination: Seq<char>, start: Seq<char>, end: Seq<char>, link: Seq<char>) -> Seq<char> {
    TRIP_MAIL_OPENING@ + destination + TRIP_MAIL_AFTER_DESTINATION@ + start + TRIP_MAIL_AFTER_START@
        + end + TRIP_MAIL_AFTER_END@ + link + TRIP_MAIL_CLOSING@
}

/// The subject of the e-mail inviting a participant to a trip.
pub open spec fn invite_mail_subject(destination: Seq<char>, start: Seq<char>) -> Seq<char> {
    INVITE_MAIL_SUBJECT_START@ + destination + SUBJECT_DATE_SEPARATOR@ + start
}

/// The body of the e-mail inviting a participant to a trip.
pub open spec fn invite_mail_html(destination: Seq<char>, start: Seq<char>, end: Seq<char>, link: Seq<char>) -> Seq<char> {
    INVITE_MAIL_OPENING@ + destination + INVITE_MAIL_AFTER_DESTINATION@ + start + INVITE_MAIL_AFTER_START@
        + end + INVITE_MAIL_AFTER_END@ + link + INVITE_MAIL_CLOSING@
}

/// The written form of a date in the e-mails.
pub open spec fn date_text(t: (int, int)) -> Seq<char> {
    long_date_pt_br(t.0, t.1)
}

/// The e-mail that asks the owner of a new trip to confirm it.
pub open spec fn spec_trip_confirmation_mail(
    owner_name: Seq<char>,
    owner_email: Seq<char>,
    destination: Seq<char>,
    starts_at: (int, int),
    ends_at: (int, int),
    link: Seq<char>,
) -> MailDraftView {
    MailDraftView {
        from_name: SENDER_NAME@,
        from_address: SENDER_ADDRESS@,
        to_name: Some(owner_name),
        to_address: owner_email,
        subject: trip_mail_subject(destination, date_text(starts_at)),
        html: trip_mail_html(destination, date_text(starts_at), date_text(ends_at), link),
    }
}

/// The e-mail that invites a participant to a trip.
pub open spec fn spec_invitation_mail(
    email: Seq<char>,
    destination: Seq<char>,
    starts_at: (int, int),
    ends_at: (int, int),
    link: Seq<char>,
) -> MailDraftView {
    MailDraftView {
        from_name: SENDER_NAME@,
        from_address: SENDER_ADDRESS@,
        to_name: None,
        to_address: email,
        subject: invite_mail_subject(destination, date_text(starts_at)),
        html: invite_mail_html(destination, date_text(starts_at), date_text(ends_at), link),
    }
}

/// The content of an e-mail, as text.
pub struct MailDraftView {
    pub from_name: Seq<char>,
    pub from_address: Seq<char>,
    pub to_name: Option<Seq<char>>,
    pub to_address: Seq<char>,
    pub subject: Seq<char>,
    pub html: Seq<char>,
}

impl View for MailDraft {
    type V = MailDraftView;

    open spec fn view(&self) -> MailDraftView {
        MailDraftView {
            from_name: self.from_name@,
            from_address: self.from_address@,
            to_name: match self.to_name {
                Some(n) => Some(n@),
                None => None,
            },
            to_address: self.to_address@,
            subject: self.subject@,
            html: self.html@,
        }
    }
}

/// Concatenation of five texts.
fn join5(a: &str, b: &str, c: &str, d: &str, e: &str) -> (r: String)
    ensures
        r@ == a@ + b@ + c@ + d@ + e@,
{
    let mut s = String::from_str(a);
    s.append(b);
    s.append(c);
    s.append(d);
    s.append(e);
    s
}

/// Fills the four slots of an e-mail body.
fn fill_body(parts: [&str; 5], destination: &str, start: &str, end: &str, link: &str) -> (r: String)
    ensures
        r@ == parts[0]@ + destination@ + parts[1]@ + start@ + parts[2]@ + end@ + parts[3]@ + link@ + parts[4]@,
{
    let first = join5(parts[0], destination, parts[1], start, parts[2]);
    let mut s = first;
    s.append(end);
    s.append(parts[3]);
    s.append(link);
    s.append(parts[4]);
    s
}

/// The e-mail that asks the owner of a new trip to confirm it, with the link
/// that confirms it.
pub fn trip_confirmation_mail(
    owner_name: &String,
    owner_email: &String,
    destination: &String,
    starts_at: &DateTime,
    ends_at: &DateTime,
    link: &String,
) -> (r: MailDraft)
    ensures
        r@ == spec_trip_confirmation_mail(owner_name@, owner_email@, destination@, starts_at@, ends_at@, link@),
{
    let start = starts_at.long_date_pt_br();
    let end = ends_at.long_date_pt_br();
    let subject = join5(TRIP_MAIL_SUBJECT_START, destination.as_str(), SUBJECT_DATE_SEPARATOR, start.as_str(), "");
    let html = fill_body(
        [TRIP_MAIL_OPENING, TRIP_MAIL_AFTER_DESTINATION, TRIP_MAIL_AFTER_START, TRIP_MAIL_AFTER_END, TRIP_MAIL_CLOSING],
        destination.as_str(),
        start.as_str(),
        end.as_str(),
        link.as_str(),
    );
    proof {
        reveal_strlit("");
        assert(subject@ == trip_mail_subject(destination@, date_text(starts_at@)));
    }
    MailDraft {
        from_name: String::from_str(SENDER_NAME),
        from_address: String::from_str(SENDER_ADDRESS),
        to_name: Some(owner_name.clone()),
        to_address: owner_email.clone(),
        subject,
        html,
    }
}

/// The e-mail that invites a participant to a trip, with the link that
/// confirms the participation.
pub fn invitation_mail(
    email: &String,
    destination: &String,
    starts_at: &DateTime,
    ends_at: &DateTime,
    link: &String,
) -> (r: MailDraft)
    ensures
        r@ == spec_invitation_mail(email@, destination@, starts_at@, ends_at@, link@),
{
    let start = starts_at.long_date_pt_br();
    let end = ends_at.long_date_pt_br();
    let subject = join5(INVITE_MAIL_SUBJECT_START, destination.as_str(), SUBJECT_DATE_SEPARATOR, start.as_str(), "");
    let html = fill_body(
        [INVITE_MAIL_OPENING, INVITE_MAIL_AFTER_DESTINATION, INVITE_MAIL_AFTER_START, INVITE_MAIL_AFTER_END, INVITE_MAIL_CLOSING],
        destination.as_str(),
        start.as_str(),
        end.as_str(),
        link.as_str(),
    );
    proof {
        reveal_strlit("");
        assert(subject@ == invite_mail_subject(destination@, date_text(starts_at@)));
    }
    MailDraft {
        from_name: String::from_str(SENDER_NAME),
        from_address: String::from_str(SENDER_ADDRESS),
        to_name: None,
        to_address: email.clone(),
        subject,
        html,
    }
}

} // verus!
