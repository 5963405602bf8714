//! The registration flow: checking the form, and what follows the insert
//! and the delivery of the confirmation mail.
//!
//! The caller checks the shape of the form, inserts the account and sends
//! the mail; each step reports here what happened and is told what comes
//! next. An account that was created stays created when the mail cannot be
//! delivered.

use vstd::prelude::*;
use vstd::string::StringExecFns;
use crate::avatar::{avatar_base, avatar_url, md5_hex};
use crate::clock::{clock_time, current_timestamp};
use crate::reply::{OutcomeKind, Reply};
use crate::token::{is_token_for, TokenService};

verus! {

/// The registration form.
#[derive(Debug)]
pub struct Register {
    pub username: String,
    pub email: String,
    pub password: String,
    pub confirm_password: String,
}

impl Register {
    /// Whether the password and its confirmation are the same.
    pub fn match_password(&self) -> (same: bool)
        ensures
            same == (self.password@ == self.confirm_password@),
    {
        self.password == self.confirm_password
    }
}

/// The account to insert. The password hash is the caller's to add.
#[derive(Debug)]
pub struct NewUser {
    pub display_name: String,
    pub email: String,
    pub image_url: String,
}

/// What checking the form comes to.
#[derive(Debug)]
pub enum RegistrationStart {
    /// The form is refused with this answer; nothing is inserted.
    Rejected(Reply),
    /// The form is in order: insert this account.
    Insert(NewUser),
}

/// Where mail is sent from, and the host that confirmation links point to.
#[derive(Debug)]
pub struct MailSettings {
    pub from_name: String,
    pub from_email: String,
    pub host: String,
}

/// A mail to send.
#[derive(Debug)]
pub struct Mail {
    pub from: String,
    pub to: String,
    pub subject: String,
    pub body: String,
}

/// Why an insert did not go through.
#[derive(Clone, Copy, Debug, PartialEq, Eq, Structural)]
pub enum InsertFailure {
    /// The name or the address is held by an account already.
    Conflict,
    /// The storage failed for any other reason.
    Storage,
}

/// What follows the insert.
#[derive(Debug)]
pub enum RegistrationProgress {
    /// The account was not created; this is the answer.
    Rejected(Reply),
    /// The account was created: send this mail, and keep the number of
    /// rows for the answer.
    Deliver { mail: Mail, rows: u64 },
}

/// The answer to a registration, with the number it reports.
#[derive(Debug)]
pub struct RegistrationReply {
    pub reply: Reply,
    pub data: u64,
}

/// The sender line of outgoing mail: the name, then the address in angle
/// brackets.
pub open spec fn sender_line(from_name: Seq<char>, from_email: Seq<char>) -> Seq<char> {
    from_name + "<"@ + from_email + ">"@
}

/// The subject of the confirmation mail.
pub open spec fn confirmation_subject() -> Seq<char> {
    "Registration at Kunjika"@
}

/// The text of the confirmation mail for a user, with the link that
/// carries the token.
pub open spec fn confirmation_body(username: Seq<char>, host: Seq<char>, token: Seq<char>) -> Seq<
    char,
> {
    "Hi "@ + username
        + ",\n\nThank you for registering at Kunjika.\nYour email confirmation link is https://"@
        + host + "/confirm-email/"@ + token
        + ".\nThis email will expire in one day.\n\nThanks,\nShiv"@
}

impl Mail {
    /// Whether this is the confirmation mail of a registration that
    /// carries the token given.
    pub open spec fn confirms(
        self,
        username: Seq<char>,
        email: Seq<char>,
        settings: MailSettings,
        token: Seq<char>,
    ) -> bool {
        &&& self.from@ == sender_line(settings.from_name@, settings.from_email@)
        &&& self.to@ == email
        &&& self.subject@ == confirmation_subject()
        &&& self.body@ == confirmation_body(username, settings.host@, token)
    }
}

/// Checks the form. A form whose shape was found wrong is refused with
/// what was found; one whose password and confirmation differ is refused
/// too. Any other form is to be inserted, under the avatar reference
/// derived from its email address.
pub fn begin_registration(form: &Register, shape_error: Option<&str>) -> (start: RegistrationStart)
    ensures
        match shape_error {
            Some(found) => start matches RegistrationStart::Rejected(reply) && reply.says(
                400,
                OutcomeKind::InvalidInput,
                found@,
            ),
            None => if form.password@ != form.confirm_password@ {
                start matches RegistrationStart::Rejected(reply) && reply.says(
                    400,
                    OutcomeKind::InvalidInput,
                    "Passwords are bad!"@,
                )
            } else {
                start matches RegistrationStart::Insert(user) && user.display_name@
                    == form.username@ && user.email@ == form.email@ && user.image_url@
                    == avatar_base() + md5_hex(form.email@)
            },
        },
{
    match shape_error {
        Some(found) => RegistrationStart::Rejected(
            Reply::new(400, OutcomeKind::InvalidInput, found),
        ),
        None => {
            if !form.match_password() {
                RegistrationStart::Rejected(
                    Reply::new(400, OutcomeKind::InvalidInput, "Passwords are bad!"),
                )
            } else {
                RegistrationStart::Insert(
                    NewUser {
                        display_name: form.username.clone(),
                        email: form.email.clone(),
                        image_url: avatar_url(form.email.as_str()),
                    },
                )
            }
        },
    }
}

/// Writes the confirmation mail for a user, with the token given.
pub fn confirmation_mail(username: &str, email: &str, settings: &MailSettings, token: &str) -> (mail:
    Mail)
    ensures
        mail.confirms(username@, email@, *settings, token@),
{
    let mut from: String = settings.from_name.clone();
    from.append("<");
    from.append(settings.from_email.as_str());
    from.append(">");
    let mut body: String = String::from_str("Hi ");
    body.append(username);
    body.append(
        ",\n\nThank you for registering at Kunjika.\nYour email confirmation link is https://",
    );
    body.append(settings.host.as_str());
    body.append("/confirm-email/");
    body.append(token);
    body.append(".\nThis email will expire in one day.\n\nThanks,\nShiv");
    Mail {
        from,
        to: String::from_str(email),
        subject: String::from_str("Registration at Kunjika"),
        body,
    }
}

/// Whether what follows the insert is what its end calls for, with the
/// confirmation token issued at `now`. A conflict is answered as such, and
/// the answer does not say whether the name or the address was taken. Any
/// other failure of the storage is answered as a server error. In neither
/// case is a token signed or a mail due. After an insert the confirmation
/// mail is due, with the token for the email address issued at `now`.
pub open spec fn follows_insert(
    progress: RegistrationProgress,
    form: Register,
    inserted: Result<u64, InsertFailure>,
    settings: MailSettings,
    secret: Seq<u8>,
    now: int,
) -> bool {
    match inserted {
        Err(InsertFailure::Conflict) => progress matches RegistrationProgress::Rejected(reply)
            && reply.says(409, OutcomeKind::Conflict, "Either email or username is taken."@),
        Err(InsertFailure::Storage) => progress matches RegistrationProgress::Rejected(reply)
            && reply.is_server_error(),
        Ok(count) => progress matches RegistrationProgress::Deliver { mail, rows } && rows == count
            && exists|token: Seq<char>|
            mail.confirms(form.username@, form.email@, settings, token) && #[trigger] is_token_for(
                token,
                form.email@,
                now,
                secret,
            ),
    }
}

/// Decides what follows the insert, at the time `now`. `inserted` is the
/// number of rows the insert reported, or why it did not go through.
pub fn after_insert_at(
    form: &Register,
    inserted: Result<u64, InsertFailure>,
    settings: &MailSettings,
    tokens: &TokenService,
    now: i64,
) -> (progress: RegistrationProgress)
    ensures
        follows_insert(progress, *form, inserted, *settings, tokens.secret(), now as int),
{
    match inserted {
        Err(InsertFailure::Conflict) => RegistrationProgress::Rejected(
            Reply::new(409, OutcomeKind::Conflict, "Either email or username is taken."),
        ),
        Err(InsertFailure::Storage) => RegistrationProgress::Rejected(Reply::server_error()),
        Ok(rows) => {
            let token: String = tokens.sign_at(form.email.as_str(), now);
            RegistrationProgress::Deliver {
                mail: confirmation_mail(
                    form.username.as_str(),
                    form.email.as_str(),
                    settings,
                    token.as_str(),
                ),
                rows,
            }
        },
    }
}

/// Decides what follows the insert, now. The time of issue is read from
/// the clock, so the contract speaks of some time that the clock can give.
pub fn after_insert(
    form: &Register,
    inserted: Result<u64, InsertFailure>,
    settings: &MailSettings,
    tokens: &TokenService,
) -> (progress: RegistrationProgress)
    ensures
        exists|now: i64|
            clock_time(now as int) && #[trigger] follows_insert(
                progress,
                *form,
                inserted,
                *settings,
                tokens.secret(),
                now as int,
            ),
{
    let now: i64 = current_timestamp();
    after_insert_at(form, inserted, settings, tokens, now)
}

/// The answer once the mail was handed over. The account exists either
/// way: a mail that could not be delivered is reported as such, and
/// nothing is undone.
pub fn after_delivery(rows: u64, delivered: bool) -> (answer: RegistrationReply)
    ensures
        delivered ==> answer.reply.says(200, OutcomeKind::Success, "ok"@) && answer.data == rows,
        !delivered ==> answer.reply.says(502, OutcomeKind::DeliveryError, "ok"@) && answer.data
            == 0,
{
    if delivered {
        RegistrationReply { reply: Reply::new(200, OutcomeKind::Success, "ok"), data: rows }
    } else {
        RegistrationReply { reply: Reply::new(502, OutcomeKind::DeliveryError, "ok"), data: 0 }
    }
}

} // verus!
