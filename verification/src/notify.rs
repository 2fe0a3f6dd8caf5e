//! Notification mail for accepted submissions: what is written, to whom,
//! and whether anything is sent at all.

use vstd::prelude::*;
use vstd::string::StringExecFns;
use crate::config::AppConfig;
use crate::models::ContactSubmission;
use crate::models::WaitlistEntry;
use crate::text::owned_or;
use crate::text::text_or;
use crate::timefmt::formatted_text;

verus! {

/// The relay and the mailboxes of a notification.
#[derive(Debug, Clone, PartialEq, Eq)]
pub struct MailSettings {
    pub host: String,
    pub port: u16,
    pub username: String,
    pub password: String,
    pub recipient: String,
}

/// A notification ready to be handed to the relay.
#[derive(Debug, Clone, PartialEq, Eq)]
pub struct OutgoingEmail {
    pub settings: MailSettings,
    pub from: String,
    pub to: String,
    pub subject: String,
    pub body: String,
}

/// Subject and body of a notification.
#[derive(Debug, Clone, PartialEq, Eq)]
pub struct Notification {
    pub subject: String,
    pub body: String,
}

/// Mail is sent only where host, port, user name, password and recipient
/// are all configured.
pub open spec fn mail_configured(c: AppConfig) -> bool {
    &&& c.smtp_host is Some
    &&& c.smtp_port is Some
    &&& c.smtp_username is Some
    &&& c.smtp_password is Some
    &&& c.admin_email is Some
}

/// The settings `m` are those of the configuration `c`.
pub open spec fn settings_of(m: MailSettings, c: AppConfig) -> bool {
    &&& mail_configured(c)
    &&& m.host@ == c.smtp_host->0@
    &&& m.port == c.smtp_port->0
    &&& m.username@ == c.smtp_username->0@
    &&& m.password@ == c.smtp_password->0@
    &&& m.recipient@ == c.admin_email->0@
}

/// The pattern under which a notification shows a date.
pub open spec fn date_pattern() -> Seq<char> {
    "%Y-%m-%d %H:%M UTC"@
}

/// The text shown for an optional field that was left out.
pub open spec fn blank() -> Seq<char> {
    "—"@
}

/// The sender's mailbox.
pub open spec fn sender_of(username: Seq<char>) -> Seq<char> {
    "Terroir AI <"@ + username + ">"@
}

pub open spec fn contact_subject(s: ContactSubmission) -> Seq<char> {
    "New contact: "@ + s.name@ + " ("@ + s.email@ + ")"@
}

pub open spec fn contact_body(s: ContactSubmission, date: Seq<char>, base_url: Seq<char>) -> Seq<
    char,
> {
    "New contact form submission on Terroir AI\n\nName: "@ + s.name@ + "\nEmail: "@ + s.email@
        + "\nCompany: "@ + text_or(s.company, blank()) + "\nPhone: "@ + text_or(s.phone, blank())
        + "\nAcreage: "@ + text_or(s.acreage, blank()) + "\nCrop Type: "@ + text_or(
        s.crop_type,
        blank(),
    ) + "\nSource: "@ + s.source@ + "\nDate: "@ + date + "\n\nMessage:\n"@ + s.message@
        + "\n\n---\nView all submissions: "@ + base_url + "/admin"@
}

pub open spec fn waitlist_subject(e: WaitlistEntry) -> Seq<char> {
    "New pilot signup: "@ + e.email@
}

pub open spec fn waitlist_body(e: WaitlistEntry, date: Seq<char>, base_url: Seq<char>) -> Seq<
    char,
> {
    "New waitlist/pilot signup on Terroir AI\n\nEmail: "@ + e.email@ + "\nName: "@ + text_or(
        e.name,
        blank(),
    ) + "\nCompany: "@ + text_or(e.company, blank()) + "\nInterest: "@ + e.interest@
        + "\nDate: "@ + date + "\n\n---\nView all submissions: "@ + base_url + "/admin"@
}

/// The mail `m` carries the notification `(subject, body)` under the
/// settings of `c`.
pub open spec fn carries(m: OutgoingEmail, c: AppConfig, subject: Seq<char>, body: Seq<char>) -> bool {
    &&& settings_of(m.settings, c)
    &&& m.from@ == sender_of(c.smtp_username->0@)
    &&& m.to@ == c.admin_email->0@
    &&& m.subject@ == subject
    &&& m.body@ == body
}

/// The mail settings of a configuration, if it has all of them.
pub fn mail_settings(config: &AppConfig) -> (r: Option<MailSettings>)
    ensures
        r is Some <==> mail_configured(*config),
        r matches Some(m) ==> settings_of(m, *config),
{
    match (
        &config.smtp_host,
        config.smtp_port,
        &config.smtp_username,
        &config.smtp_password,
        &config.admin_email,
    ) {
        (Some(host), Some(port), Some(username), Some(password), Some(to)) => Some(
            MailSettings {
                host: host.clone(),
                port,
                username: username.clone(),
                password: password.clone(),
                recipient: to.clone(),
            },
        ),
        _ => None,
    }
}

/// Writes the notification for a contact submission, given its date as
/// text.
pub fn contact_notification(submission: &ContactSubmission, date: &str, base_url: &str) -> (n:
    Notification)
    ensures
        n.subject@ == contact_subject(*submission),
        n.body@ == contact_body(*submission, date@, base_url@),
{
    let mut subject = String::from_str("New contact: ");
    subject.append(submission.name.as_str());
    subject.append(" (");
    subject.append(submission.email.as_str());
    subject.append(")");
    let company = owned_or(&submission.company, "—");
    let phone = owned_or(&submission.phone, "—");
    let acreage = owned_or(&submission.acreage, "—");
    let crop_type = owned_or(&submission.crop_type, "—");
    let mut body = String::from_str("New contact form submission on Terroir AI\n\nName: ");
    body.append(submission.name.as_str());
    body.append("\nEmail: ");
    body.append(submission.email.as_str());
    body.append("\nCompany: ");
    body.append(company.as_str());
    body.append("\nPhone: ");
    body.append(phone.as_str());
    body.append("\nAcreage: ");
    body.append(acreage.as_str());
    body.append("\nCrop Type: ");
    body.append(crop_type.as_str());
    body.append("\nSource: ");
    body.append(submission.source.as_str());
    body.append("\nDate: ");
    body.append(date);
    body.append("\n\nMessage:\n");
    body.append(submission.message.as_str());
    body.append("\n\n---\nView all submissions: ");
    body.append(base_url);
    body.append("/admin");
    Notification { subject, body }
}

/// Writes the notification for a waitlist entry, given its date as text.
pub fn waitlist_notification(entry: &WaitlistEntry, date: &str, base_url: &str) -> (n:
    Notification)
    ensures
        n.subject@ == waitlist_subject(*entry),
        n.body@ == waitlist_body(*entry, date@, base_url@),
{
    let mut subject = String::from_str("New pilot signup: ");
    subject.append(entry.email.as_str());
    let name = owned_or(&entry.name, "—");
    let company = owned_or(&entry.company, "—");
    let mut body = String::from_str("New waitlist/pilot signup on Terroir AI\n\nEmail: ");
    body.append(entry.email.as_str());
    body.append("\nName: ");
    body.append(name.as_str());
    body.append("\nCompany: ");
    body.append(company.as_str());
    body.append("\nInterest: ");
    body.append(entry.interest.as_str());
    body.append("\nDate: ");
    body.append(date);
    body.append("\n\n---\nView all submissions: ");
    body.append(base_url);
    body.append("/admin");
    Notification { subject, body }
}

/// Addresses a notification, or drops it where mail is not configured.
pub fn send_email(config: &AppConfig, notification: Notification) -> (r: Option<OutgoingEmail>)
    ensures
        r is Some <==> mail_configured(*config),
        r matches Some(m) ==> carries(m, *config, notification.subject@, notification.body@),
{
    match mail_settings(config) {
        None => None,
        Some(settings) => {
            let mut from = String::from_str("Terroir AI <");
            from.append(settings.username.as_str());
            from.append(">");
            let to = settings.recipient.clone();
            Some(
                OutgoingEmail {
                    settings,
                    from,
                    to,
                    subject: notification.subject,
                    body: notification.body,
                },
            )
        },
    }
}

/// The mail that announces a contact submission, or nothing where mail is
/// not configured.
pub fn notify_contact(config: &AppConfig, submission: &ContactSubmission) -> (r: Option<
    OutgoingEmail,
>)
    ensures
        r is Some <==> mail_configured(*config),
        r matches Some(m) ==> carries(
            m,
            *config,
            contact_subject(*submission),
            contact_body(
                *submission,
                formatted_text(submission.created_at, date_pattern()),
                config.app_base_url@,
            ),
        ),
{
    let date = submission.created_at.format("%Y-%m-%d %H:%M UTC");
    let notification = contact_notification(
        submission,
        date.as_str(),
        config.app_base_url.as_str(),
    );
    send_email(config, notification)
}

/// The mail that announces a waitlist entry, or nothing where mail is not
/// configured.
pub fn notify_waitlist(config: &AppConfig, entry: &WaitlistEntry) -> (r: Option<OutgoingEmail>)
    ensures
        r is Some <==> mail_configured(*config),
        r matches Some(m) ==> carries(
            m,
            *config,
            waitlist_subject(*entry),
            waitlist_body(
                *entry,
                formatted_text(entry.created_at, date_pattern()),
                config.app_base_url@,
            ),
        ),
{
    let date = entry.created_at.format("%Y-%m-%d %H:%M UTC");
    let notification = waitlist_notification(entry, date.as_str(), config.app_base_url.as_str());
    send_email(config, notification)
}

} // verus!
