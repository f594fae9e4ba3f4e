//! Email notifications: the addresses they may use and the text they carry.
use lettre::EmailAddress;
use vstd::prelude::*;
use vstd::string::StringExecFns;

verus! {

/// Whether lettre takes `s` as an email address.
pub uninterp spec fn address_accepted(s: Seq<char>) -> bool;

/// Whether `s` ends in `localhost`.
pub open spec fn ends_with_localhost(s: Seq<char>) -> bool {
    let l = seq!['l', 'o', 'c', 'a', 'l', 'h', 'o', 's', 't'];
    s.len() >= l.len() && s.subrange(s.len() - l.len(), s.len() as int) == l
}

/// Relies on `lettre::EmailAddress::new`: it takes an address that passes its
/// syntax check, and any address that ends in `localhost`.
#[verifier::external_body]
fn accepts_address(s: &String) -> (r: bool)
    ensures
        r == address_accepted(s@),
        ends_with_localhost(s@) ==> r,
{
    EmailAddress::new(s.clone()).is_ok()
}

/// The sender address used when none is configured: `wbmrs@localhost`.
pub open spec fn default_sender_address() -> Seq<char> {
    seq!['w', 'b', 'm', 'r', 's', '@', 'l', 'o', 'c', 'a', 'l', 'h', 'o', 's', 't']
}

/// The sender address used when none is configured.
pub fn default_sender() -> (r: String)
    ensures
        r@ == default_sender_address(),
        ends_with_localhost(r@),
{
    let r = String::from_str("wbmrs@localhost");
    proof {
        reveal_strlit("wbmrs@localhost");
        assert(r@.subrange(r@.len() - 9, r@.len() as int) =~= seq![
            'l',
            'o',
            'c',
            'a',
            'l',
            'h',
            'o',
            's',
            't',
        ]);
    }
    r
}

/// An email ready for a mail transport.
#[derive(Clone, Debug)]
pub struct Mail {
    pub from: String,
    pub to: Vec<String>,
    pub subject: String,
    pub body: String,
}

/// Why an email could not be composed.
#[derive(Clone, Copy, Debug, PartialEq, Eq, Structural)]
pub enum MailError {
    /// The sender address is not a valid email address.
    InvalidSender,
    /// There is no recipient.
    NoRecipient,
    /// A recipient address is not a valid email address.
    InvalidRecipient,
}

impl MailError {
    /// A description of the error.
    pub fn describe(&self) -> (r: String)
        ensures
            r@ == match self {
                MailError::InvalidSender => "invalid sender address"@,
                MailError::NoRecipient => "no recipient"@,
                MailError::InvalidRecipient => "invalid recipient address"@,
            },
    {
        match self {
            MailError::InvalidSender => String::from_str("invalid sender address"),
            MailError::NoRecipient => String::from_str("no recipient"),
            MailError::InvalidRecipient => String::from_str("invalid recipient address"),
        }
    }
}

/// The subject of the email about a change of the page at `url`.
pub open spec fn subject_for(url: Seq<char>) -> Seq<char> {
    "update-"@ + url
}

/// The body of the email about a change of the page at `url`, with the
/// recipient's added text.
pub open spec fn body_for(url: Seq<char>, message: Seq<char>) -> Seq<char> {
    "Webpage at "@ + url + " has been updated.\n"@ + message
}

/// Whether every address in `to` is accepted.
pub open spec fn all_accepted(to: Seq<String>) -> bool {
    forall|i: int| 0 <= i < to.len() ==> address_accepted(#[trigger] to[i]@)
}

/// Whether every address in `to` is accepted, checked one by one.
fn all_recipients_accepted(to: &Vec<String>) -> (r: bool)
    ensures
        r == all_accepted(to@),
{
    let mut i: usize = 0;
    while i < to.len()
        invariant
            i <= to@.len(),
            forall|k: int| 0 <= k < i ==> address_accepted(#[trigger] to@[k]@),
        decreases to@.len() - i,
    {
        if !accepts_address(&to[i]) {
            return false;
        }
        i = i + 1;
    }
    true
}

/// Composes the email from `from` to `to` about a change of the page at `url`,
/// with `message` added to the body. The sender, then the list of recipients,
/// then each recipient is checked, and the first failing check is the error.
pub fn compose(from: &String, to: &Vec<String>, message: &str, url: &str) -> (r: Result<
    Mail,
    MailError,
>)
    ensures
        r == Err::<Mail, MailError>(MailError::InvalidSender) <==> !address_accepted(from@),
        r == Err::<Mail, MailError>(MailError::NoRecipient) <==> address_accepted(from@)
            && to@.len() == 0,
        r == Err::<Mail, MailError>(MailError::InvalidRecipient) <==> address_accepted(from@)
            && to@.len() > 0 && !all_accepted(to@),
        r matches Ok(m) ==> {
            &&& m.from@ == from@
            &&& m.to@ == to@
            &&& m.subject@ == subject_for(url@)
            &&& m.body@ == body_for(url@, message@)
        },
{
    if !accepts_address(from) {
        return Err(MailError::InvalidSender);
    }
    if to.len() == 0 {
        return Err(MailError::NoRecipient);
    }
    if !all_recipients_accepted(to) {
        return Err(MailError::InvalidRecipient);
    }
    let subject = String::from_str("update-").concat(url);
    let body = String::from_str("Webpage at ").concat(url).concat(" has been updated.\n").concat(
        message,
    );
    Ok(Mail { from: from.clone(), to: to.clone(), subject, body })
}

} // verus!
