//! The monitor's configuration: what to watch, whom to tell, and how often.
use vstd::prelude::*;

verus! {

/// An address to email on changes, with an optional text to add to each message.
#[derive(Clone, Debug)]
pub struct Email {
    pub address: String,
    pub content: Option<String>,
}

/// A webhook to call on changes, with an optional text to send with each call.
#[derive(Clone, Debug)]
pub struct Ping {
    pub url: String,
    pub content: Option<String>,
}

/// Everything the monitor needs: the pages, the delay between passes in minutes,
/// the recipients of notifications and the sender address of emails.
#[derive(Clone, Debug)]
pub struct Config {
    pub verbose: Option<bool>,
    pub timeout: u32,
    pub urls: Vec<String>,
    pub emails: Option<Vec<Email>>,
    pub pings: Option<Vec<Ping>>,
    pub sender: Option<String>,
}

/// Values given on the command line, which override or add to a configuration.
#[derive(Clone, Debug)]
pub struct Overrides {
    pub verbose: bool,
    pub timeout: Option<String>,
    pub urls: Vec<String>,
    pub emails: Vec<String>,
    pub pings: Vec<String>,
    pub sender: Option<String>,
}

/// Why overrides could not be applied.
#[derive(Clone, Copy, Debug, PartialEq, Eq, Structural)]
pub enum ConfigError {
    /// The delay is not a decimal number that fits in 32 bits.
    InvalidTimeout,
}

/// Whether `c` is a decimal digit.
pub open spec fn is_digit(c: char) -> bool {
    '0' <= c && c <= '9'
}

/// The number that a string of decimal digits writes.
pub open spec fn digits_value(s: Seq<char>) -> nat
    decreases s.len(),
{
    if s.len() == 0 {
        0
    } else {
        digits_value(s.drop_last()) * 10 + ((s.last() as u32) - ('0' as u32)) as nat
    }
}

/// The text without its optional leading `+`.
pub open spec fn unsigned_part(s: Seq<char>) -> Seq<char> {
    if s.len() > 0 && s[0] == '+' {
        s.drop_first()
    } else {
        s
    }
}

/// The `u32` that `s` writes in decimal, with an optional leading `+`, if any.
pub open spec fn u32_text_value(s: Seq<char>) -> Option<u32> {
    let d = unsigned_part(s);
    if d.len() > 0 && (forall|k: int| 0 <= k < d.len() ==> is_digit(#[trigger] d[k]))
        && digits_value(d) <= u32::MAX {
        Some(digits_value(d) as u32)
    } else {
        None
    }
}

/// Relies on `str::parse::<u32>`: an optional `+` followed by one or more decimal
/// digits whose value fits in a `u32`; any other text is an error.
#[verifier::external_body]
fn parse_u32(s: &str) -> (r: Option<u32>)
    ensures
        r == u32_text_value(s@),
{
    s.parse::<u32>().ok()
}

/// The entries of an optional list, none when it is absent.
pub open spec fn listed_or_none<T>(v: Option<Vec<T>>) -> Seq<T> {
    match v {
        Some(l) => l@,
        None => Seq::empty(),
    }
}

/// Emails to the given addresses, without added text.
pub open spec fn plain_emails(addresses: Seq<String>) -> Seq<Email> {
    addresses.map_values(|a: String| Email { address: a, content: None })
}

/// Pings of the given webhooks, without added text.
pub open spec fn plain_pings(urls: Seq<String>) -> Seq<Ping> {
    urls.map_values(|u: String| Ping { url: u, content: None })
}

/// Appends emails to the given addresses, without added text.
fn append_emails(list: &mut Vec<Email>, addresses: Vec<String>)
    ensures
        final(list)@ == old(list)@ + plain_emails(addresses@),
{
    let mut k: usize = 0;
    let ghost start = list@;
    while k < addresses.len()
        invariant
            k <= addresses@.len(),
            list@ == start + plain_emails(addresses@.subrange(0, k as int)),
        decreases addresses@.len() - k,
    {
        list.push(Email { address: addresses[k].clone(), content: None });
        assert(addresses@.subrange(0, k + 1) =~= addresses@.subrange(0, k as int).push(
            addresses@[k as int],
        ));
        assert(plain_emails(addresses@.subrange(0, k + 1)) =~= plain_emails(
            addresses@.subrange(0, k as int),
        ).push(Email { address: addresses@[k as int], content: None }));
        k = k + 1;
    }
    assert(addresses@.subrange(0, addresses@.len() as int) =~= addresses@);
}

/// Appends pings of the given webhooks, without added text.
fn append_pings(list: &mut Vec<Ping>, urls: Vec<String>)
    ensures
        final(list)@ == old(list)@ + plain_pings(urls@),
{
    let mut k: usize = 0;
    let ghost start = list@;
    while k < urls.len()
        invariant
            k <= urls@.len(),
            list@ == start + plain_pings(urls@.subrange(0, k as int)),
        decreases urls@.len() - k,
    {
        list.push(Ping { url: urls[k].clone(), content: None });
        assert(urls@.subrange(0, k + 1) =~= urls@.subrange(0, k as int).push(urls@[k as int]));
        assert(plain_pings(urls@.subrange(0, k + 1)) =~= plain_pings(
            urls@.subrange(0, k as int),
        ).push(Ping { url: urls@[k as int], content: None }));
        k = k + 1;
    }
    assert(urls@.subrange(0, urls@.len() as int) =~= urls@);
}

impl Config {
    /// The configuration used when no file is given: not verbose, an hour between
    /// passes, and no pages, recipients or sender.
    pub fn from_defaults() -> (r: Config)
        ensures
            r.verbose == Some(false),
            r.timeout == 60,
            r.urls@.len() == 0,
            r.emails is None,
            r.pings is None,
            r.sender is None,
    {
        Config {
            verbose: Some(false),
            timeout: 60,
            urls: Vec::new(),
            emails: None,
            pings: None,
            sender: None,
        }
    }

    /// Applies command-line values: a set verbose flag, delay or sender replaces
    /// the configured one, and pages, emails and pings are added after the
    /// configured ones. A delay that is not a `u32` in decimal is an error, and
    /// then nothing is changed.
    pub fn apply(&mut self, o: Overrides) -> (r: Result<(), ConfigError>)
        ensures
            r is Err <==> (o.timeout matches Some(t) && u32_text_value(t@) is None),
            r is Err ==> *final(self) == *old(self),
            r is Ok ==> {
                &&& final(self).verbose == (if o.verbose {
                    Some(true)
                } else {
                    old(self).verbose
                })
                &&& final(self).timeout == (match o.timeout {
                    Some(t) => u32_text_value(t@)->Some_0,
                    None => old(self).timeout,
                })
                &&& final(self).urls@ == old(self).urls@ + o.urls@
                &&& o.emails@.len() == 0 ==> final(self).emails == old(self).emails
                &&& o.emails@.len() > 0 ==> (final(self).emails matches Some(l) && l@
                    == listed_or_none(old(self).emails) + plain_emails(o.emails@))
                &&& o.pings@.len() == 0 ==> final(self).pings == old(self).pings
                &&& o.pings@.len() > 0 ==> (final(self).pings matches Some(l) && l@
                    == listed_or_none(old(self).pings) + plain_pings(o.pings@))
                &&& final(self).sender == (match o.sender {
                    Some(s) => Some(s),
                    None => old(self).sender,
                })
            },
    {
        let mut timeout = self.timeout;
        match &o.timeout {
            Some(t) => match parse_u32(t.as_str()) {
                Some(n) => {
                    timeout = n;
                },
                None => {
                    return Err(ConfigError::InvalidTimeout);
                },
            },
            None => {},
        }
        if o.verbose {
            self.verbose = Some(true);
        }
        self.timeout = timeout;
        let Overrides { verbose: _, timeout: _, urls, emails, pings, sender } = o;
        let mut urls = urls;
        self.urls.append(&mut urls);
        if emails.len() > 0 {
            let mut list = match self.emails.take() {
                Some(l) => l,
                None => Vec::new(),
            };
            append_emails(&mut list, emails);
            self.emails = Some(list);
        }
        if pings.len() > 0 {
            let mut list = match self.pings.take() {
                Some(l) => l,
                None => Vec::new(),
            };
            append_pings(&mut list, pings);
            self.pings = Some(list);
        }
        if let Some(s) = sender {
            self.sender = Some(s);
        }
        Ok(())
    }
}

} // verus!
