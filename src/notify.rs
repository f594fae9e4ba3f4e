//! The notifications that a change sends out, and their delivery one recipient
//! after another.
use crate::config::{Config, Email, Ping};
use crate::emails::{default_sender, default_sender_address};
use vstd::prelude::*;

verus! {

/// One notification to send.
#[derive(Clone, Debug)]
pub enum Delivery {
    /// A POST of `{"url": url, "message": message}` to `endpoint`.
    Webhook { endpoint: String, url: String, message: String },
    /// An email from `from` to `to` about the change of the page at `url`.
    Email { from: String, to: String, url: String, message: String },
}

/// A notification that could not be delivered: its recipient and the cause.
#[derive(Clone, Debug)]
pub struct DispatchError {
    pub recipient: String,
    pub cause: String,
}

impl View for DispatchError {
    type V = (Seq<char>, Seq<char>);

    open spec fn view(&self) -> (Seq<char>, Seq<char>) {
        (self.recipient@, self.cause@)
    }
}

/// The webhook endpoint or email address that a delivery goes to.
pub open spec fn recipient_of(d: Delivery) -> Seq<char> {
    match d {
        Delivery::Webhook { endpoint, .. } => endpoint@,
        Delivery::Email { to, .. } => to@,
    }
}

impl Delivery {
    /// A copy of this delivery.
    pub fn clone_delivery(&self) -> (r: Delivery)
        ensures
            r == *self,
    {
        match self {
            Delivery::Webhook { endpoint, url, message } => Delivery::Webhook {
                endpoint: endpoint.clone(),
                url: url.clone(),
                message: message.clone(),
            },
            Delivery::Email { from, to, url, message } => Delivery::Email {
                from: from.clone(),
                to: to.clone(),
                url: url.clone(),
                message: message.clone(),
            },
        }
    }

    /// The webhook endpoint or email address that this delivery goes to.
    pub fn recipient(&self) -> (r: &String)
        ensures
            r@ == recipient_of(*self),
    {
        match self {
            Delivery::Webhook { endpoint, .. } => endpoint,
            Delivery::Email { to, .. } => to,
        }
    }
}

/// The added text of a recipient, empty when none is configured.
pub open spec fn content_or_empty(c: Option<String>) -> Seq<char> {
    match c {
        Some(s) => s@,
        None => Seq::empty(),
    }
}

/// The configured sender address, or the default one.
pub open spec fn sender_or_default(s: Option<String>) -> Seq<char> {
    match s {
        Some(a) => a@,
        None => default_sender_address(),
    }
}

/// Whether `d` is the webhook call to `endpoint` about `url` with `message`.
pub open spec fn is_webhook(
    d: Delivery,
    endpoint: Seq<char>,
    url: Seq<char>,
    message: Seq<char>,
) -> bool {
    d matches Delivery::Webhook { endpoint: e, url: u, message: m } && e@ == endpoint && u@ == url
        && m@ == message
}

/// Whether `d` is the email from `from` to `to` about `url` with `message`.
pub open spec fn is_email(
    d: Delivery,
    from: Seq<char>,
    to: Seq<char>,
    url: Seq<char>,
    message: Seq<char>,
) -> bool {
    d matches Delivery::Email { from: f, to: t, url: u, message: m } && f@ == from && t@ == to
        && u@ == url && m@ == message
}

/// The pings of a configuration, none when absent.
pub open spec fn pings_of(c: Config) -> Seq<Ping> {
    match c.pings {
        Some(l) => l@,
        None => Seq::empty(),
    }
}

/// The emails of a configuration, none when absent.
pub open spec fn emails_of(c: Config) -> Seq<Email> {
    match c.emails {
        Some(l) => l@,
        None => Seq::empty(),
    }
}

/// Whether `plan` holds the notifications of a change of the page at `url`:
/// first a webhook call for each ping, then an email for each address, in the
/// configured order.
pub open spec fn is_plan_for(plan: Seq<Delivery>, c: Config, url: Seq<char>) -> bool {
    let pings = pings_of(c);
    let emails = emails_of(c);
    &&& plan.len() == pings.len() + emails.len()
    &&& forall|k: int|
        0 <= k < pings.len() ==> is_webhook(
            #[trigger] plan[k],
            pings[k].url@,
            url,
            content_or_empty(pings[k].content),
        )
    &&& forall|k: int|
        0 <= k < emails.len() ==> is_email(
            #[trigger] plan[pings.len() + k],
            sender_or_default(c.sender),
            emails[k].address@,
            url,
            content_or_empty(emails[k].content),
        )
}

/// The added text of a recipient, empty when none is configured.
fn content_text(c: &Option<String>) -> (r: String)
    ensures
        r@ == content_or_empty(*c),
{
    match c {
        Some(s) => s.clone(),
        None => String::new(),
    }
}

/// The notifications of a change of the page at `url` to every recipient of the
/// configuration.
pub fn plan_deliveries(config: &Config, url: &String) -> (r: Vec<Delivery>)
    ensures
        is_plan_for(r@, *config, url@),
{
    let mut plan: Vec<Delivery> = Vec::new();
    if let Some(pings) = &config.pings {
        let mut k: usize = 0;
        while k < pings.len()
            invariant
                k <= pings@.len(),
                pings_of(*config) == pings@,
                plan@.len() == k,
                forall|j: int|
                    0 <= j < k ==> is_webhook(
                        #[trigger] plan@[j],
                        pings@[j].url@,
                        url@,
                        content_or_empty(pings@[j].content),
                    ),
            decreases pings@.len() - k,
        {
            plan.push(
                Delivery::Webhook {
                    endpoint: pings[k].url.clone(),
                    url: url.clone(),
                    message: content_text(&pings[k].content),
                },
            );
            k = k + 1;
        }
    }
    let n = plan.len();
    let sender = match &config.sender {
        Some(s) => s.clone(),
        None => default_sender(),
    };
    if let Some(emails) = &config.emails {
        let mut k: usize = 0;
        while k < emails.len()
            invariant
                k <= emails@.len(),
                emails_of(*config) == emails@,
                n == pings_of(*config).len(),
                sender@ == sender_or_default(config.sender),
                plan@.len() == n + k,
                forall|j: int|
                    0 <= j < n ==> is_webhook(
                        #[trigger] plan@[j],
                        pings_of(*config)[j].url@,
                        url@,
                        content_or_empty(pings_of(*config)[j].content),
                    ),
                forall|j: int|
                    0 <= j < k ==> is_email(
                        #[trigger] plan@[n + j],
                        sender@,
                        emails@[j].address@,
                        url@,
                        content_or_empty(emails@[j].content),
                    ),
            decreases emails@.len() - k,
        {
            plan.push(
                Delivery::Email {
                    from: sender.clone(),
                    to: emails[k].address.clone(),
                    url: url.clone(),
                    message: content_text(&emails[k].content),
                },
            );
            assert(plan@[n + k as int] == plan@[plan@.len() - 1]);
            k = k + 1;
        }
    }
    plan
}

/// The errors left by the results of the first deliveries of `plan`, in turn:
/// one for each failed delivery, naming its recipient and the cause.
pub open spec fn failures(plan: Seq<Delivery>, results: Seq<Result<(), String>>) -> Seq<
    (Seq<char>, Seq<char>),
>
    decreases results.len(),
{
    if results.len() == 0 {
        Seq::empty()
    } else {
        let k = results.len() - 1;
        let earlier = failures(plan, results.drop_last());
        match results[k] {
            Ok(_) => earlier,
            Err(c) => earlier.push((recipient_of(plan[k]), c@)),
        }
    }
}

/// The number of failed results.
pub open spec fn failed_count(results: Seq<Result<(), String>>) -> nat
    decreases results.len(),
{
    if results.len() == 0 {
        0
    } else {
        failed_count(results.drop_last()) + if results.last() is Err {
            1nat
        } else {
            0nat
        }
    }
}

/// The delivery of a plan of notifications, one recipient after another, each
/// whatever became of the ones before it.
pub struct Dispatch {
    deliveries: Vec<Delivery>,
    next: usize,
    errors: Vec<DispatchError>,
    results: Ghost<Seq<Result<(), String>>>,
}

impl Dispatch {
    /// The notifications to deliver.
    pub closed spec fn plan(&self) -> Seq<Delivery> {
        self.deliveries@
    }

    /// The results of the deliveries made so far, in order.
    pub closed spec fn results(&self) -> Seq<Result<(), String>> {
        self.results@
    }

    /// The errors so far, in order.
    pub closed spec fn error_list(&self) -> Seq<(Seq<char>, Seq<char>)> {
        self.errors@.map_values(|e: DispatchError| e@)
    }

    /// The deliveries made are a prefix of the plan, and the errors are those
    /// that their results left.
    pub closed spec fn wf(&self) -> bool {
        &&& self.next == self.results@.len()
        &&& self.next <= self.deliveries@.len()
        &&& self.error_list() == failures(self.deliveries@, self.results@)
    }

    /// Whether every delivery of the plan has been made.
    pub open spec fn done(&self) -> bool {
        self.results().len() >= self.plan().len()
    }

    /// A dispatch of `deliveries`, none of them made yet.
    pub fn new(deliveries: Vec<Delivery>) -> (r: Dispatch)
        ensures
            r.wf(),
            r.plan() == deliveries@,
            r.results() == Seq::<Result<(), String>>::empty(),
    {
        let r = Dispatch { deliveries, next: 0, errors: Vec::new(), results: Ghost(Seq::empty()) };
        assert(r.error_list() =~= Seq::empty());
        r
    }

    /// The next delivery to make, if any is left.
    pub fn next_delivery(&self) -> (r: Option<&Delivery>)
        requires
            self.wf(),
        ensures
            r is None <==> self.done(),
            r matches Some(d) ==> *d == self.plan()[self.results().len() as int],
    {
        if self.next < self.deliveries.len() {
            Some(&self.deliveries[self.next])
        } else {
            None
        }
    }

    /// Records the result of the next delivery and moves on to the one after it,
    /// whether it failed or not. A failure is kept and returned as an error.
    pub fn record(&mut self, result: Result<(), String>) -> (r: Option<DispatchError>)
        requires
            old(self).wf(),
            !old(self).done(),
        ensures
            final(self).wf(),
            final(self).plan() == old(self).plan(),
            final(self).results() == old(self).results().push(result),
            match result {
                Ok(_) => r is None,
                Err(c) => r matches Some(e) && e@ == (
                    recipient_of(old(self).plan()[old(self).results().len() as int]),
                    c@,
                ),
            },
    {
        let ghost before = self.results@;
        let n = self.next;
        let len = self.deliveries.len();
        assert(n < len);
        let ghost old_errors = self.error_list();
        let r = match &result {
            Ok(_) => None,
            Err(c) => {
                let e = DispatchError {
                    recipient: self.deliveries[self.next].recipient().clone(),
                    cause: c.clone(),
                };
                self.errors.push(e.clone_error());
                Some(e)
            },
        };
        self.next = n + 1;
        self.results = Ghost(before.push(result));
        proof {
            assert(self.results@.drop_last() =~= before);
            if result is Err {
                assert(self.error_list() =~= old_errors.push(r->Some_0@));
            } else {
                assert(self.error_list() =~= old_errors);
            }
        }
        r
    }

    /// The errors so far: one for each failed delivery, in order.
    pub fn errors(&self) -> (r: &Vec<DispatchError>)
        requires
            self.wf(),
        ensures
            r@.map_values(|e: DispatchError| e@) == failures(self.plan(), self.results()),
    {
        &self.errors
    }
}

impl DispatchError {
    /// A copy of this error.
    pub fn clone_error(&self) -> (r: DispatchError)
        ensures
            r@ == self@,
    {
        DispatchError { recipient: self.recipient.clone(), cause: self.cause.clone() }
    }
}

/// A failure is reported for its own recipient and does not stop the others:
/// for results of the first deliveries of a plan, in turn, there is exactly one
/// error for each failed delivery, naming that delivery's recipient and cause,
/// and no other error.
pub proof fn lemma_failures_isolated(plan: Seq<Delivery>, results: Seq<Result<(), String>>)
    requires
        results.len() <= plan.len(),
    ensures
        failures(plan, results).len() == failed_count(results),
        forall|k: int|
            0 <= k < results.len() && results[k] is Err ==> failures(plan, results).contains(
                (recipient_of(plan[k]), (#[trigger] results[k])->Err_0@),
            ),
        forall|f: (Seq<char>, Seq<char>)|
            #[trigger] failures(plan, results).contains(f) ==> exists|k: int|
                0 <= k < results.len() && (#[trigger] results[k]) is Err && f == (
                    recipient_of(plan[k]),
                    results[k]->Err_0@,
                ),
    decreases results.len(),
{
    if results.len() > 0 {
        let k = results.len() - 1;
        let earlier = results.drop_last();
        lemma_failures_isolated(plan, earlier);
        let fe = failures(plan, earlier);
        let fr = failures(plan, results);
        assert forall|j: int|
            0 <= j < results.len() && results[j] is Err implies fr.contains(
            (recipient_of(plan[j]), (#[trigger] results[j])->Err_0@),
        ) by {
            if j < k {
                assert(earlier[j] == results[j]);
                let w = choose|i: int|
                    0 <= i < fe.len() && fe[i] == (recipient_of(plan[j]), results[j]->Err_0@);
                assert(fr[w] == fe[w]);
            } else {
                assert(fr[fr.len() - 1] == (recipient_of(plan[j]), results[j]->Err_0@));
            }
        }
        assert forall|f: (Seq<char>, Seq<char>)| #[trigger] fr.contains(f) implies exists|i: int|
            0 <= i < results.len() && (#[trigger] results[i]) is Err && f == (
                recipient_of(plan[i]),
                results[i]->Err_0@,
            ) by {
            let w = choose|i: int| 0 <= i < fr.len() && fr[i] == f;
            if w < fe.len() {
                assert(fe[w] == f);
                assert(fe.contains(f));
                let i = choose|i: int|
                    0 <= i < earlier.len() && (#[trigger] earlier[i]) is Err && f == (
                        recipient_of(plan[i]),
                        earlier[i]->Err_0@,
                    );
                assert(results[i] == earlier[i]);
            } else {
                assert(results[k] is Err);
            }
        }
    }
}

} // verus!
