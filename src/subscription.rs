//! The licence state: a free trial or a lifetime purchase, with its consistency rules.
//! Times are milliseconds since the Unix epoch.
use vstd::prelude::*;
use crate::i18n::{message_text, t, Language};

verus! {

/// Milliseconds in an hour.
pub const HOUR_MS: i64 = 3_600_000;
/// Milliseconds in a day.
pub const DAY_MS: i64 = 86_400_000;
/// Length of the free trial: three days, in milliseconds.
pub const TRIAL_MS: i64 = 259_200_000;

/// What was bought.
#[derive(Debug, Clone, Copy, PartialEq, Eq, Structural)]
pub enum SubscriptionPlan {
    Free,
    /// A one-time purchase that never expires.
    Lifetime,
}

/// Where the licence stands.
#[derive(Debug, Clone, Copy, PartialEq, Eq, Structural)]
pub enum SubscriptionStatus {
    Trial,
    Active,
    Expired,
    Cancelled,
}

/// The licence of this installation.
#[derive(Debug, Clone)]
pub struct Subscription {
    pub plan: SubscriptionPlan,
    pub status: SubscriptionStatus,
    pub trial_start_date: Option<i64>,
    pub subscription_start_date: Option<i64>,
    pub subscription_end_date: Option<i64>,
    pub last_check_date: i64,
    pub device_id: String,
    pub apple_receipt_data: Option<String>,
    pub apple_transaction_id: Option<String>,
    pub auto_renew_enabled: bool,
    pub creem_session_id: Option<String>,
    pub creem_transaction_id: Option<String>,
    pub webhook_server_url: String,
    pub package_id: String,
}

/// The server that payments go through, unless configured otherwise.
pub const DEFAULT_WEBHOOK_SERVER_URL: &'static str = "https://filesortify.picasso-designs.com";
/// The product package sold.
pub const DEFAULT_PACKAGE_ID: &'static str = "cme9f2aum0000uph23ghk00sd";

/// Whole days in a span of milliseconds that has not run out; nothing once it has.
pub open spec fn days_left(span: int) -> int {
    if span > 0 {
        span / (DAY_MS as int)
    } else {
        0
    }
}

/// The fields agree with the status: an active licence has a start, no end when it is
/// lifetime, and a transaction; a trial has a start.
pub open spec fn consistent(s: Subscription) -> bool {
    match s.status {
        SubscriptionStatus::Active => s.subscription_start_date is Some
            && !(s.plan == SubscriptionPlan::Lifetime && s.subscription_end_date is Some)
            && (s.creem_transaction_id is Some || s.apple_transaction_id is Some),
        SubscriptionStatus::Trial => s.trial_start_date is Some,
        _ => true,
    }
}

/// The trial runs at `now`: the status is Trial and fewer than three days passed since it began.
pub open spec fn trial_running(s: Subscription, now: i64) -> bool {
    match s.trial_start_date {
        Some(start) => (now as int) < start + TRIAL_MS && s.status == SubscriptionStatus::Trial,
        None => false,
    }
}

/// A lifetime purchase is active.
pub open spec fn purchase_active(s: Subscription) -> bool {
    s.status == SubscriptionStatus::Active && s.plan == SubscriptionPlan::Lifetime
}

/// Stored data is plausible at `now`: consistent, with no start in the future, and a trial
/// that began no more than 365 whole days ago.
pub open spec fn plausible(s: Subscription, now: i64) -> bool {
    &&& consistent(s)
    &&& match s.trial_start_date {
        Some(start) => start <= now && now - start < 366 * DAY_MS,
        None => true,
    }
    &&& match s.subscription_start_date {
        Some(start) => start <= now,
        None => true,
    }
}

/// A refresh is due at `now`: a day has passed since the last check, or the licence ends
/// within 49 hours and an hour has passed since the last check.
pub open spec fn refresh_due(s: Subscription, now: i64) -> bool {
    let since = now - s.last_check_date;
    since >= 24 * HOUR_MS || match s.subscription_end_date {
        Some(end) => end - now < 49 * HOUR_MS && since >= HOUR_MS,
        None => false,
    }
}

impl Subscription {
    /// A licence for device `device_id` whose trial clock starts at `now`; its status is
    /// Expired until a trial or a purchase is recorded.
    pub fn new(device_id: String, now: i64) -> (r: Self)
        ensures
            r.plan == SubscriptionPlan::Free,
            r.status == SubscriptionStatus::Expired,
            r.trial_start_date == Some(now),
            r.subscription_start_date is None,
            r.subscription_end_date is None,
            r.last_check_date == now,
            r.device_id == device_id,
            r.apple_receipt_data is None,
            r.apple_transaction_id is None,
            !r.auto_renew_enabled,
            r.creem_session_id is None,
            r.creem_transaction_id is None,
            r.webhook_server_url@ == DEFAULT_WEBHOOK_SERVER_URL@,
            r.package_id@ == DEFAULT_PACKAGE_ID@,
    {
        Subscription {
            plan: SubscriptionPlan::Free,
            status: SubscriptionStatus::Expired,
            trial_start_date: Some(now),
            subscription_start_date: None,
            subscription_end_date: None,
            last_check_date: now,
            device_id,
            apple_receipt_data: None,
            apple_transaction_id: None,
            auto_renew_enabled: false,
            creem_session_id: None,
            creem_transaction_id: None,
            webhook_server_url: String::from_str(DEFAULT_WEBHOOK_SERVER_URL),
            package_id: String::from_str(DEFAULT_PACKAGE_ID),
        }
    }

    /// Whether the trial runs at `now`.
    pub fn is_trial_active(&self, now: i64) -> (r: bool)
        ensures
            r == trial_running(*self, now),
    {
        match self.trial_start_date {
            Some(start) => (now as i128) < (start as i128) + (TRIAL_MS as i128)
                && self.status == SubscriptionStatus::Trial,
            None => false,
        }
    }

    /// Whether a lifetime purchase is active.
    pub fn is_subscription_active(&self) -> (r: bool)
        ensures
            r == purchase_active(*self),
    {
        self.status == SubscriptionStatus::Active && self.plan == SubscriptionPlan::Lifetime
    }

    /// Whether the fields agree with the status.
    pub fn verify_subscription_integrity(&self) -> (r: bool)
        ensures
            r == consistent(*self),
    {
        match self.status {
            SubscriptionStatus::Active => {
                if self.subscription_start_date.is_none() {
                    return false;
                }
                if self.plan == SubscriptionPlan::Lifetime && self.subscription_end_date.is_some() {
                    return false;
                }
                if self.creem_transaction_id.is_none() && self.apple_transaction_id.is_none() {
                    return false;
                }
                true
            },
            SubscriptionStatus::Trial => self.trial_start_date.is_some(),
            _ => true,
        }
    }

    /// Whether the stored data is plausible at `now`.
    pub fn verify_data_integrity(&self, now: i64) -> (r: bool)
        ensures
            r == plausible(*self, now),
    {
        if !self.verify_subscription_integrity() {
            return false;
        }
        match self.trial_start_date {
            Some(start) => {
                if start > now {
                    return false;
                }
                if (now as i128) - (start as i128) >= 366 * (DAY_MS as i128) {
                    return false;
                }
            },
            None => {},
        }
        match self.subscription_start_date {
            Some(start) => start <= now,
            None => true,
        }
    }

    /// Whether the application may be used at `now`: consistent data, and a running trial
    /// or an active purchase.
    pub fn can_use_app(&self, now: i64) -> (r: bool)
        ensures
            r == (consistent(*self) && (trial_running(*self, now) || purchase_active(*self))),
    {
        if !self.verify_subscription_integrity() {
            return false;
        }
        self.is_trial_active(now) || self.is_subscription_active()
    }

    /// Whole days left of the trial at `now`; 0 once it is over or when it never began.
    pub fn get_trial_days_remaining(&self, now: i64) -> (r: i64)
        ensures
            r == match self.trial_start_date {
                Some(start) => days_left(start + TRIAL_MS - now),
                None => 0,
            },
    {
        match self.trial_start_date {
            Some(start) => {
                let span: i128 = (start as i128) + (TRIAL_MS as i128) - (now as i128);
                if span > 0 {
                    (span / (DAY_MS as i128)) as i64
                } else {
                    0
                }
            },
            None => 0,
        }
    }

    /// Whole days left until the licence ends at `now`; 0 once it ended or when it never ends.
    pub fn get_subscription_days_remaining(&self, now: i64) -> (r: i64)
        ensures
            r == match self.subscription_end_date {
                Some(end) => days_left(end - now),
                None => 0,
            },
    {
        match self.subscription_end_date {
            Some(end) => {
                let span: i128 = (end as i128) - (now as i128);
                if span > 0 {
                    (span / (DAY_MS as i128)) as i64
                } else {
                    0
                }
            },
            None => 0,
        }
    }

    /// Records a lifetime purchase made at `now`. The free plan cannot be activated; the
    /// licence then stays as it was.
    pub fn activate_subscription(&mut self, plan: SubscriptionPlan, now: i64) -> (r: Result<(), String>)
        ensures
            plan == SubscriptionPlan::Free ==> r is Err && r->Err_0@ == "Cannot activate free plan"@ && *final(self) == *old(self),
            plan == SubscriptionPlan::Lifetime ==> r is Ok && *final(self) == (Subscription {
                plan: SubscriptionPlan::Lifetime,
                status: SubscriptionStatus::Active,
                subscription_start_date: Some(now),
                subscription_end_date: None,
                ..*old(self)
            }),
    {
        match plan {
            SubscriptionPlan::Lifetime => {
                self.plan = plan;
                self.status = SubscriptionStatus::Active;
                self.subscription_start_date = Some(now);
                self.subscription_end_date = None;
                Ok(())
            },
            SubscriptionPlan::Free => Err(String::from_str("Cannot activate free plan")),
        }
    }

    /// Records a lifetime purchase paid through the payment server, with its transaction.
    /// The free plan cannot be activated; the licence then stays as it was.
    pub fn activate_creem_subscription(&mut self, plan: SubscriptionPlan, transaction_id: String, now: i64) -> (r: Result<(), String>)
        ensures
            plan == SubscriptionPlan::Free ==> r is Err && r->Err_0@ == "Cannot activate free plan"@ && *final(self) == *old(self),
            plan == SubscriptionPlan::Lifetime ==> r is Ok && *final(self) == (Subscription {
                plan: SubscriptionPlan::Lifetime,
                status: SubscriptionStatus::Active,
                subscription_start_date: Some(now),
                subscription_end_date: None,
                creem_transaction_id: Some(transaction_id),
                last_check_date: now,
                ..*old(self)
            }),
    {
        match plan {
            SubscriptionPlan::Lifetime => {
                self.plan = plan;
                self.status = SubscriptionStatus::Active;
                self.subscription_start_date = Some(now);
                self.subscription_end_date = None;
                self.creem_transaction_id = Some(transaction_id);
                self.last_check_date = now;
                Ok(())
            },
            SubscriptionPlan::Free => Err(String::from_str("Cannot activate free plan")),
        }
    }

    /// Marks the licence cancelled.
    pub fn cancel_subscription(&mut self)
        ensures
            *final(self) == (Subscription { status: SubscriptionStatus::Cancelled, ..*old(self) }),
    {
        self.status = SubscriptionStatus::Cancelled;
    }

    /// Whether the licence should be checked with the server again at `now`.
    pub fn should_refresh_subscription(&self, now: i64) -> (r: bool)
        ensures
            r == refresh_due(*self, now),
    {
        let since: i128 = (now as i128) - (self.last_check_date as i128);
        if since >= 24 * (HOUR_MS as i128) {
            return true;
        }
        match self.subscription_end_date {
            Some(end) => (end as i128) - (now as i128) < 49 * (HOUR_MS as i128) && since >= HOUR_MS as i128,
            None => false,
        }
    }

    /// App Store receipts are no longer accepted: always refused, with the message in `lang`,
    /// and the licence stays as it was.
    pub fn verify_apple_receipt(&mut self, lang: Language, receipt_data: String) -> (r: Result<(), String>)
        ensures
            r is Err && r->Err_0@ == message_text(lang, "payment_disabled"@),
            *final(self) == *old(self),
    {
        Err(t(lang, "payment_disabled"))
    }

    /// App Store subscriptions are no longer refreshed: always refused, with the message in
    /// `lang`, and the licence stays as it was.
    pub fn refresh_apple_subscription(&mut self, lang: Language) -> (r: Result<(), String>)
        ensures
            r is Err && r->Err_0@ == message_text(lang, "payment_disabled"@),
            *final(self) == *old(self),
    {
        Err(t(lang, "payment_disabled"))
    }

    /// Points payments at another server.
    pub fn set_webhook_server_url(&mut self, url: String)
        ensures
            *final(self) == (Subscription { webhook_server_url: url, ..*old(self) }),
    {
        self.webhook_server_url = url;
    }

    /// The payment session in progress, if any.
    pub fn get_current_session_info(&self) -> (r: Option<String>)
        ensures
            r == self.creem_session_id,
    {
        self.creem_session_id.clone()
    }

    /// Whether the application may still be used after asking the server, given whether the
    /// server shows a purchase for this device. A licence that claims to be active but is
    /// unknown to the server is expired, and the answer is then no.
    pub fn apply_server_verdict(&mut self, server_is_paid: bool) -> (r: bool)
        ensures
            old(self).status == SubscriptionStatus::Active && !server_is_paid
                ==> !r && *final(self) == (Subscription { status: SubscriptionStatus::Expired, ..*old(self) }),
            !(old(self).status == SubscriptionStatus::Active && !server_is_paid)
                ==> r == server_is_paid && *final(self) == *old(self),
    {
        if self.status == SubscriptionStatus::Active && !server_is_paid {
            self.status = SubscriptionStatus::Expired;
            return false;
        }
        server_is_paid
    }

    /// Whether the application may be used at `now` when the server could not be reached:
    /// an active licence for 72 hours after its last check, otherwise a running trial.
    pub fn offline_verdict(&self, now: i64) -> (r: bool)
        ensures
            r == if self.status == SubscriptionStatus::Active {
                now - self.last_check_date < 72 * HOUR_MS
            } else {
                trial_running(*self, now)
            },
    {
        if self.status == SubscriptionStatus::Active {
            ((now as i128) - (self.last_check_date as i128)) < 72 * (HOUR_MS as i128)
        } else {
            self.is_trial_active(now)
        }
    }
}

/// A product package as the payment server describes it; the price is in cents.
#[derive(Debug, Clone)]
pub struct PackageInfo {
    pub id: String,
    pub name: String,
    pub description: String,
    pub price: i32,
    pub currency: String,
    pub product_id: String,
    pub created_at: String,
    pub updated_at: String,
}

/// The payment server's answer to a package lookup.
#[derive(Debug, Clone)]
pub struct PackagesResponse {
    pub packages: PackageInfo,
}

/// The request that opens a checkout session.
#[derive(Debug, Clone)]
pub struct CreemSessionRequest {
    pub user_id: String,
    pub package_id: String,
}

/// A package a user bought or is buying.
#[derive(Debug)]
pub struct UserPackage {
    pub id: String,
    pub user_id: String,
    pub package_id: String,
    pub checkout_id: Option<String>,
    pub status: String,
    pub amount: i32,
    pub currency: String,
    pub metadata: serde_json::Value,
    pub created_at: String,
    pub updated_at: String,
    pub expires_at: Option<String>,
    pub package: PackageInfo,
}

/// The payment server's answer to opening a checkout session.
#[derive(Debug)]
pub struct CreemSessionResponse {
    pub user_package: UserPackage,
    pub checkout_url: String,
    pub message: String,
}

/// The paid packages the payment server knows for a device.
#[derive(Debug)]
pub struct CreemPaymentStatus {
    pub user_packages: Vec<UserPackage>,
}

impl Subscription {
    /// The checkout request for `plan`: this device buying the configured package. The free
    /// plan cannot be bought.
    pub fn creem_session_request(&self, plan: SubscriptionPlan) -> (r: Result<CreemSessionRequest, String>)
        ensures
            plan == SubscriptionPlan::Free ==> r is Err && r->Err_0@ == "Cannot create session for free plan"@,
            plan == SubscriptionPlan::Lifetime ==> r is Ok && r->Ok_0.user_id == self.device_id && r->Ok_0.package_id == self.package_id,
    {
        match plan {
            SubscriptionPlan::Lifetime => Ok(CreemSessionRequest { user_id: self.device_id.clone(), package_id: self.package_id.clone() }),
            SubscriptionPlan::Free => Err(String::from_str("Cannot create session for free plan")),
        }
    }

    /// Remembers the checkout session that was opened.
    pub fn record_creem_session(&mut self, response: &CreemSessionResponse)
        ensures
            *final(self) == (Subscription { creem_session_id: Some(response.user_package.id), ..*old(self) }),
    {
        self.creem_session_id = Some(response.user_package.id.clone());
    }

    /// Takes the package identifier the payment server currently sells.
    pub fn record_packages(&mut self, response: &PackagesResponse)
        ensures
            *final(self) == (Subscription { package_id: response.packages.id, ..*old(self) }),
    {
        self.package_id = response.packages.id.clone();
    }

    /// Records what the payment server says at `now`: when it knows a paid package, the
    /// first one activates a lifetime licence, with its checkout id (else its own id) as
    /// the transaction. Returns whether a paid package was found.
    pub fn apply_payment_status(&mut self, status: &CreemPaymentStatus, now: i64) -> (r: bool)
        ensures
            r == (status.user_packages@.len() > 0),
            !r ==> *final(self) == *old(self),
            r ==> {
                let p = status.user_packages@[0];
                *final(self) == (Subscription {
                    plan: SubscriptionPlan::Lifetime,
                    status: SubscriptionStatus::Active,
                    subscription_start_date: Some(now),
                    subscription_end_date: None,
                    creem_transaction_id: Some(match p.checkout_id { Some(c) => c, None => p.id }),
                    last_check_date: now,
                    ..*old(self)
                })
            },
    {
        if status.user_packages.len() == 0 {
            return false;
        }
        let p = &status.user_packages[0];
        let transaction_id = match &p.checkout_id {
            Some(c) => c.clone(),
            None => p.id.clone(),
        };
        let _ = self.activate_creem_subscription(SubscriptionPlan::Lifetime, transaction_id, now);
        true
    }
}

/// Each byte of `data` combined by exclusive or with the key byte at the same position,
/// the key repeating.
pub open spec fn xor_with(data: Seq<u8>, key: Seq<u8>) -> Seq<u8>
    recommends
        key.len() > 0,
{
    Seq::new(data.len(), |i: int| data[i] ^ key[i % key.len() as int])
}

/// Scrambles or unscrambles `data` with `key`; doing it twice gives `data` back.
pub fn xor_cipher(data: &[u8], key: &[u8]) -> (r: Vec<u8>)
    requires
        key@.len() > 0,
    ensures
        r@ == xor_with(data@, key@),
{
    let mut r: Vec<u8> = Vec::new();
    let mut i: usize = 0;
    while i < data.len()
        invariant
            i <= data@.len(),
            key@.len() > 0,
            r@.len() == i,
            forall|j: int| 0 <= j < i ==> #[trigger] r@[j] == data@[j] ^ key@[j % key@.len() as int],
        decreases data@.len() - i,
    {
        r.push(data[i] ^ key[i % key.len()]);
        i = i + 1;
    }
    proof {
        assert(r@ =~= xor_with(data@, key@));
    }
    r
}

/// The 32-byte scrambling key derived from a device hash: byte `i` is the hash shifted
/// right by `i mod 8` bits, cut to its low eight bits.
pub fn key_from_hash(hash: u64) -> (r: Vec<u8>)
    ensures
        r@.len() == 32,
        forall|i: int| 0 <= i < 32 ==> #[trigger] r@[i] == ((hash >> ((i % 8) as u64)) & 0xff) as u8,
{
    let mut r: Vec<u8> = Vec::new();
    let mut i: u64 = 0;
    while i < 32
        invariant
            i <= 32,
            r@.len() == i,
            forall|j: int| 0 <= j < i ==> #[trigger] r@[j] == ((hash >> ((j % 8) as u64)) & 0xff) as u8,
        decreases 32 - i,
    {
        r.push(((hash >> (i % 8)) & 0xff) as u8);
        i = i + 1;
    }
    r
}

/// Scrambling twice with the same key gives the data back.
pub proof fn lemma_xor_round_trip(data: Seq<u8>, key: Seq<u8>)
    requires
        key.len() > 0,
    ensures
        xor_with(xor_with(data, key), key) == data,
{
    let once = xor_with(data, key);
    let twice = xor_with(once, key);
    assert forall|i: int| 0 <= i < data.len() implies #[trigger] twice[i] == data[i] by {
        let a = data[i];
        let b = key[i % key.len() as int];
        assert((a ^ b) ^ b == a) by (bit_vector);
    }
    assert(twice =~= data);
}

} // verus!
