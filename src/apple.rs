//! App Store receipt verification: the data the store returns and what it says about a subscription.
use vstd::prelude::*;
use crate::text::{parse_i64, parsed_i64, text_eq};

verus! {

/// The body of a receipt verification request.
#[derive(Debug, Clone)]
pub struct AppleReceiptData {
    pub receipt_data: String,
    /// The app-specific shared secret.
    pub password: String,
}

/// The store's answer to a verification request.
#[derive(Debug, Clone)]
pub struct AppleVerificationResponse {
    pub status: i32,
    pub environment: Option<String>,
    pub receipt: Option<AppleReceipt>,
    pub latest_receipt_info: Option<Vec<AppleTransaction>>,
    pub pending_renewal_info: Option<Vec<ApplePendingRenewal>>,
}

/// A decoded receipt.
#[derive(Debug, Clone)]
pub struct AppleReceipt {
    pub receipt_type: String,
    pub bundle_id: String,
    pub application_version: String,
    pub in_app: Vec<AppleTransaction>,
}

/// One purchase transaction.
#[derive(Debug, Clone)]
pub struct AppleTransaction {
    pub product_id: String,
    pub transaction_id: String,
    pub original_transaction_id: String,
    pub purchase_date: String,
    pub purchase_date_ms: String,
    pub expires_date: Option<String>,
    pub expires_date_ms: Option<String>,
    pub is_trial_period: Option<String>,
    pub is_in_intro_offer_period: Option<String>,
    pub cancellation_date: Option<String>,
    pub cancellation_date_ms: Option<String>,
}

/// The renewal state of a subscription.
#[derive(Debug, Clone)]
pub struct ApplePendingRenewal {
    pub product_id: String,
    pub original_transaction_id: String,
    pub auto_renew_status: String,
    pub auto_renew_product_id: String,
    pub expiration_intent: Option<String>,
}

/// What a receipt says about the subscription. `expires_date` is in milliseconds since the epoch.
#[derive(Debug, Clone)]
pub struct AppleSubscriptionStatus {
    pub is_active: bool,
    pub product_id: String,
    pub expires_date: Option<i64>,
    pub is_trial: bool,
    pub is_cancelled: bool,
    pub auto_renew_status: bool,
}

/// The product identifiers and credentials of the App Store configuration.
#[derive(Debug, Clone)]
pub struct AppleSubscriptionConfig {
    pub monthly_product_id: String,
    pub yearly_product_id: String,
    pub shared_secret: String,
    pub bundle_id: String,
}

impl AppleSubscriptionConfig {
    /// The shipped product identifiers and bundle, with the given shared secret.
    pub fn with_shared_secret(shared_secret: String) -> (r: Self)
        ensures
            r.monthly_product_id@ == "com.fileSortify.monthly"@,
            r.yearly_product_id@ == "com.fileSortify.yearly"@,
            r.shared_secret == shared_secret,
            r.bundle_id@ == "com.fileSortify.tool"@,
    {
        AppleSubscriptionConfig {
            monthly_product_id: String::from_str("com.fileSortify.monthly"),
            yearly_product_id: String::from_str("com.fileSortify.yearly"),
            shared_secret,
            bundle_id: String::from_str("com.fileSortify.tool"),
        }
    }
}

/// Why a verification answer yields no subscription status.
#[derive(Debug, Clone, Copy, PartialEq, Eq, Structural)]
pub enum AppleStatusError {
    /// The store answered with this non-zero status.
    VerificationFailed(i32),
    /// The answer holds neither latest receipt info nor a receipt.
    NoTransactionData,
    /// The transaction list is empty.
    NoTransactions,
    /// No transaction is for a subscription product.
    NoSubscriptionTransactions,
    /// The expiry of the latest subscription transaction is not a number.
    InvalidExpiry,
}

/// The status the store gives a sandbox receipt sent to production.
pub const SANDBOX_RECEIPT_STATUS: i32 = 21007;

/// The earliest millisecond timestamp a chrono `DateTime<Utc>` holds: January 1 of the year -262143.
pub const MIN_DATE_MS: i64 = -8_334_601_228_800_000;
/// The latest millisecond timestamp a chrono `DateTime<Utc>` holds: the last millisecond of
/// December 31 of the year 262142.
pub const MAX_DATE_MS: i64 = 8_210_266_876_799_999;

/// Whether a millisecond timestamp lies in chrono's date range.
pub open spec fn date_in_range(ms: i64) -> bool {
    MIN_DATE_MS <= ms <= MAX_DATE_MS
}

/// Relies on `chrono::DateTime::<Utc>::from_timestamp_millis`: it gives a date exactly when
/// the day of the timestamp lies between chrono's first and last dates (years -262143 to
/// 262142), which is the interval above.
#[verifier::external_body]
fn timestamp_in_range(ms: i64) -> (r: bool)
    ensures
        r == date_in_range(ms),
{
    chrono::DateTime::<chrono::Utc>::from_timestamp_millis(ms).is_some()
}

/// A subscription product of this application.
pub open spec fn is_subscription_product(id: Seq<char>) -> bool {
    id == "com.fileSortify.monthly"@ || id == "com.fileSortify.yearly"@
}

/// The purchase time a transaction is ranked by: its parsed purchase milliseconds, or 0.
pub open spec fn purchase_rank(t: AppleTransaction) -> int {
    match parsed_i64(t.purchase_date_ms@) {
        Some(v) => v as int,
        None => 0,
    }
}

/// The position among the first `n` transactions of the latest subscription purchase: the
/// highest rank wins, and among equal ranks the later one; -1 when there is none.
pub open spec fn latest_subscription(ts: Seq<AppleTransaction>, n: nat) -> int
    decreases n,
{
    if n == 0 {
        -1
    } else {
        let b = latest_subscription(ts, (n - 1) as nat);
        let t = ts[n - 1];
        if is_subscription_product(t.product_id@) && (b < 0 || purchase_rank(t) >= purchase_rank(ts[b])) {
            n - 1
        } else {
            b
        }
    }
}

/// The transactions an answer lists: the latest receipt info, else the receipt's purchases.
pub open spec fn listed_transactions(resp: AppleVerificationResponse) -> Option<Seq<AppleTransaction>> {
    match resp.latest_receipt_info {
        Some(v) => Some(v@),
        None => match resp.receipt {
            Some(r) => Some(r.in_app@),
            None => None,
        },
    }
}

/// Whether the renewal records hold an entry for `original_id` whose auto-renew status is
/// `1`, judging by the first entry with that original transaction.
pub open spec fn renews(renewals: Option<Vec<ApplePendingRenewal>>, original_id: Seq<char>) -> bool {
    match renewals {
        Some(v) => {
            let i = first_renewal(v@, original_id, 0);
            0 <= i < v@.len() && v@[i].auto_renew_status@ == "1"@
        },
        None => false,
    }
}

/// The position of the first renewal record for `original_id` at or after `from`, or -1.
pub open spec fn first_renewal(rs: Seq<ApplePendingRenewal>, original_id: Seq<char>, from: nat) -> int
    decreases rs.len() - from,
{
    if from >= rs.len() {
        -1
    } else if rs[from as int].original_transaction_id@ == original_id {
        from as int
    } else {
        first_renewal(rs, original_id, from + 1)
    }
}

/// The status described by transaction `t` of `resp` with expiry `expires` at `now`: active
/// when the expiry is later than now and the purchase was not cancelled, a trial when the
/// store marks it `true`, renewing as the renewal records say.
pub open spec fn status_of(resp: AppleVerificationResponse, t: AppleTransaction, expires: Option<i64>, now: i64) -> AppleSubscriptionStatus {
    AppleSubscriptionStatus {
        is_active: match expires {
            Some(e) => e > now && t.cancellation_date is None,
            None => false,
        },
        product_id: t.product_id,
        expires_date: expires,
        is_trial: match t.is_trial_period {
            Some(s) => s@ == "true"@,
            None => false,
        },
        is_cancelled: t.cancellation_date is Some,
        auto_renew_status: renews(resp.pending_renewal_info, t.original_transaction_id@),
    }
}

proof fn lemma_latest_subscription_bounds(ts: Seq<AppleTransaction>, n: nat)
    ensures
        -1 <= latest_subscription(ts, n) < n,
    decreases n,
{
    if n > 0 {
        lemma_latest_subscription_bounds(ts, (n - 1) as nat);
    }
}

proof fn lemma_first_renewal_bounds(rs: Seq<ApplePendingRenewal>, original_id: Seq<char>, from: nat)
    ensures
        first_renewal(rs, original_id, from) == -1 || (from <= first_renewal(rs, original_id, from) < rs.len()),
    decreases rs.len() - from,
{
    if from < rs.len() {
        lemma_first_renewal_bounds(rs, original_id, from + 1);
    }
}

/// Checks App Store receipts for this application's subscriptions.
pub struct AppleSubscriptionValidator {
    shared_secret: String,
    bundle_id: String,
}

impl AppleSubscriptionValidator {
    /// The shared secret sent with each request.
    pub closed spec fn secret(&self) -> Seq<char> {
        self.shared_secret@
    }

    /// A validator using `shared_secret` for the app `bundle_id`.
    pub fn new(shared_secret: String, bundle_id: String) -> (r: Self)
        ensures
            r.secret() == shared_secret@,
    {
        AppleSubscriptionValidator { shared_secret, bundle_id }
    }

    /// The request body that verifies `receipt_data`.
    pub fn receipt_request(&self, receipt_data: &str) -> (r: AppleReceiptData)
        ensures
            r.receipt_data@ == receipt_data@,
            r.password@ == self.secret(),
    {
        AppleReceiptData { receipt_data: String::from_str(receipt_data), password: self.shared_secret.clone() }
    }

    /// Whether an answer from production says the receipt must be sent to the sandbox instead.
    pub fn needs_sandbox(response: &AppleVerificationResponse) -> (r: bool)
        ensures
            r == (response.status == SANDBOX_RECEIPT_STATUS),
    {
        response.status == SANDBOX_RECEIPT_STATUS
    }

    /// Whether `product_id` is one of this application's subscription products.
    pub fn is_subscription_product(&self, product_id: &str) -> (r: bool)
        ensures
            r == is_subscription_product(product_id@),
    {
        text_eq(product_id, "com.fileSortify.monthly") || text_eq(product_id, "com.fileSortify.yearly")
    }

    /// The position of the latest subscription purchase in `ts`, if any.
    fn latest_subscription_index(&self, ts: &Vec<AppleTransaction>) -> (r: Option<usize>)
        ensures
            match r {
                Some(i) => i as int == latest_subscription(ts@, ts@.len()) && i < ts@.len(),
                None => latest_subscription(ts@, ts@.len()) == -1,
            },
    {
        let mut best: Option<usize> = None;
        let mut best_rank: i64 = 0;
        let mut i: usize = 0;
        while i < ts.len()
            invariant
                i <= ts@.len(),
                match best {
                    Some(b) => b as int == latest_subscription(ts@, i as nat) && b < i && best_rank as int == purchase_rank(ts@[b as int]),
                    None => latest_subscription(ts@, i as nat) == -1,
                },
            decreases ts@.len() - i,
        {
            proof {
                lemma_latest_subscription_bounds(ts@, i as nat);
            }
            let t = &ts[i];
            if self.is_subscription_product(t.product_id.as_str()) {
                let rank: i64 = match parse_i64(t.purchase_date_ms.as_str()) {
                    Some(v) => v,
                    None => 0,
                };
                let better = match best {
                    Some(_) => rank >= best_rank,
                    None => true,
                };
                if better {
                    best = Some(i);
                    best_rank = rank;
                }
            }
            i = i + 1;
        }
        best
    }

    /// Whether the first renewal record for `original_id` renews automatically.
    fn renewal_status(renewals: &Option<Vec<ApplePendingRenewal>>, original_id: &str) -> (r: bool)
        ensures
            r == renews(*renewals, original_id@),
    {
        match renewals {
            Some(v) => {
                let mut i: usize = 0;
                while i < v.len()
                    invariant
                        *renewals == Some(*v),
                        i <= v@.len(),
                        first_renewal(v@, original_id@, 0) == first_renewal(v@, original_id@, i as nat),
                    decreases v@.len() - i,
                {
                    if text_eq(v[i].original_transaction_id.as_str(), original_id) {
                        proof {
                            lemma_first_renewal_bounds(v@, original_id@, 0);
                            assert(first_renewal(v@, original_id@, i as nat) == i as int);
                        }
                        return text_eq(v[i].auto_renew_status.as_str(), "1");
                    }
                    i = i + 1;
                }
                false
            },
            None => false,
        }
    }

    /// The status described by transaction `t` of an answer, given the expiry of `t` in
    /// milliseconds (if it has one) and the time `now_ms`: active when the expiry is later
    /// than now and the purchase was not cancelled.
    pub fn status_from_transaction(
        &self,
        response: &AppleVerificationResponse,
        t: &AppleTransaction,
        expires: Option<i64>,
        now_ms: i64,
    ) -> (r: AppleSubscriptionStatus)
        ensures
            r == status_of(*response, *t, expires, now_ms),
    {
        let is_active = match expires {
            Some(e) => e > now_ms && t.cancellation_date.is_none(),
            None => false,
        };
        let is_trial = match &t.is_trial_period {
            Some(s) => text_eq(s.as_str(), "true"),
            None => false,
        };
        AppleSubscriptionStatus {
            is_active,
            product_id: t.product_id.clone(),
            expires_date: expires,
            is_trial,
            is_cancelled: t.cancellation_date.is_some(),
            auto_renew_status: Self::renewal_status(&response.pending_renewal_info, t.original_transaction_id.as_str()),
        }
    }

    /// The subscription status an answer describes at `now_ms`. The answer must have status
    /// 0 and list at least one transaction of a subscription product; the latest such
    /// purchase decides. An expiry outside the representable date range counts as now.
    pub fn get_subscription_status(&self, response: &AppleVerificationResponse, now_ms: i64) -> (r: Result<AppleSubscriptionStatus, AppleStatusError>)
        ensures
            response.status != 0 ==> r == Err::<AppleSubscriptionStatus, AppleStatusError>(AppleStatusError::VerificationFailed(response.status)),
            response.status == 0 ==> match listed_transactions(*response) {
                None => r == Err::<AppleSubscriptionStatus, AppleStatusError>(AppleStatusError::NoTransactionData),
                Some(ts) => if ts.len() == 0 {
                    r == Err::<AppleSubscriptionStatus, AppleStatusError>(AppleStatusError::NoTransactions)
                } else if latest_subscription(ts, ts.len()) < 0 {
                    r == Err::<AppleSubscriptionStatus, AppleStatusError>(AppleStatusError::NoSubscriptionTransactions)
                } else {
                    let t = ts[latest_subscription(ts, ts.len())];
                    match t.expires_date_ms {
                        Some(e) => match parsed_i64(e@) {
                            None => r == Err::<AppleSubscriptionStatus, AppleStatusError>(AppleStatusError::InvalidExpiry),
                            Some(ms) => r == Ok::<AppleSubscriptionStatus, AppleStatusError>(
                                status_of(*response, t, Some(if date_in_range(ms) { ms } else { now_ms }), now_ms),
                            ),
                        },
                        None => r == Ok::<AppleSubscriptionStatus, AppleStatusError>(status_of(*response, t, None, now_ms)),
                    }
                }
            },
    {
        if response.status != 0 {
            return Err(AppleStatusError::VerificationFailed(response.status));
        }
        let transactions = match &response.latest_receipt_info {
            Some(v) => v,
            None => match &response.receipt {
                Some(receipt) => &receipt.in_app,
                None => {
                    return Err(AppleStatusError::NoTransactionData);
                },
            },
        };
        if transactions.len() == 0 {
            return Err(AppleStatusError::NoTransactions);
        }
        let latest = match self.latest_subscription_index(transactions) {
            Some(i) => &transactions[i],
            None => {
                return Err(AppleStatusError::NoSubscriptionTransactions);
            },
        };
        let expires = match &latest.expires_date_ms {
            Some(e) => match parse_i64(e.as_str()) {
                Some(ms) => if timestamp_in_range(ms) {
                    Some(ms)
                } else {
                    Some(now_ms)
                },
                None => {
                    return Err(AppleStatusError::InvalidExpiry);
                },
            },
            None => None,
        };
        Ok(self.status_from_transaction(response, latest, expires, now_ms))
    }
}

} // verus!
