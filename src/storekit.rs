//! App Store purchases, which exist only on macOS; elsewhere every request is refused.
use vstd::prelude::*;

verus! {

/// The message of every refused App Store request.
pub open spec fn unavailable_message() -> Seq<char> {
    "StoreKit is only available on macOS"@
}

/// The refusal of an App Store request on this platform.
fn unavailable() -> (r: String)
    ensures
        r@ == unavailable_message(),
{
    String::from_str("StoreKit is only available on macOS")
}

/// Access to App Store purchases.
pub struct StoreKitManager {
    initialized: bool,
}

impl StoreKitManager {
    /// Whether the store was set up.
    pub closed spec fn is_initialized(&self) -> bool {
        self.initialized
    }

    /// A manager whose store is not set up yet.
    pub fn new() -> (r: Self)
        ensures
            !r.is_initialized(),
    {
        StoreKitManager { initialized: false }
    }

    /// Sets up the store; refused on this platform, and the manager stays as it was.
    pub fn initialize(&mut self) -> (r: Result<(), String>)
        ensures
            r is Err && r->Err_0@ == unavailable_message(),
            final(self).is_initialized() == old(self).is_initialized(),
    {
        Err(unavailable())
    }

    /// Asks the store for the given products; refused on this platform.
    pub fn request_products(&self, product_ids: &[String]) -> (r: Result<(), String>)
        ensures
            r is Err && r->Err_0@ == unavailable_message(),
    {
        Err(unavailable())
    }

    /// Starts buying a product; refused on this platform.
    pub fn purchase_product(&self, product_id: &str) -> (r: Result<(), String>)
        ensures
            r is Err && r->Err_0@ == unavailable_message(),
    {
        Err(unavailable())
    }

    /// Restores earlier purchases; refused on this platform.
    pub fn restore_purchases(&self) -> (r: Result<(), String>)
        ensures
            r is Err && r->Err_0@ == unavailable_message(),
    {
        Err(unavailable())
    }

    /// The App Store receipt; refused on this platform.
    pub fn get_receipt_data(&self) -> (r: Result<String, String>)
        ensures
            r is Err && r->Err_0@ == unavailable_message(),
    {
        Err(unavailable())
    }

    /// Marks a transaction as handled; refused on this platform.
    pub fn finish_transaction(&self, transaction_id: &str) -> (r: Result<(), String>)
        ensures
            r is Err && r->Err_0@ == unavailable_message(),
    {
        Err(unavailable())
    }
}

impl Default for StoreKitManager {
    fn default() -> (r: Self)
        ensures
            !r.is_initialized(),
    {
        StoreKitManager::new()
    }
}

} // verus!
