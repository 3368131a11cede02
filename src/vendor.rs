use vstd::prelude::*;

verus! {

/// What a vendor shows about its store on its public page.
pub struct PublicData {
    pub phone: Option<String>,
    pub email: Option<String>,
    pub address: Option<Address>,
    pub slogan: Option<String>,
    pub description: Option<String>,
    pub image: Option<String>,
    pub hours: Option<BusinessHours>,
    pub links: Option<Vec<Link>>,
    pub website: Option<String>,
}

/// A vendor's connected payment account.
pub struct StripeData {
    pub account_id: String,
    pub activated: bool,
}

/// A store's address, as text and as a map link.
pub struct Address {
    pub text: Option<String>,
    pub link: Option<String>,
}

/// A store's opening hours, day by day.
pub struct BusinessHours {
    pub sunday: Option<Vec<String>>,
    pub monday: Option<Vec<String>>,
    pub tuesday: Option<Vec<String>>,
    pub wednesday: Option<Vec<String>>,
    pub thursday: Option<Vec<String>>,
    pub friday: Option<Vec<String>>,
    pub saturday: Option<Vec<String>>,
}

/// A link shown on a store's page.
pub struct Link {
    pub url: String,
    pub text: String,
}

/// A vendor as stored; `id` is its identifier in hex and `created_at` counts
/// milliseconds since the epoch.
pub struct Vendor {
    pub id: String,
    pub email: String,
    pub owner: String,
    pub store: String,
    pub url: String,
    pub pass_hash: Option<String>,
    pub token: String,
    pub public_data: PublicData,
    pub html: Option<String>,
    pub active: bool,
    pub new_order_send_email: bool,
    pub stripe: Option<StripeData>,
    pub created_at: i64,
}

/// What a vendor is shown of its own account: never its password hash nor
/// its token.
pub struct ResponseVendor {
    pub id: String,
    pub email: String,
    pub owner: String,
    pub store: String,
    pub url: String,
    pub public_data: PublicData,
    pub html: Option<String>,
    pub new_order_send_email: bool,
}

impl Vendor {
    /// The vendor's account as shown to it.
    pub fn response(self) -> (r: ResponseVendor)
        ensures
            r.id == self.id,
            r.email == self.email,
            r.owner == self.owner,
            r.store == self.store,
            r.url == self.url,
            r.public_data == self.public_data,
            r.html == self.html,
            r.new_order_send_email == self.new_order_send_email,
    {
        ResponseVendor {
            id: self.id,
            email: self.email,
            owner: self.owner,
            store: self.store,
            url: self.url,
            public_data: self.public_data,
            html: self.html,
            new_order_send_email: self.new_order_send_email,
        }
    }
}

/// The fields of a new product form read so far.
pub struct TempBody {
    pub name: String,
}

} // verus!
