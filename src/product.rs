use vstd::prelude::*;
use crate::catalog::{purchase_option_name, PurchaseOption};
use crate::ids::fresh_object_id;

verus! {

/// What bson's `DateTime` shows for an instant given in milliseconds since
/// the Unix epoch.
pub uninterp spec fn datetime_text(millis: i64) -> Seq<char>;

/// Relies on bson's `DateTime::from_millis` and its `Display`: the instant
/// written as text.
#[verifier::external_body]
fn format_datetime(millis: i64) -> (r: String)
    ensures
        r@ == datetime_text(millis),
{
    mongodb::bson::DateTime::from_millis(millis).to_string()
}

/// How a stored price is fulfilled, as the full product view reads it.
#[derive(PartialEq, Eq, Structural, Clone, Copy, Debug)]
pub enum PurOptDb {
    Ship,
    Buy,
    List,
}

/// One price of a product as the full product view reads it.
pub struct PriceDb {
    pub id: String,
    pub descriptor: String,
    pub price: i32,
    pub quantity: i32,
    pub shipping: i32,
    pub images: Vec<String>,
    pub purchase_option: PurOptDb,
}

/// A product as the full product view reads it.
pub struct ProductDb {
    pub id: String,
    pub vendor: String,
    pub name: String,
    pub tags: Vec<String>,
    pub images: Vec<String>,
    pub thumbnail: Option<String>,
    pub prices: Vec<PriceDb>,
}

/// One price in the full product view.
pub struct PriceResponse {
    pub id: String,
    pub descriptor: String,
    pub price: i32,
    pub quantity: i32,
    pub shipping: i32,
    pub images: Vec<String>,
    pub purchase_option: PurOptDb,
}

/// The full view of a product.
pub struct ProductResponse {
    pub id: String,
    pub vendor: String,
    pub name: String,
    pub tags: Vec<String>,
    pub images: Vec<String>,
    pub thumbnail: Option<String>,
    pub prices: Vec<PriceResponse>,
}

/// Whether `r` shows the stored price `p`.
pub open spec fn shows_price(r: PriceResponse, p: PriceDb) -> bool {
    &&& r.id@ == p.id@
    &&& r.descriptor@ == p.descriptor@
    &&& r.price == p.price
    &&& r.quantity == p.quantity
    &&& r.shipping == p.shipping
    &&& r.images.deep_view() == p.images.deep_view()
    &&& r.purchase_option == p.purchase_option
}

impl PriceResponse {
    /// Shows a stored price.
    pub fn from_db(p: &PriceDb) -> (r: PriceResponse)
        ensures
            shows_price(r, *p),
    {
        let r = PriceResponse {
            id: p.id.clone(),
            descriptor: p.descriptor.clone(),
            price: p.price,
            quantity: p.quantity,
            shipping: p.shipping,
            images: p.images.clone(),
            purchase_option: p.purchase_option,
        };
        assert(r.images.deep_view() =~= p.images.deep_view());
        r
    }
}

impl ProductResponse {
    /// Shows a stored product with every one of its prices, in order.
    pub fn from_db(p: ProductDb) -> (r: ProductResponse)
        ensures
            r.id == p.id,
            r.vendor == p.vendor,
            r.name == p.name,
            r.tags == p.tags,
            r.images == p.images,
            r.thumbnail == p.thumbnail,
            r.prices@.len() == p.prices@.len(),
            forall|i: int| 0 <= i < p.prices@.len() ==> shows_price(#[trigger] r.prices@[i], p.prices@[i]),
    {
        let mut prices: Vec<PriceResponse> = Vec::new();
        let mut i: usize = 0;
        while i < p.prices.len()
            invariant
                i <= p.prices@.len(),
                prices@.len() == i,
                forall|j: int| 0 <= j < i ==> shows_price(#[trigger] prices@[j], p.prices@[j]),
            decreases p.prices@.len() - i,
        {
            prices.push(PriceResponse::from_db(&p.prices[i]));
            i = i + 1;
        }
        ProductResponse {
            id: p.id,
            vendor: p.vendor,
            name: p.name,
            tags: p.tags,
            images: p.images,
            thumbnail: p.thumbnail,
            prices,
        }
    }
}


/// A price of a product as stored.
pub struct Price {
    pub id: String,
    pub descriptor: String,
    pub price: i32,
    pub quantity: i32,
    pub shipping: i32,
    pub images: Vec<String>,
    pub purchase_option: PurchaseOption,
    pub archived: bool,
}

impl Price {
    /// A new, unarchived price without images, under a fresh identifier.
    pub fn new(
        descriptor: String,
        price: i32,
        quantity: i32,
        shipping: i32,
        purchase_option: PurchaseOption,
    ) -> (r: Price)
        ensures
            r.id@.len() == 24,
            r.descriptor == descriptor,
            r.price == price,
            r.quantity == quantity,
            r.shipping == shipping,
            r.images@.len() == 0,
            r.purchase_option == purchase_option,
            !r.archived,
    {
        Price {
            id: fresh_object_id(),
            descriptor,
            price,
            quantity,
            shipping,
            images: Vec::new(),
            purchase_option,
            archived: false,
        }
    }
}

/// A price as a vendor's price endpoints show it.
pub struct VendorResponse {
    pub id: String,
    pub descriptor: String,
    pub price: i32,
    pub quantity: i32,
    pub shipping: i32,
    pub images: Vec<String>,
    pub purchase_option: String,
}

impl VendorResponse {
    /// Shows a stored price, its purchase option by name.
    pub fn from_price(p: Price) -> (r: VendorResponse)
        ensures
            r.id == p.id,
            r.descriptor == p.descriptor,
            r.price == p.price,
            r.quantity == p.quantity,
            r.shipping == p.shipping,
            r.images == p.images,
            r.purchase_option@ == purchase_option_name(p.purchase_option),
    {
        let purchase_option = p.purchase_option.to_string();
        VendorResponse {
            id: p.id,
            descriptor: p.descriptor,
            price: p.price,
            quantity: p.quantity,
            shipping: p.shipping,
            images: p.images,
            purchase_option,
        }
    }
}

/// A product as stored; `created_at` counts milliseconds since the epoch.
pub struct Product {
    pub id: String,
    pub vendor: String,
    pub name: String,
    pub tags: Vec<String>,
    pub images: Vec<String>,
    pub thumbnail: Option<String>,
    pub active: bool,
    pub archived: bool,
    pub created_at: i64,
    pub prices: Vec<Price>,
}

/// A product as its vendor's view reads it.
pub struct ProductVendorDb {
    pub id: String,
    pub name: String,
    pub tags: Vec<String>,
    pub images: Vec<String>,
    pub thumbnail: Option<String>,
    pub archived: bool,
    pub created_at: i64,
    pub prices: Vec<Price>,
}

/// One price in a vendor's view of its product.
pub struct PriceVendorResponse {
    pub id: String,
    pub descriptor: String,
    pub price: i32,
    pub quantity: i32,
    pub shipping: i32,
    pub images: Vec<String>,
    pub purchase_option: String,
    pub archived: bool,
}

/// A vendor's view of one of its products.
pub struct ProductVendorResponse {
    pub id: String,
    pub name: String,
    pub tags: Vec<String>,
    pub images: Vec<String>,
    pub thumbnail: Option<String>,
    pub archived: bool,
    pub created_at: String,
    pub prices: Vec<PriceVendorResponse>,
}

/// Whether `r` shows the stored price `p` to its vendor.
pub open spec fn shows_vendor_price(r: PriceVendorResponse, p: Price) -> bool {
    &&& r.id@ == p.id@
    &&& r.descriptor@ == p.descriptor@
    &&& r.price == p.price
    &&& r.quantity == p.quantity
    &&& r.shipping == p.shipping
    &&& r.images.deep_view() == p.images.deep_view()
    &&& r.purchase_option@ == purchase_option_name(p.purchase_option)
    &&& r.archived == p.archived
}

/// Whether `r` shows every one of `prices` to their vendor, in order.
pub open spec fn shows_vendor_prices(r: Seq<PriceVendorResponse>, prices: Seq<Price>) -> bool {
    &&& r.len() == prices.len()
    &&& forall|i: int| 0 <= i < prices.len() ==> shows_vendor_price(#[trigger] r[i], prices[i])
}

fn vendor_prices(prices: &Vec<Price>) -> (r: Vec<PriceVendorResponse>)
    ensures
        shows_vendor_prices(r@, prices@),
{
    let mut r: Vec<PriceVendorResponse> = Vec::new();
    let mut i: usize = 0;
    while i < prices.len()
        invariant
            i <= prices@.len(),
            r@.len() == i,
            forall|j: int| 0 <= j < i ==> shows_vendor_price(#[trigger] r@[j], prices@[j]),
        decreases prices@.len() - i,
    {
        let p = &prices[i];
        let v = PriceVendorResponse {
            id: p.id.clone(),
            descriptor: p.descriptor.clone(),
            price: p.price,
            quantity: p.quantity,
            shipping: p.shipping,
            images: p.images.clone(),
            purchase_option: p.purchase_option.to_string(),
            archived: p.archived,
        };
        assert(v.images.deep_view() =~= p.images.deep_view());
        r.push(v);
        i = i + 1;
    }
    r
}

impl ProductVendorResponse {
    /// Shows a product, as its vendor's view reads it, to that vendor.
    pub fn from_vendor_db(p: ProductVendorDb) -> (r: ProductVendorResponse)
        ensures
            r.id == p.id,
            r.name == p.name,
            r.tags == p.tags,
            r.images == p.images,
            r.thumbnail == p.thumbnail,
            r.archived == p.archived,
            r.created_at@ == datetime_text(p.created_at),
            shows_vendor_prices(r.prices@, p.prices@),
    {
        let prices = vendor_prices(&p.prices);
        ProductVendorResponse {
            id: p.id,
            name: p.name,
            tags: p.tags,
            images: p.images,
            thumbnail: p.thumbnail,
            archived: p.archived,
            created_at: format_datetime(p.created_at),
            prices,
        }
    }

    /// Shows a stored product to its vendor.
    pub fn from_product(p: Product) -> (r: ProductVendorResponse)
        ensures
            r.id == p.id,
            r.name == p.name,
            r.tags == p.tags,
            r.images == p.images,
            r.thumbnail == p.thumbnail,
            r.archived == p.archived,
            r.created_at@ == datetime_text(p.created_at),
            shows_vendor_prices(r.prices@, p.prices@),
    {
        let prices = vendor_prices(&p.prices);
        ProductVendorResponse {
            id: p.id,
            name: p.name,
            tags: p.tags,
            images: p.images,
            thumbnail: p.thumbnail,
            archived: p.archived,
            created_at: format_datetime(p.created_at),
            prices,
        }
    }
}

} // verus!
