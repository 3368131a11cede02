use vstd::prelude::*;

verus! {

/// How a price of a product is fulfilled.
#[derive(PartialEq, Eq, Structural, Clone, Copy, Debug)]
pub enum PurchaseOption {
    Ship,
    Buy,
    List,
}

/// The lowercase name under which a purchase option is stored and shown.
pub open spec fn purchase_option_name(p: PurchaseOption) -> Seq<char> {
    match p {
        PurchaseOption::Ship => "ship"@,
        PurchaseOption::Buy => "buy"@,
        PurchaseOption::List => "list"@,
    }
}

impl PurchaseOption {
    /// The option's lowercase name.
    pub fn to_string(&self) -> (r: String)
        ensures
            r@ == purchase_option_name(*self),
    {
        match self {
            PurchaseOption::Ship => String::from_str("ship"),
            PurchaseOption::Buy => String::from_str("buy"),
            PurchaseOption::List => String::from_str("list"),
        }
    }
}

/// The price shown in a product listing: the one price, or the cheapest and
/// the dearest of several.
#[derive(Clone, Copy, Debug)]
pub enum PriceRange {
    Single(i32),
    Multi((i32, i32)),
}

/// The price of a product listed through a vendor's catalogue.
pub type ShortPriceResponse = PriceRange;

/// The price of a product listed on a vendor's public page.
pub type ResponsePrice = PriceRange;

/// The price of a product in a short product listing.
pub type PriceShortResponse = PriceRange;

/// Whether `lo` is the least and `hi` the greatest of `prices`.
pub open spec fn is_min_max(prices: Seq<i32>, lo: i32, hi: i32) -> bool {
    &&& prices.contains(lo)
    &&& prices.contains(hi)
    &&& forall|i: int| 0 <= i < prices.len() ==> lo <= #[trigger] prices[i] <= hi
}

/// Whether `r` is the listing price of `prices`: the price itself when there
/// is one, else the least and greatest.
pub open spec fn is_price_range(prices: Seq<i32>, r: PriceRange) -> bool {
    if prices.len() == 1 {
        r == PriceRange::Single(prices[0])
    } else {
        r matches PriceRange::Multi((lo, hi)) && is_min_max(prices, lo, hi)
    }
}

/// The listing price of a product with the given prices.
pub fn price_range(prices: &Vec<i32>) -> (r: PriceRange)
    requires
        prices@.len() >= 1,
    ensures
        is_price_range(prices@, r),
{
    if prices.len() == 1 {
        return PriceRange::Single(prices[0]);
    }
    let mut lo: i32 = prices[0];
    let mut hi: i32 = prices[0];
    let mut i: usize = 0;
    while i < prices.len()
        invariant
            0 <= i <= prices@.len(),
            prices@.len() >= 1,
            prices@.contains(lo),
            prices@.contains(hi),
            forall|j: int| 0 <= j < i ==> lo <= #[trigger] prices@[j] <= hi,
            lo <= prices@[0] <= hi,
        decreases prices@.len() - i,
    {
        if prices[i] < lo {
            lo = prices[i];
        }
        if prices[i] > hi {
            hi = prices[i];
        }
        i = i + 1;
    }
    PriceRange::Multi((lo, hi))
}


/// One price of a product, as a listing reads it.
pub struct ShortPrice {
    pub price: i32,
}

/// A product as a listing reads it; `id` is the product's identifier in hex.
pub struct ShortProduct {
    pub id: String,
    pub name: String,
    pub tags: Vec<String>,
    pub images: Vec<String>,
    pub prices: Vec<ShortPrice>,
}

/// The amounts of a product's prices, in order.
pub open spec fn amounts_of(prices: Seq<ShortPrice>) -> Seq<i32> {
    prices.map_values(|p: ShortPrice| p.price)
}

/// The amounts of `prices`, in order.
fn amounts(prices: &Vec<ShortPrice>) -> (r: Vec<i32>)
    ensures
        r@ == amounts_of(prices@),
{
    let mut r: Vec<i32> = Vec::new();
    let mut i: usize = 0;
    while i < prices.len()
        invariant
            i <= prices@.len(),
            r@ == amounts_of(prices@.subrange(0, i as int)),
        decreases prices@.len() - i,
    {
        r.push(prices[i].price);
        i = i + 1;
        assert(r@ =~= amounts_of(prices@.subrange(0, i as int)));
    }
    assert(prices@.subrange(0, i as int) =~= prices@);
    r
}

/// The first of `images`, the one a listing shows, if there is any.
pub open spec fn first_image(images: Seq<String>) -> Option<String> {
    if images.len() == 0 {
        None
    } else {
        Some(images[0])
    }
}

fn first_of(images: &Vec<String>) -> (r: Option<String>)
    ensures
        r == first_image(images@),
{
    if images.len() == 0 {
        None
    } else {
        Some(images[0].clone())
    }
}

/// A product as a vendor's catalogue lists it.
pub struct ShortProductResponse {
    pub id: String,
    pub name: String,
    pub tags: Vec<String>,
    pub image: Option<String>,
    pub price: ShortPriceResponse,
}

impl ShortProductResponse {
    /// Lists a product: its first image and its price range.
    pub fn from_short_product(p: ShortProduct) -> (r: ShortProductResponse)
        requires
            p.prices@.len() >= 1,
        ensures
            r.id == p.id,
            r.name == p.name,
            r.tags == p.tags,
            r.image == first_image(p.images@),
            is_price_range(amounts_of(p.prices@), r.price),
    {
        let a = amounts(&p.prices);
        let price = price_range(&a);
        let image = first_of(&p.images);
        ShortProductResponse { id: p.id, name: p.name, tags: p.tags, image, price }
    }
}

/// A product as a vendor's public page lists it.
pub struct ResponseProduct {
    pub id: String,
    pub name: String,
    pub tags: Vec<String>,
    pub image: Option<String>,
    pub price: ResponsePrice,
}

impl ResponseProduct {
    /// Lists a product: its first image and its price range.
    pub fn from_short_product(p: ShortProduct) -> (r: ResponseProduct)
        requires
            p.prices@.len() >= 1,
        ensures
            r.id == p.id,
            r.name == p.name,
            r.tags == p.tags,
            r.image == first_image(p.images@),
            is_price_range(amounts_of(p.prices@), r.price),
    {
        let a = amounts(&p.prices);
        let price = price_range(&a);
        let image = first_of(&p.images);
        ResponseProduct { id: p.id, name: p.name, tags: p.tags, image, price }
    }
}

/// One price of a product, as a short listing reads it.
pub struct PriceShortDb {
    pub price: i32,
}

/// A product as a short listing reads it.
pub struct ProductShortDb {
    pub id: String,
    pub name: String,
    pub tags: Vec<String>,
    pub thumbnail: Option<String>,
    pub prices: Vec<PriceShortDb>,
}

/// A product in a short listing: its thumbnail and its price range.
pub struct ProductShortResponse {
    pub id: String,
    pub name: String,
    pub tags: Vec<String>,
    pub thumbnail: Option<String>,
    pub price: PriceShortResponse,
}

/// The amounts of a short listing's prices, in order.
pub open spec fn short_amounts_of(prices: Seq<PriceShortDb>) -> Seq<i32> {
    prices.map_values(|p: PriceShortDb| p.price)
}

impl ProductShortResponse {
    /// Lists a product with its thumbnail and price range.
    pub fn from_db(p: ProductShortDb) -> (r: ProductShortResponse)
        requires
            p.prices@.len() >= 1,
        ensures
            r.id == p.id,
            r.name == p.name,
            r.tags == p.tags,
            r.thumbnail == p.thumbnail,
            is_price_range(short_amounts_of(p.prices@), r.price),
    {
        let mut a: Vec<i32> = Vec::new();
        let mut i: usize = 0;
        while i < p.prices.len()
            invariant
                i <= p.prices@.len(),
                a@ == short_amounts_of(p.prices@.subrange(0, i as int)),
            decreases p.prices@.len() - i,
        {
            a.push(p.prices[i].price);
            i = i + 1;
            assert(a@ =~= short_amounts_of(p.prices@.subrange(0, i as int)));
        }
        assert(p.prices@.subrange(0, i as int) =~= p.prices@);
        let price = price_range(&a);
        ProductShortResponse { id: p.id, name: p.name, tags: p.tags, thumbnail: p.thumbnail, price }
    }
}

} // verus!
