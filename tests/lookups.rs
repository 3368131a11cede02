use inlet_shop::error::AppError;
use inlet_shop::mime::{get_mime, mime_for_extension};
use inlet_shop::product::{
    Price, PriceDb, ProductDb, ProductResponse, ProductVendorDb, ProductVendorResponse, PurOptDb,
    VendorResponse,
};
use inlet_shop::catalog::PurchaseOption;
use inlet_shop::store::{
    found_or, parse_product_id, parse_vendor_id, session_vendor_id, update_result,
    verify_ownership,
};

#[test]
fn mime_by_extension() {
    assert_eq!(get_mime("/srv/vendor-a/product-b/x.avif"), "image/avif");
    assert_eq!(get_mime("/srv/x.AVIF"), "image/avif");
    assert_eq!(get_mime("/srv/x.png"), "application/octet-stream");
    assert_eq!(get_mime("/srv/noext"), "application/octet-stream");
    assert_eq!(mime_for_extension("avif"), "image/avif");
    assert_eq!(mime_for_extension("AVIF"), "application/octet-stream");
}

#[test]
fn object_ids_are_parsed() {
    assert!(parse_product_id("65a1b2c3d4e5f60718293a4b").is_ok());
    assert!(parse_product_id("65A1B2C3D4E5F60718293A4B").is_ok());
    match parse_product_id("not-an-id") {
        Err(AppError::InvalidInput(m)) => assert_eq!(m, "Invalid product id"),
        _ => panic!("bad id accepted"),
    }
    assert!(parse_vendor_id("65a1b2c3d4e5f60718293a4").is_err());
    assert!(matches!(session_vendor_id("zz"), Err(AppError::InternalError)));
    let id = parse_vendor_id("65a1b2c3d4e5f60718293a4b").unwrap();
    assert_eq!(id.to_hex(), "65a1b2c3d4e5f60718293a4b");
}

#[test]
fn store_answers_are_mapped() {
    assert!(verify_ownership(Ok(true)).is_ok());
    assert!(matches!(verify_ownership(Ok(false)), Err(AppError::Forbidden(_))));
    assert!(update_result(Ok(1)).is_ok());
    assert!(matches!(update_result(Ok(0)), Err(AppError::Forbidden(_))));
    assert_eq!(found_or(Ok(Some(7)), "missing").unwrap(), 7);
    match found_or::<u8>(Ok(None), "Vendor with this ID not found") {
        Err(AppError::NotFound(m)) => assert_eq!(m, "Vendor with this ID not found"),
        _ => panic!("missing document found"),
    }
}

fn price() -> Price {
    Price {
        id: String::from("p1"),
        descriptor: String::from("Large"),
        price: 1500,
        quantity: 3,
        shipping: 200,
        images: vec![String::from("/i.avif")],
        purchase_option: PurchaseOption::Ship,
        archived: true,
    }
}

#[test]
fn new_price_is_fresh() {
    let p = Price::new(String::from("Small"), 100, 1, 0, PurchaseOption::Buy);
    assert_eq!(p.id.len(), 24);
    assert!(p.images.is_empty());
    assert!(!p.archived);
    assert_eq!(p.purchase_option, PurchaseOption::Buy);
}

#[test]
fn vendor_price_view() {
    let r = VendorResponse::from_price(price());
    assert_eq!(r.purchase_option, "ship");
    assert_eq!(r.price, 1500);
    let v = ProductVendorResponse::from_vendor_db(ProductVendorDb {
        id: String::from("x"),
        name: String::from("Mug"),
        tags: Vec::new(),
        images: Vec::new(),
        thumbnail: None,
        archived: false,
        created_at: 0,
        prices: vec![price()],
    });
    assert_eq!(v.prices.len(), 1);
    assert_eq!(v.prices[0].purchase_option, "ship");
    assert!(v.prices[0].archived);
    assert!(v.created_at.contains("1970"));
}

#[test]
fn full_product_view() {
    let r = ProductResponse::from_db(ProductDb {
        id: String::from("x"),
        vendor: String::from("v"),
        name: String::from("Mug"),
        tags: vec![String::from("kitchen")],
        images: vec![String::from("/a.avif")],
        thumbnail: Some(String::from("/a.avif")),
        prices: vec![PriceDb {
            id: String::from("p"),
            descriptor: String::from("One"),
            price: 5,
            quantity: 1,
            shipping: 0,
            images: Vec::new(),
            purchase_option: PurOptDb::List,
        }],
    });
    assert_eq!(r.vendor, "v");
    assert_eq!(r.prices.len(), 1);
    assert_eq!(r.prices[0].descriptor, "One");
    assert_eq!(r.prices[0].purchase_option, PurOptDb::List);
}
