use inlet_shop::ingest::{
    cleanup_after_conversion, conversion_args, pair_count, conversion_outcome, create_thumbnail_url,
    gather_succeeded_urls, plan_update, rollback_paths, shrink_and_write_image, ConversionOutcome,
    ImageUpdate,
};
use inlet_shop::storage::{
    build_image_paths, delete_file_paths, destination_path, image_url, stage_batch,
    stage_image_paths,
    ImagePaths,
};

const VENDOR: &str = "65a1b2c3d4e5f60718293a4b";
const PRODUCT: &str = "65a1b2c3d4e5f60718293a4c";
const HOME: &str = "/home/shop/";

fn url_of(id: &str) -> String {
    format!("/vendor-{}/product-{}/{}.avif", VENDOR, PRODUCT, id)
}

fn outcomes_for(ids: &[&str], ok: &[bool]) -> Vec<ConversionOutcome> {
    ids.iter()
        .zip(ok.iter())
        .map(|(id, ok)| conversion_outcome(*ok, image_url(VENDOR, PRODUCT, id)))
        .collect()
}

#[test]
fn image_url_layout() {
    assert_eq!(image_url("v1", "p2", "abc"), "/vendor-v1/product-p2/abc.avif");
    assert_eq!(image_url("v1", "p2", ""), "/vendor-v1/product-p2/.avif");
}

#[test]
fn build_paths_of_one_upload() {
    let p = build_image_paths("a", "tok", HOME, VENDOR, PRODUCT);
    assert_eq!(p.temp_path, "/tmp/tok.upload");
    assert_eq!(p.base_dir, "/home/shop/srv");
    assert_eq!(p.url, url_of("a"));
    assert_eq!(destination_path(&p), format!("/home/shop/srv{}", url_of("a")));
}

#[test]
fn staged_paths_use_fresh_names() {
    let a = stage_image_paths("a", HOME, VENDOR, PRODUCT);
    let b = stage_image_paths("a", HOME, VENDOR, PRODUCT);
    assert!(a.temp_path.starts_with("/tmp/") && a.temp_path.ends_with(".upload"));
    assert_eq!(a.temp_path.len(), "/tmp/".len() + 36 + ".upload".len());
    assert_ne!(a.temp_path, b.temp_path);
    assert_eq!(a.url, b.url);
}

#[test]
fn converter_command_line() {
    let args = conversion_args("/tmp/x.upload", "50", "1000", "/out.avif");
    assert_eq!(
        args,
        vec![
            "--input", "/tmp/x.upload", "--format", "avif", "--quality", "50", "resize", "1000",
            "--output", "/out.avif"
        ]
    );
    let p = build_image_paths("a", "tok", HOME, VENDOR, PRODUCT);
    let args = shrink_and_write_image(&p);
    assert_eq!(args[1], "/tmp/tok.upload");
    assert_eq!(args[9], format!("/home/shop/srv{}", url_of("a")));
}

#[test]
fn cleanup_removes_temp_and_failed_output() {
    let p = build_image_paths("a", "tok", HOME, VENDOR, PRODUCT);
    let ok = cleanup_after_conversion(&p, &ConversionOutcome::Converted(p.url.clone()));
    assert_eq!(ok, vec![String::from("/tmp/tok.upload")]);
    let failed = cleanup_after_conversion(&p, &ConversionOutcome::Failed);
    assert_eq!(failed, vec![String::from("/tmp/tok.upload"), destination_path(&p)]);
}

#[test]
fn gathers_only_successes_in_order() {
    let outs = outcomes_for(&["a", "b", "c", "d"], &[true, false, true, false]);
    assert_eq!(gather_succeeded_urls(&outs), vec![url_of("a"), url_of("c")]);
    assert!(gather_succeeded_urls(&Vec::new()).is_empty());
}

#[test]
fn thumbnail_url_only_when_named() {
    assert_eq!(create_thumbnail_url(&Some(String::from("b")), VENDOR, PRODUCT), Some(url_of("b")));
    assert_eq!(create_thumbnail_url(&None, VENDOR, PRODUCT), None);
}

#[test]
fn empty_batch_plans_no_update() {
    let thumb = create_thumbnail_url(&Some(String::from("a")), VENDOR, PRODUCT);
    assert!(plan_update(&Vec::new(), &thumb).is_none());
    let paths = delete_file_paths(HOME, &Vec::new(), true);
    assert!(paths.is_empty());
}

#[test]
fn failed_batch_plans_no_update() {
    let outs = outcomes_for(&["a", "b"], &[false, false]);
    let thumb = create_thumbnail_url(&Some(String::from("a")), VENDOR, PRODUCT);
    assert!(plan_update(&outs, &thumb).is_none());
    let p = build_image_paths("a", "tok", HOME, VENDOR, PRODUCT);
    let cleanup = cleanup_after_conversion(&p, &ConversionOutcome::Failed);
    assert!(cleanup.contains(&p.temp_path));
    assert!(cleanup.contains(&destination_path(&p)));
}

#[test]
fn committed_batch_adds_succeeded_urls() {
    let outs = outcomes_for(&["a", "b", "c"], &[true, false, true]);
    let update = plan_update(&outs, &None).unwrap();
    assert_eq!(update.images, vec![url_of("a"), url_of("c")]);
    assert_eq!(update.thumbnail, None);
    assert!(rollback_paths(HOME, &update, true).is_empty());
}

#[test]
fn refused_update_removes_converted_files() {
    let outs = outcomes_for(&["a", "b", "c"], &[false, true, true]);
    let update = plan_update(&outs, &None).unwrap();
    let removed = rollback_paths(HOME, &update, false);
    assert_eq!(
        removed,
        vec![format!("/home/shop/srv{}", url_of("b")), format!("/home/shop/srv{}", url_of("c"))]
    );
}

#[test]
fn thumbnail_needs_its_conversion() {
    let outs = outcomes_for(&["a", "b"], &[true, false]);
    let failed_thumb = create_thumbnail_url(&Some(String::from("b")), VENDOR, PRODUCT);
    assert_eq!(plan_update(&outs, &failed_thumb).unwrap().thumbnail, None);
    let unknown_thumb = create_thumbnail_url(&Some(String::from("z")), VENDOR, PRODUCT);
    assert_eq!(plan_update(&outs, &unknown_thumb).unwrap().thumbnail, None);
    let good_thumb = create_thumbnail_url(&Some(String::from("a")), VENDOR, PRODUCT);
    assert_eq!(plan_update(&outs, &good_thumb).unwrap().thumbnail, Some(url_of("a")));
}

#[test]
fn three_files_two_converted_with_thumbnail() {
    let outs = outcomes_for(&["a", "b", "c"], &[true, true, false]);
    let thumb = create_thumbnail_url(&Some(String::from("b")), VENDOR, PRODUCT);
    let update: ImageUpdate = plan_update(&outs, &thumb).unwrap();
    assert_eq!(update.images, vec![url_of("a"), url_of("b")]);
    assert_eq!(update.thumbnail, Some(url_of("b")));
    assert!(rollback_paths(HOME, &update, true).is_empty());
    let c: ImagePaths = build_image_paths("c", "tok-c", HOME, VENDOR, PRODUCT);
    let cleanup = cleanup_after_conversion(&c, &outs[2]);
    assert_eq!(cleanup, vec![String::from("/tmp/tok-c.upload"), destination_path(&c)]);
}

#[test]
fn three_files_update_refused() {
    let outs = outcomes_for(&["a", "b", "c"], &[true, true, false]);
    let thumb = create_thumbnail_url(&Some(String::from("b")), VENDOR, PRODUCT);
    let update = plan_update(&outs, &thumb).unwrap();
    let removed = rollback_paths(HOME, &update, false);
    assert_eq!(
        removed,
        vec![format!("/home/shop/srv{}", url_of("a")), format!("/home/shop/srv{}", url_of("b"))]
    );
}

#[test]
fn deletion_paths_with_and_without_root() {
    let urls = vec![String::from("/x/y.avif"), String::from("/tmp/z.upload")];
    assert_eq!(
        delete_file_paths(HOME, &urls, true),
        vec![String::from("/home/shop/srv/x/y.avif"), String::from("/home/shop/srv/tmp/z.upload")]
    );
    assert_eq!(delete_file_paths(HOME, &urls, false), urls);
}

#[test]
fn batch_is_staged_in_order() {
    let ids = vec![String::from("a"), String::from("b"), String::from("a")];
    let staged = stage_batch(&ids, HOME, VENDOR, PRODUCT);
    assert_eq!(staged.len(), 3);
    assert_eq!(staged[1].url, url_of("b"));
    assert_eq!(staged[2].url, url_of("a"));
    assert_ne!(staged[0].temp_path, staged[2].temp_path);
    assert!(stage_batch(&Vec::new(), HOME, VENDOR, PRODUCT).is_empty());
}

#[test]
fn images_and_ids_must_pair() {
    assert_eq!(pair_count(2, 2).unwrap(), 2);
    assert_eq!(pair_count(0, 0).unwrap(), 0);
    match pair_count(2, 1) {
        Err(inlet_shop::error::AppError::InvalidInput(m)) => {
            assert_eq!(m, "Each image needs exactly one id")
        },
        _ => panic!("unpaired upload accepted"),
    }
}
