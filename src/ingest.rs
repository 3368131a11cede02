use vstd::prelude::*;
use crate::error::{is_invalid_input, AppError};
use crate::storage::{
    base_dir_of, destination_path, image_url, image_url_of, stored_path_of, temp_path_of, ImagePaths,
};

verus! {

/// Checks that an upload pairs every image with an identifier, and gives
/// the number of pairs.
pub fn pair_count(images: usize, ids: usize) -> (r: Result<usize, AppError>)
    ensures
        images == ids ==> r == Ok::<usize, AppError>(images),
        images != ids ==> r is Err && is_invalid_input(
            r->Err_0,
            "Each image needs exactly one id"@,
        ),
{
    if images == ids {
        Ok(images)
    } else {
        Err(AppError::invalid_input("Each image needs exactly one id"))
    }
}

/// What came of converting one staged upload.
pub enum ConversionOutcome {
    /// The image now stands at its destination and is published under this URL.
    Converted(String),
    Failed,
}

/// The arguments handed to the image converter: read `input`, write an AVIF
/// of the given quality, resized to `size`, at `output`.
pub open spec fn conversion_args_of(
    input: Seq<char>,
    quality: Seq<char>,
    size: Seq<char>,
    output: Seq<char>,
) -> Seq<Seq<char>> {
    seq![
        "--input"@,
        input,
        "--format"@,
        "avif"@,
        "--quality"@,
        quality,
        "resize"@,
        size,
        "--output"@,
        output,
    ]
}

/// Builds the converter's command line for one upload.
pub fn conversion_args(input: &str, quality: &str, size: &str, output: &str) -> (r: Vec<String>)
    ensures
        r.deep_view() == conversion_args_of(input@, quality@, size@, output@),
{
    let mut r: Vec<String> = Vec::new();
    r.push(String::from_str("--input"));
    r.push(String::from_str(input));
    r.push(String::from_str("--format"));
    r.push(String::from_str("avif"));
    r.push(String::from_str("--quality"));
    r.push(String::from_str(quality));
    r.push(String::from_str("resize"));
    r.push(String::from_str(size));
    r.push(String::from_str("--output"));
    r.push(String::from_str(output));
    assert(r.deep_view() =~= conversion_args_of(input@, quality@, size@, output@));
    r
}

/// The converter's command line for an upload with the given paths, at the
/// quality and size used for catalogue images.
pub fn shrink_and_write_image(paths: &ImagePaths) -> (r: Vec<String>)
    ensures
        r.deep_view() == conversion_args_of(
            paths.temp_path@,
            "50"@,
            "1000"@,
            paths.destination(),
        ),
{
    let output = destination_path(paths);
    conversion_args(paths.temp_path.as_str(), "50", "1000", output.as_str())
}

/// The outcome of a conversion of an upload published under `url`, given
/// whether the converter reported success.
pub fn conversion_outcome(succeeded: bool, url: String) -> (r: ConversionOutcome)
    ensures
        succeeded ==> r == ConversionOutcome::Converted(url),
        !succeeded ==> r == ConversionOutcome::Failed,
{
    if succeeded {
        ConversionOutcome::Converted(url)
    } else {
        ConversionOutcome::Failed
    }
}

/// The files to remove once a conversion has finished: always the temporary
/// copy, and the destination as well when the conversion failed, since a
/// failed converter may have left part of its output there.
pub open spec fn cleanup_of(paths: ImagePaths, outcome: ConversionOutcome) -> Seq<Seq<char>> {
    match outcome {
        ConversionOutcome::Converted(_) => seq![paths.temp_path@],
        ConversionOutcome::Failed => seq![paths.temp_path@, paths.destination()],
    }
}

/// The files to remove once the conversion of the upload at `paths` is over.
pub fn cleanup_after_conversion(paths: &ImagePaths, outcome: &ConversionOutcome) -> (r: Vec<
    String,
>)
    ensures
        r.deep_view() == cleanup_of(*paths, *outcome),
{
    let mut r: Vec<String> = Vec::new();
    r.push(paths.temp_path.clone());
    match outcome {
        ConversionOutcome::Converted(_) => {},
        ConversionOutcome::Failed => {
            r.push(destination_path(paths));
        },
    }
    assert(r.deep_view() =~= cleanup_of(*paths, *outcome));
    r
}

/// The URLs of the conversions that succeeded, in the order of `outcomes`.
pub open spec fn succeeded_urls(outcomes: Seq<ConversionOutcome>) -> Seq<Seq<char>>
    decreases outcomes.len(),
{
    if outcomes.len() == 0 {
        seq![]
    } else {
        let rest = succeeded_urls(outcomes.drop_last());
        match outcomes.last() {
            ConversionOutcome::Converted(u) => rest.push(u@),
            ConversionOutcome::Failed => rest,
        }
    }
}

/// Collects the URLs of the conversions that succeeded, in order.
pub fn gather_succeeded_urls(outcomes: &Vec<ConversionOutcome>) -> (r: Vec<String>)
    ensures
        r.deep_view() == succeeded_urls(outcomes@),
{
    let mut r: Vec<String> = Vec::new();
    let mut i: usize = 0;
    while i < outcomes.len()
        invariant
            i <= outcomes@.len(),
            r.deep_view() == succeeded_urls(outcomes@.subrange(0, i as int)),
        decreases outcomes@.len() - i,
    {
        assert(outcomes@.subrange(0, i as int + 1).drop_last() =~= outcomes@.subrange(0, i as int));
        match &outcomes[i] {
            ConversionOutcome::Converted(u) => {
                r.push(u.clone());
                assert(r.deep_view() =~= succeeded_urls(outcomes@.subrange(0, i as int)).push(u@));
            },
            ConversionOutcome::Failed => {},
        }
        i = i + 1;
    }
    assert(outcomes@.subrange(0, outcomes@.len() as int) =~= outcomes@);
    r
}


/// Whether `url` is one of `urls`.
fn contains_url(urls: &Vec<String>, url: &String) -> (r: bool)
    ensures
        r == urls.deep_view().contains(url@),
{
    let mut i: usize = 0;
    while i < urls.len()
        invariant
            i <= urls@.len(),
            forall|j: int| 0 <= j < i ==> urls.deep_view()[j] != url@,
        decreases urls@.len() - i,
    {
        if urls[i] == *url {
            assert(urls.deep_view()[i as int] == url@);
            return true;
        }
        i = i + 1;
    }
    false
}

/// The published URL of the thumbnail the client named, if it named one.
pub fn create_thumbnail_url(thumbnail: &Option<String>, vendor: &str, product: &str) -> (r: Option<
    String,
>)
    ensures
        r.deep_view() == match thumbnail {
            Some(t) => Some(image_url_of(vendor@, product@, t@)),
            None => None,
        },
{
    match thumbnail {
        Some(t) => Some(image_url(vendor, product, t.as_str())),
        None => None,
    }
}

/// The one change a batch makes to its product: URLs appended to its
/// images, and the thumbnail replaced where one is given.
pub struct ImageUpdate {
    pub images: Vec<String>,
    pub thumbnail: Option<String>,
}

impl DeepView for ImageUpdate {
    type V = (Seq<Seq<char>>, Option<Seq<char>>);

    open spec fn deep_view(&self) -> Self::V {
        (self.images.deep_view(), self.thumbnail.deep_view())
    }
}

/// The thumbnail a batch sets: the requested one, if its conversion succeeded.
pub open spec fn planned_thumbnail(
    outcomes: Seq<ConversionOutcome>,
    thumbnail: Option<Seq<char>>,
) -> Option<Seq<char>> {
    match thumbnail {
        Some(t) => if succeeded_urls(outcomes).contains(t) {
            Some(t)
        } else {
            None
        },
        None => None,
    }
}

/// The change a batch makes: none when no conversion succeeded, else every
/// succeeded URL appended, with the thumbnail of `planned_thumbnail`.
pub open spec fn planned_update(
    outcomes: Seq<ConversionOutcome>,
    thumbnail: Option<Seq<char>>,
) -> Option<(Seq<Seq<char>>, Option<Seq<char>>)> {
    if succeeded_urls(outcomes).len() == 0 {
        None
    } else {
        Some((succeeded_urls(outcomes), planned_thumbnail(outcomes, thumbnail)))
    }
}

/// Decides, once every conversion of a batch is over, which update to apply
/// to the product; `thumbnail_url` is the URL of the requested thumbnail.
pub fn plan_update(outcomes: &Vec<ConversionOutcome>, thumbnail_url: &Option<String>) -> (r: Option<
    ImageUpdate,
>)
    ensures
        r.deep_view() == planned_update(outcomes@, thumbnail_url.deep_view()),
{
    let urls = gather_succeeded_urls(outcomes);
    if urls.len() == 0 {
        return None;
    }
    let thumbnail = match thumbnail_url {
        Some(t) => if contains_url(&urls, t) {
            Some(t.clone())
        } else {
            None
        },
        None => None,
    };
    Some(ImageUpdate { images: urls, thumbnail })
}

/// The files a batch removes after its update: none when the update was
/// applied, else the stored copy of every image it would have added.
pub open spec fn rollback_of(home: Seq<char>, images: Seq<Seq<char>>, applied: bool) -> Seq<
    Seq<char>,
> {
    if applied {
        seq![]
    } else {
        images.map_values(|u: Seq<char>| stored_path_of(home, u))
    }
}

/// The files to remove once the database has answered the batch's update.
pub fn rollback_paths(home: &str, update: &ImageUpdate, applied: bool) -> (r: Vec<String>)
    ensures
        r.deep_view() == rollback_of(home@, update.images.deep_view(), applied),
{
    if applied {
        let r: Vec<String> = Vec::new();
        assert(r.deep_view() =~= rollback_of(home@, update.images.deep_view(), applied));
        r
    } else {
        let r = crate::storage::delete_file_paths(home, &update.images, true);
        assert(r.deep_view() =~= rollback_of(home@, update.images.deep_view(), applied));
        r
    }
}


/// A stored product's images and thumbnail once `update` has been applied:
/// the images appended, the thumbnail replaced only where one is given.
pub open spec fn after_update(
    images: Seq<Seq<char>>,
    thumbnail: Option<Seq<char>>,
    update: (Seq<Seq<char>>, Option<Seq<char>>),
) -> (Seq<Seq<char>>, Option<Seq<char>>) {
    (
        images + update.0,
        match update.1 {
            Some(t) => Some(t),
            None => thumbnail,
        },
    )
}

/// A stored product's images and thumbnail at the end of a batch, given
/// whether the database applied the batch's update.
pub open spec fn after_batch(
    images: Seq<Seq<char>>,
    thumbnail: Option<Seq<char>>,
    outcomes: Seq<ConversionOutcome>,
    thumbnail_url: Option<Seq<char>>,
    applied: bool,
) -> (Seq<Seq<char>>, Option<Seq<char>>) {
    match planned_update(outcomes, thumbnail_url) {
        Some(u) => if applied {
            after_update(images, thumbnail, u)
        } else {
            (images, thumbnail)
        },
        None => (images, thumbnail),
    }
}

/// Whether outcome `i` is a success published under `url`.
pub open spec fn converted_at(outcomes: Seq<ConversionOutcome>, i: int, url: Seq<char>) -> bool {
    match outcomes[i] {
        ConversionOutcome::Converted(u) => u@ == url,
        ConversionOutcome::Failed => false,
    }
}

/// A URL is among the succeeded ones exactly when some outcome is a success
/// published under it.
pub proof fn lemma_succeeded_urls_contains(outcomes: Seq<ConversionOutcome>, url: Seq<char>)
    ensures
        succeeded_urls(outcomes).contains(url) <==> exists|i: int|
            0 <= i < outcomes.len() && #[trigger] converted_at(outcomes, i, url),
    decreases outcomes.len(),
{
    if outcomes.len() > 0 {
        let init = outcomes.drop_last();
        let n = outcomes.len() - 1;
        lemma_succeeded_urls_contains(init, url);
        assert forall|i: int| 0 <= i < n implies converted_at(init, i, url) == converted_at(
            outcomes,
            i,
            url,
        ) by {
            assert(init[i] == outcomes[i]);
        }
        if succeeded_urls(outcomes).contains(url) {
            let rest = succeeded_urls(init);
            match outcomes.last() {
                ConversionOutcome::Converted(u) => {
                    let k = choose|k: int| 0 <= k < rest.push(u@).len() && rest.push(u@)[k] == url;
                    if k == rest.len() {
                        assert(converted_at(outcomes, n, url));
                    } else {
                        assert(rest[k] == url);
                        let i = choose|i: int| 0 <= i < init.len() && #[trigger] converted_at(init, i, url);
                        assert(converted_at(outcomes, i, url));
                    }
                },
                ConversionOutcome::Failed => {
                    let i = choose|i: int| 0 <= i < init.len() && #[trigger] converted_at(init, i, url);
                    assert(converted_at(outcomes, i, url));
                },
            }
        }
        if exists|i: int| 0 <= i < outcomes.len() && #[trigger] converted_at(outcomes, i, url) {
            let i = choose|i: int| 0 <= i < outcomes.len() && #[trigger] converted_at(outcomes, i, url);
            let rest = succeeded_urls(init);
            if i == n {
                match outcomes.last() {
                    ConversionOutcome::Converted(u) => {
                        assert(rest.push(u@)[rest.len() as int] == url);
                    },
                    ConversionOutcome::Failed => {},
                }
            } else {
                assert(converted_at(init, i, url));
                let k = choose|k: int| 0 <= k < rest.len() && rest[k] == url;
                match outcomes.last() {
                    ConversionOutcome::Converted(u) => {
                        assert(rest.push(u@)[k] == url);
                    },
                    ConversionOutcome::Failed => {},
                }
            }
        }
    }
}

/// When every conversion failed, no URL succeeded.
pub proof fn lemma_all_failed_no_urls(outcomes: Seq<ConversionOutcome>)
    requires
        forall|i: int| 0 <= i < outcomes.len() ==> #[trigger] outcomes[i] == ConversionOutcome::Failed,
    ensures
        succeeded_urls(outcomes) == Seq::<Seq<char>>::empty(),
    decreases outcomes.len(),
{
    if outcomes.len() > 0 {
        let init = outcomes.drop_last();
        assert forall|i: int| 0 <= i < init.len() implies #[trigger] init[i] == ConversionOutcome::Failed by {
            assert(init[i] == outcomes[i]);
        }
        lemma_all_failed_no_urls(init);
        assert(outcomes.last() == outcomes[outcomes.len() - 1]);
    }
}

/// Distinct image identifiers of one product give distinct URLs.
pub proof fn lemma_image_url_injective(vendor: Seq<char>, product: Seq<char>, a: Seq<char>, b: Seq<char>)
    requires
        image_url_of(vendor, product, a) == image_url_of(vendor, product, b),
    ensures
        a == b,
{
    let pre = "/vendor-"@ + vendor + "/product-"@ + product + "/"@;
    let x = image_url_of(vendor, product, a);
    assert(x == pre + a + ".avif"@);
    assert(image_url_of(vendor, product, b) == pre + b + ".avif"@);
    assert(a =~= x.subrange(pre.len() as int, (pre.len() + a.len()) as int));
    assert(b =~= x.subrange(pre.len() as int, (pre.len() + b.len()) as int));
}


/// A batch without files plans no update, so the stored product is left as
/// it was whatever the database would have answered.
pub proof fn empty_batch_changes_nothing(
    images: Seq<Seq<char>>,
    thumbnail: Option<Seq<char>>,
    thumbnail_url: Option<Seq<char>>,
    applied: bool,
)
    ensures
        planned_update(Seq::<ConversionOutcome>::empty(), thumbnail_url) is None,
        after_batch(images, thumbnail, Seq::<ConversionOutcome>::empty(), thumbnail_url, applied)
            == (images, thumbnail),
{
}

/// A batch in which every conversion failed plans no update, leaves the
/// stored product as it was, and removes both the temporary copy and any
/// partial output of each of its files.
pub proof fn failed_batch_changes_nothing(
    images: Seq<Seq<char>>,
    thumbnail: Option<Seq<char>>,
    outcomes: Seq<ConversionOutcome>,
    thumbnail_url: Option<Seq<char>>,
    applied: bool,
)
    requires
        forall|i: int| 0 <= i < outcomes.len() ==> #[trigger] outcomes[i] == ConversionOutcome::Failed,
    ensures
        planned_update(outcomes, thumbnail_url) is None,
        after_batch(images, thumbnail, outcomes, thumbnail_url, applied) == (images, thumbnail),
        forall|paths: ImagePaths|
            #[trigger] cleanup_of(paths, ConversionOutcome::Failed).contains(paths.temp_path@)
                && cleanup_of(paths, ConversionOutcome::Failed).contains(paths.destination()),
{
    lemma_all_failed_no_urls(outcomes);
    assert forall|paths: ImagePaths|
        #[trigger] cleanup_of(paths, ConversionOutcome::Failed).contains(paths.temp_path@)
            && cleanup_of(paths, ConversionOutcome::Failed).contains(paths.destination()) by {
        let c = cleanup_of(paths, ConversionOutcome::Failed);
        assert(c[0] == paths.temp_path@);
        assert(c[1] == paths.destination());
    }
}

/// When some conversion succeeded and the database applied the update, the
/// product's images grow by exactly the succeeded URLs and nothing is rolled
/// back.
pub proof fn committed_batch_appends_succeeded(
    home: Seq<char>,
    images: Seq<Seq<char>>,
    thumbnail: Option<Seq<char>>,
    outcomes: Seq<ConversionOutcome>,
    thumbnail_url: Option<Seq<char>>,
)
    requires
        succeeded_urls(outcomes).len() > 0,
    ensures
        after_batch(images, thumbnail, outcomes, thumbnail_url, true).0 == images + succeeded_urls(
            outcomes,
        ),
        rollback_of(home, succeeded_urls(outcomes), true) == Seq::<Seq<char>>::empty(),
{
}

/// The cleanup after a successful conversion removes the temporary copy and
/// never the converted image.
pub proof fn converted_image_is_kept(
    paths: ImagePaths,
    token: Seq<char>,
    home: Seq<char>,
    vendor: Seq<char>,
    product: Seq<char>,
    id: Seq<char>,
    url: String,
)
    requires
        paths.temp_path@ == temp_path_of(token),
        paths.base_dir@ == base_dir_of(home),
        paths.url@ == image_url_of(vendor, product, id),
    ensures
        cleanup_of(paths, ConversionOutcome::Converted(url)) == seq![paths.temp_path@],
        !cleanup_of(paths, ConversionOutcome::Converted(url)).contains(paths.destination()),
{
    reveal_strlit(".upload");
    reveal_strlit(".avif");
    let t = paths.temp_path@;
    let d = paths.destination();
    assert(t.last() == 'd');
    assert(d.last() == 'f');
    assert(t != d);
    let c = cleanup_of(paths, ConversionOutcome::Converted(url));
    assert(c.len() == 1 && c[0] == t);
}

/// When the database refused the update of a batch in which `n > 0`
/// conversions succeeded, the product is left as it was and exactly the
/// stored copies of those `n` images are removed.
pub proof fn rolled_back_batch_removes_converted(
    home: Seq<char>,
    images: Seq<Seq<char>>,
    thumbnail: Option<Seq<char>>,
    outcomes: Seq<ConversionOutcome>,
    thumbnail_url: Option<Seq<char>>,
)
    requires
        succeeded_urls(outcomes).len() > 0,
    ensures
        after_batch(images, thumbnail, outcomes, thumbnail_url, false) == (images, thumbnail),
        rollback_of(home, succeeded_urls(outcomes), false).len() == succeeded_urls(outcomes).len(),
        forall|i: int|
            0 <= i < succeeded_urls(outcomes).len() ==> #[trigger] rollback_of(
                home,
                succeeded_urls(outcomes),
                false,
            )[i] == stored_path_of(home, succeeded_urls(outcomes)[i]),
{
}

/// The thumbnail is set exactly when one was requested and the conversion
/// of that identifier succeeded; it is then set to that identifier's URL,
/// and otherwise the stored thumbnail is left untouched.
pub proof fn thumbnail_set_iff_converted(
    vendor: Seq<char>,
    product: Seq<char>,
    ids: Seq<Seq<char>>,
    outcomes: Seq<ConversionOutcome>,
    requested: Option<Seq<char>>,
    images: Seq<Seq<char>>,
    thumbnail: Option<Seq<char>>,
)
    requires
        outcomes.len() == ids.len(),
        forall|i: int, u: Seq<char>|
            0 <= i < ids.len() && #[trigger] converted_at(outcomes, i, u) ==> u == image_url_of(
                vendor,
                product,
                ids[i],
            ),
    ensures
        ({
            let url = match requested {
                Some(t) => Some(image_url_of(vendor, product, t)),
                None => None,
            };
            let set = planned_thumbnail(outcomes, url);
            &&& set is Some <==> (requested is Some && exists|i: int|
                0 <= i < ids.len() && ids[i] == requested->0 && #[trigger] outcomes[i]
                    is Converted)
            &&& set is Some ==> set == Some(image_url_of(vendor, product, requested->0))
            &&& set is None ==> after_batch(images, thumbnail, outcomes, url, true).1 == thumbnail
        }),
{
    match requested {
        Some(t) => {
            let url = image_url_of(vendor, product, t);
            lemma_succeeded_urls_contains(outcomes, url);
            if succeeded_urls(outcomes).contains(url) {
                let i = choose|i: int| 0 <= i < outcomes.len() && #[trigger] converted_at(outcomes, i, url);
                lemma_image_url_injective(vendor, product, ids[i], t);
            }
            if exists|i: int| 0 <= i < ids.len() && ids[i] == t && #[trigger] outcomes[i] is Converted {
                let i = choose|i: int| 0 <= i < ids.len() && ids[i] == t && #[trigger] outcomes[i] is Converted;
                let u = outcomes[i]->Converted_0;
                assert(converted_at(outcomes, i, u@));
                assert(converted_at(outcomes, i, url));
            }
        },
        None => {},
    }
}

} // verus!
