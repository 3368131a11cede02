use vstd::prelude::*;
use crate::ids::fresh_uuid;

verus! {

/// The URL, relative to the storage root, under which an image of a product
/// is published: `/vendor-{vendor}/product-{product}/{id}.avif`.
pub open spec fn image_url_of(vendor: Seq<char>, product: Seq<char>, id: Seq<char>) -> Seq<char> {
    "/vendor-"@ + vendor + "/product-"@ + product + "/"@ + id + ".avif"@
}

/// The directory that holds the stored images: `{home}srv`.
pub open spec fn base_dir_of(home: Seq<char>) -> Seq<char> {
    home + "srv"@
}

/// Where on disk the image published under `url` lives.
pub open spec fn stored_path_of(home: Seq<char>, url: Seq<char>) -> Seq<char> {
    base_dir_of(home) + url
}

/// The temporary file that holds an upload while it waits for conversion.
pub open spec fn temp_path_of(token: Seq<char>) -> Seq<char> {
    "/tmp/"@ + token + ".upload"@
}

/// Builds the published URL of image `id` of `product` of `vendor`.
pub fn image_url(vendor: &str, product: &str, id: &str) -> (r: String)
    ensures
        r@ == image_url_of(vendor@, product@, id@),
{
    let mut s = String::from_str("/vendor-");
    s.append(vendor);
    s.append("/product-");
    s.append(product);
    s.append("/");
    s.append(id);
    s.append(".avif");
    s
}

/// The three paths of one upload: its temporary copy, the storage root and
/// the URL it is published under.
pub struct ImagePaths {
    pub temp_path: String,
    pub base_dir: String,
    pub url: String,
}

impl ImagePaths {
    /// The converted image's place on disk.
    pub open spec fn destination(&self) -> Seq<char> {
        self.base_dir@ + self.url@
    }
}

/// Builds the paths of upload `id`, whose temporary copy is named by `token`.
pub fn build_image_paths(id: &str, token: &str, home: &str, vendor: &str, product: &str) -> (r:
    ImagePaths)
    ensures
        r.temp_path@ == temp_path_of(token@),
        r.base_dir@ == base_dir_of(home@),
        r.url@ == image_url_of(vendor@, product@, id@),
        r.destination() == stored_path_of(home@, r.url@),
{
    let mut temp_path = String::from_str("/tmp/");
    temp_path.append(token);
    temp_path.append(".upload");
    let mut base_dir = String::from_str(home);
    base_dir.append("srv");
    let url = image_url(vendor, product, id);
    ImagePaths { temp_path, base_dir, url }
}

/// The converted image's place on disk, `{base_dir}{url}`.
pub fn destination_path(paths: &ImagePaths) -> (r: String)
    ensures
        r@ == paths.destination(),
{
    let mut s = paths.base_dir.clone();
    s.append(paths.url.as_str());
    s
}

/// Picks a fresh temporary name for upload `id` and builds its paths.
pub fn stage_image_paths(id: &str, home: &str, vendor: &str, product: &str) -> (r: ImagePaths)
    ensures
        exists|token: Seq<char>| token.len() == 36 && r.temp_path@ == temp_path_of(token),
        r.base_dir@ == base_dir_of(home@),
        r.url@ == image_url_of(vendor@, product@, id@),
{
    let token = fresh_uuid();
    build_image_paths(id, token.as_str(), home, vendor, product)
}

/// Whether `p` holds the paths of upload `id` under a fresh temporary name.
pub open spec fn staged_for(
    p: ImagePaths,
    id: Seq<char>,
    home: Seq<char>,
    vendor: Seq<char>,
    product: Seq<char>,
) -> bool {
    &&& exists|token: Seq<char>| token.len() == 36 && p.temp_path@ == temp_path_of(token)
    &&& p.base_dir@ == base_dir_of(home)
    &&& p.url@ == image_url_of(vendor, product, id)
}

/// Picks fresh temporary names for a batch of uploads, one for each of
/// `ids` and in their order, and builds their paths.
pub fn stage_batch(ids: &Vec<String>, home: &str, vendor: &str, product: &str) -> (r: Vec<
    ImagePaths,
>)
    ensures
        r@.len() == ids@.len(),
        forall|i: int|
            0 <= i < ids@.len() ==> staged_for(#[trigger] r@[i], ids@[i]@, home@, vendor@, product@),
{
    let mut r: Vec<ImagePaths> = Vec::new();
    let mut i: usize = 0;
    while i < ids.len()
        invariant
            i <= ids@.len(),
            r@.len() == i,
            forall|j: int|
                0 <= j < i ==> staged_for(#[trigger] r@[j], ids@[j]@, home@, vendor@, product@),
        decreases ids@.len() - i,
    {
        let p = stage_image_paths(ids[i].as_str(), home, vendor, product);
        assert(staged_for(p, ids@[i as int]@, home@, vendor@, product@));
        r.push(p);
        i = i + 1;
    }
    r
}

/// Where the file at `url` is removed from: under the storage root of
/// `home` when `use_srv_dir` holds, at `url` itself otherwise.
pub open spec fn deletion_path_of(home: Seq<char>, url: Seq<char>, use_srv_dir: bool) -> Seq<char> {
    if use_srv_dir {
        stored_path_of(home, url)
    } else {
        url
    }
}

/// The paths that removing `urls` touches, in order, one for each.
pub fn delete_file_paths(home: &str, urls: &Vec<String>, use_srv_dir: bool) -> (r: Vec<String>)
    ensures
        r@.len() == urls@.len(),
        forall|i: int|
            0 <= i < urls@.len() ==> #[trigger] r@[i]@ == deletion_path_of(
                home@,
                urls@[i]@,
                use_srv_dir,
            ),
{
    let mut r: Vec<String> = Vec::new();
    let mut i: usize = 0;
    while i < urls.len()
        invariant
            i <= urls@.len(),
            r@.len() == i,
            forall|j: int|
                0 <= j < i ==> #[trigger] r@[j]@ == deletion_path_of(home@, urls@[j]@, use_srv_dir),
        decreases urls@.len() - i,
    {
        let p = if use_srv_dir {
            let mut s = String::from_str(home);
            s.append("srv");
            s.append(urls[i].as_str());
            s
        } else {
            urls[i].clone()
        };
        r.push(p);
        i = i + 1;
    }
    r
}

} // verus!
