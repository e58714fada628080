//! Assembly of the requests that carry one file to the service.
//!
//! Checking sends the descriptor alone. Updating sends the descriptor and,
//! each in a request of its own to its own endpoint, the optional assets
//! whose files are there. A file that is not there is left out without
//! complaint; one that is there and cannot be read fails the whole file.

use vstd::prelude::*;
use crate::endpoint::{asset_content_type, asset_file_name, Action, Asset, EndpointSet};
use crate::text::{ends_with, starts_with};

verus! {

/// The HTTP method of a request.
#[derive(Debug, Clone, Copy, PartialEq, Eq, Structural)]
pub enum Method {
    Post,
    Put,
}

/// One request to the service.
#[derive(Debug, Clone, PartialEq, Eq)]
pub struct Request {
    /// The asset that the request carries.
    pub asset: Asset,
    pub method: Method,
    pub url: String,
    pub content_type: String,
    pub body: Vec<u8>,
}

/// The mathematical value of a [`Request`].
pub struct RequestView {
    pub asset: Asset,
    pub method: Method,
    pub url: Seq<char>,
    pub content_type: Seq<char>,
    pub body: Seq<u8>,
}

impl View for Request {
    type V = RequestView;

    open spec fn view(&self) -> RequestView {
        RequestView {
            asset: self.asset,
            method: self.method,
            url: self.url@,
            content_type: self.content_type@,
            body: self.body@,
        }
    }
}

/// The views of a vector of requests, in order.
pub open spec fn request_views(v: Seq<Request>) -> Seq<RequestView> {
    Seq::new(v.len(), |i: int| v[i]@)
}

/// What the caller found of one local file.
#[derive(Debug, Clone, PartialEq, Eq)]
pub enum FileContent {
    /// There is no such file.
    Absent,
    /// The file's bytes.
    Present(Vec<u8>),
    /// The file is there and could not be read, for the reason given.
    Unreadable(String),
}

/// The mathematical value of a [`FileContent`].
pub enum ContentView {
    Absent,
    Present(Seq<u8>),
    Unreadable(Seq<char>),
}

impl View for FileContent {
    type V = ContentView;

    open spec fn view(&self) -> ContentView {
        match self {
            FileContent::Absent => ContentView::Absent,
            FileContent::Present(bytes) => ContentView::Present(bytes@),
            FileContent::Unreadable(reason) => ContentView::Unreadable(reason@),
        }
    }
}

/// A local file that was needed and could not be read.
#[derive(Debug, Clone, PartialEq, Eq)]
pub struct ReadError {
    /// The asset whose file it is.
    pub asset: Asset,
    pub detail: String,
}

/// The mathematical value of a [`ReadError`].
pub struct ReadErrorView {
    pub asset: Asset,
    pub detail: Seq<char>,
}

impl View for ReadError {
    type V = ReadErrorView;

    open spec fn view(&self) -> ReadErrorView {
        ReadErrorView { asset: self.asset, detail: self.detail@ }
    }
}

/// The request that carries `body` as `asset` to `url`: a POST under the
/// asset's content type.
pub open spec fn request_for(asset: Asset, url: Seq<char>, body: Seq<u8>) -> RequestView {
    RequestView { asset, method: Method::Post, url, content_type: asset_content_type(asset), body }
}

/// The detail of the error for a primary file that is not there.
pub open spec fn missing_detail() -> Seq<char> {
    "file not found"@
}

/// The part of a submission that the primary file gives: its request, or the
/// error where it is missing or cannot be read.
pub open spec fn primary_part(endpoints: Map<Asset, Seq<char>>, file: ContentView) -> Result<
    Seq<RequestView>,
    ReadErrorView,
> {
    match file {
        ContentView::Present(bytes) => Ok(
            seq![request_for(Asset::Config, endpoints[Asset::Config], bytes)],
        ),
        ContentView::Absent => Err(ReadErrorView { asset: Asset::Config, detail: missing_detail() }),
        ContentView::Unreadable(reason) => Err(
            ReadErrorView { asset: Asset::Config, detail: reason },
        ),
    }
}

/// The part of an update that an optional asset gives. Where the set has no
/// endpoint for the asset its file is not looked at. Otherwise there is
/// nothing where the file is absent, one request where it is there, and an
/// error where it cannot be read.
pub open spec fn optional_part(
    asset: Asset,
    endpoints: Map<Asset, Seq<char>>,
    file: ContentView,
) -> Result<Seq<RequestView>, ReadErrorView> {
    if endpoints.contains_key(asset) {
        match file {
            ContentView::Absent => Ok(Seq::empty()),
            ContentView::Present(bytes) => Ok(seq![request_for(asset, endpoints[asset], bytes)]),
            ContentView::Unreadable(reason) => Err(ReadErrorView { asset, detail: reason }),
        }
    } else {
        Ok(Seq::empty())
    }
}

/// The requests of one file, in the order in which they are sent, or the
/// first read error in that order.
pub open spec fn built(
    action: Action,
    endpoints: Map<Asset, Seq<char>>,
    primary: ContentView,
    thumbnail: ContentView,
    banner: ContentView,
) -> Result<Seq<RequestView>, ReadErrorView> {
    match primary_part(endpoints, primary) {
        Err(error) => Err(error),
        Ok(config) => match action {
            Action::Validate => Ok(config),
            Action::Update => match optional_part(Asset::Thumbnail, endpoints, thumbnail) {
                Err(error) => Err(error),
                Ok(first) => match optional_part(Asset::Banner, endpoints, banner) {
                    Err(error) => Err(error),
                    Ok(second) => Ok(config + first + second),
                },
            },
        },
    }
}

/// The request that carries `body` as `asset` to `url`.
pub fn make_request(asset: Asset, url: &String, body: Vec<u8>) -> (request: Request)
    ensures
        request@ == request_for(asset, url@, body@),
{
    Request {
        asset,
        method: Method::Post,
        url: url.clone(),
        content_type: asset.content_type().to_owned(),
        body,
    }
}

/// Puts the request of an optional asset behind `requests`, where its file
/// is there and the set has an endpoint for it.
fn add_optional(
    requests: &mut Vec<Request>,
    asset: Asset,
    endpoints: &EndpointSet,
    file: FileContent,
) -> (result: Result<(), ReadError>)
    ensures
        match result {
            Ok(()) => optional_part(asset, endpoints@, file@) matches Ok(part) && request_views(
                final(requests)@,
            ) == request_views(old(requests)@) + part,
            Err(error) => optional_part(asset, endpoints@, file@) == Err::<
                Seq<RequestView>,
                ReadErrorView,
            >(error@),
        },
{
    proof {
        assert(request_views(requests@) + Seq::<RequestView>::empty() =~= request_views(requests@));
    }
    match endpoints.get(asset) {
        None => Ok(()),
        Some(url) => match file {
            FileContent::Absent => Ok(()),
            FileContent::Present(bytes) => {
                let request = make_request(asset, url, bytes);
                requests.push(request);
                proof {
                    assert(request_views(requests@) =~= request_views(old(requests)@)
                        + seq![request@]);
                }
                Ok(())
            },
            FileContent::Unreadable(reason) => Err(ReadError { asset, detail: reason }),
        },
    }
}

/// Assembles the requests of one file from what was found on disk.
///
/// `primary` is the file itself; `thumbnail` and `banner` are the files of
/// those names beside it, which only an update looks at.
pub fn build_requests(
    action: Action,
    endpoints: &EndpointSet,
    primary: FileContent,
    thumbnail: FileContent,
    banner: FileContent,
) -> (result: Result<Vec<Request>, ReadError>)
    ensures
        match result {
            Ok(requests) => built(action, endpoints@, primary@, thumbnail@, banner@) == Ok::<
                Seq<RequestView>,
                ReadErrorView,
            >(request_views(requests@)),
            Err(error) => built(action, endpoints@, primary@, thumbnail@, banner@) == Err::<
                Seq<RequestView>,
                ReadErrorView,
            >(error@),
        },
{
    let mut requests: Vec<Request> = Vec::new();
    match primary {
        FileContent::Present(bytes) => {
            let request = make_request(Asset::Config, &endpoints.config, bytes);
            requests.push(request);
            proof {
                assert(request_views(requests@) =~= seq![request@]);
            }
        },
        FileContent::Absent => {
            return Err(ReadError { asset: Asset::Config, detail: "file not found".to_owned() });
        },
        FileContent::Unreadable(reason) => {
            return Err(ReadError { asset: Asset::Config, detail: reason });
        },
    }
    match action {
        Action::Validate => Ok(requests),
        Action::Update => {
            match add_optional(&mut requests, Asset::Thumbnail, endpoints, thumbnail) {
                Err(error) => {
                    return Err(error);
                },
                Ok(()) => {},
            }
            match add_optional(&mut requests, Asset::Banner, endpoints, banner) {
                Err(error) => {
                    return Err(error);
                },
                Ok(()) => {},
            }
            Ok(requests)
        },
    }
}

/// The file that stands for an optional asset among the two beside the
/// primary file.
pub open spec fn file_of(asset: Asset, thumbnail: ContentView, banner: ContentView) -> ContentView {
    if asset == Asset::Thumbnail {
        thumbnail
    } else {
        banner
    }
}

/// Whether some request of `requests` carries `asset`.
pub open spec fn carries(requests: Seq<RequestView>, asset: Asset) -> bool {
    exists|i: int| 0 <= i < requests.len() && (#[trigger] requests[i]).asset == asset
}

/// An update leaves an optional asset out when its file is absent, and that
/// is no error; when the file is there, the update carries it to the asset's
/// endpoint under the asset's content type, unless another file fails.
pub proof fn lemma_optional_asset_follows_file(
    endpoints: Map<Asset, Seq<char>>,
    primary: ContentView,
    thumbnail: ContentView,
    banner: ContentView,
    asset: Asset,
)
    requires
        asset != Asset::Config,
        endpoints.contains_key(asset),
    ensures
        file_of(asset, thumbnail, banner) is Absent ==> match built(
            Action::Update,
            endpoints,
            primary,
            thumbnail,
            banner,
        ) {
            Ok(requests) => !carries(requests, asset),
            Err(error) => error.asset != asset,
        },
        file_of(asset, thumbnail, banner) matches ContentView::Present(bytes) ==> match built(
            Action::Update,
            endpoints,
            primary,
            thumbnail,
            banner,
        ) {
            Ok(requests) => exists|i: int|
                0 <= i < requests.len() && #[trigger] requests[i] == request_for(
                    asset,
                    endpoints[asset],
                    bytes,
                ) && requests[i].content_type == asset_content_type(asset),
            Err(error) => error.asset != asset,
        },
{
    let all = built(Action::Update, endpoints, primary, thumbnail, banner);
    if let Ok(requests) = all {
        let config = primary_part(endpoints, primary)->Ok_0;
        let first = optional_part(Asset::Thumbnail, endpoints, thumbnail)->Ok_0;
        let second = optional_part(Asset::Banner, endpoints, banner)->Ok_0;
        assert(requests == config + first + second);
        assert(config.len() == 1 && config[0].asset == Asset::Config);
        if let ContentView::Present(bytes) = file_of(asset, thumbnail, banner) {
            if asset == Asset::Thumbnail {
                assert(requests[1] == request_for(asset, endpoints[asset], bytes));
            } else {
                assert(requests[1 + first.len() as int] == request_for(asset, endpoints[asset], bytes));
            }
        }
        if file_of(asset, thumbnail, banner) is Absent {
            assert forall|i: int| 0 <= i < requests.len() implies (#[trigger] requests[i]).asset
                != asset by {
                if i >= 1 && i < 1 + first.len() {
                    assert(requests[i] == first[i - 1]);
                } else if i >= 1 + first.len() {
                    assert(requests[i] == second[i - 1 - first.len()]);
                }
            }
        }
    }
}

/// Checking sends exactly the descriptor, as plain text, whatever lies
/// beside it.
pub proof fn lemma_validate_sends_descriptor(
    endpoints: Map<Asset, Seq<char>>,
    bytes: Seq<u8>,
    thumbnail: ContentView,
    banner: ContentView,
)
    ensures
        built(Action::Validate, endpoints, ContentView::Present(bytes), thumbnail, banner) == Ok::<
            Seq<RequestView>,
            ReadErrorView,
        >(seq![request_for(Asset::Config, endpoints[Asset::Config], bytes)]),
        request_for(Asset::Config, endpoints[Asset::Config], bytes).content_type == "text/plain"@,
        request_for(Asset::Config, endpoints[Asset::Config], bytes).method == Method::Post,
{
}

/// Whether the requests of a file depend on the file of `asset`: the
/// primary file always, an optional one where an update has an endpoint for
/// it.
pub open spec fn is_used(action: Action, endpoints: Map<Asset, Seq<char>>, asset: Asset) -> bool {
    asset == Asset::Config || (action == Action::Update && endpoints.contains_key(asset))
}

/// Whether the caller has to look for the file of `asset` at all.
pub fn uses_file(action: Action, endpoints: &EndpointSet, asset: Asset) -> (used: bool)
    ensures
        used == is_used(action, endpoints@, asset),
{
    match asset {
        Asset::Config => true,
        _ => match action {
            Action::Update => endpoints.get(asset).is_some(),
            Action::Validate => false,
        },
    }
}

/// A file that is not used may be reported as absent without having been
/// looked for: the requests are the same.
pub proof fn lemma_unused_file_is_ignored(
    action: Action,
    endpoints: Map<Asset, Seq<char>>,
    primary: ContentView,
    thumbnail: ContentView,
    banner: ContentView,
)
    ensures
        !is_used(action, endpoints, Asset::Thumbnail) ==> built(
            action,
            endpoints,
            primary,
            thumbnail,
            banner,
        ) == built(action, endpoints, primary, ContentView::Absent, banner),
        !is_used(action, endpoints, Asset::Banner) ==> built(
            action,
            endpoints,
            primary,
            thumbnail,
            banner,
        ) == built(action, endpoints, primary, thumbnail, ContentView::Absent),
{
}

/// Whether `name` names one file in a directory on every platform: it is
/// not empty, holds neither a separator of either kind nor the colon of a
/// drive, and is neither `.` nor `..`.
pub open spec fn is_file_name(name: Seq<char>) -> bool {
    &&& name.len() > 0
    &&& forall|i: int|
        0 <= i < name.len() ==> #[trigger] name[i] != '/' && name[i] != '\\' && name[i] != ':'
    &&& name != seq!['.']
    &&& name != seq!['.', '.']
}

/// Whether `path` begins with the mark of a verbatim path, `\\?\`. Joining
/// to such a path on Windows writes the whole path anew.
pub open spec fn is_verbatim(path: Seq<char>) -> bool {
    starts_with(path, seq!['\\', '\\', '?', '\\'])
}

/// Whether `dir` can be the directory that `file` lies in: the current
/// directory, or the text that `file` begins with and that is shorter than
/// it. Where the directory ends within `file` is the platform's to say.
pub open spec fn is_directory_of(dir: Seq<char>, file: Seq<char>) -> bool {
    dir == seq!['.'] || (dir.len() < file.len() && starts_with(file, dir))
}

/// Whether `found` is a path for the file `name` beside `file`: it ends with
/// `name`, and, unless `file` is a verbatim path, it begins with a directory
/// of `file` that `name` does not reach into.
pub open spec fn is_beside(found: Seq<char>, file: Seq<char>, name: Seq<char>) -> bool {
    &&& ends_with(found, name)
    &&& !is_verbatim(file) ==> exists|dir: Seq<char>|
        #[trigger] is_directory_of(dir, file) && starts_with(found, dir) && found.len()
            >= dir.len() + name.len()
}

/// The fixed names of the optional assets each name one file.
pub proof fn lemma_asset_file_names(asset: Asset)
    ensures
        asset_file_name(asset) matches Some(name) ==> is_file_name(name),
{
    reveal_strlit("thumbnail.png");
    reveal_strlit("banner.jpg");
    if let Some(name) = asset_file_name(asset) {
        assert(name.len() > 2);
        assert(is_file_name(name));
    }
}

/// Trusted: `std::path::Path::parent` on the path `file`. By its
/// documentation the parent is the path without its final component: the
/// contract claims that it is the beginning of `file` and shorter than it.
/// Where it ends depends on the platform's separators and is not claimed.
#[verifier::external_body]
fn parent_of(file: &str) -> (parent: Option<String>)
    ensures
        parent matches Some(dir) ==> dir@.len() < file@.len() && starts_with(file@, dir@),
{
    std::path::Path::new(file).parent().map(|dir| dir.to_string_lossy().into_owned())
}

/// Trusted: `std::path::Path::join` of the directory `dir` and `name`. By
/// the documentation of `PathBuf::push` a path that is neither absolute nor
/// begins with a prefix extends `dir`, except that a verbatim `dir` is
/// written anew. The contract claims that the result ends with `name`, and,
/// for a `dir` that is not verbatim, that it begins with `dir` and holds
/// `name` behind it. Whether and which separator stands between the two is
/// the platform's and is not claimed.
#[verifier::external_body]
fn join_path(dir: &str, name: &str) -> (path: String)
    requires
        is_file_name(name@),
    ensures
        ends_with(path@, name@),
        !is_verbatim(dir@) ==> starts_with(path@, dir@) && path@.len() >= dir@.len() + name@.len(),
{
    std::path::Path::new(dir).join(name).to_string_lossy().into_owned()
}

/// The path at which the file of an optional asset is looked for: under its
/// fixed name in the directory of the primary file `file`, or in the current
/// directory where `file` has no parent. The primary file has no such path.
///
/// The platform says where the directory of `file` ends and how the name is
/// joined to it. What holds on every platform is stated: the path ends with
/// the asset's fixed name and begins with a directory of `file`.
pub fn sibling_path(file: &str, asset: Asset) -> (path: Option<String>)
    ensures
        path is Some <==> asset_file_name(asset) is Some,
        path matches Some(found) ==> is_beside(found@, file@, asset_file_name(asset)->0),
{
    match asset.file_name() {
        Some(name) => {
            let dir = match parent_of(file) {
                Some(dir) => dir,
                None => ".".to_owned(),
            };
            proof {
                lemma_asset_file_names(asset);
                reveal_strlit(".");
                assert("."@ =~= seq!['.']);
                assert(is_directory_of(dir@, file@));
                if is_verbatim(dir@) {
                    let mark = seq!['\\', '\\', '?', '\\'];
                    assert(dir@.len() >= 4);
                    assert forall|i: int| 0 <= i < 4 implies file@[i] == mark[i] by {
                        assert(file@.subrange(0, dir@.len() as int)[i] == dir@[i]);
                        assert(dir@.subrange(0, 4)[i] == mark[i]);
                    }
                    assert(file@.subrange(0, 4) =~= mark);
                }
            }
            let found = join_path(dir.as_str(), name);
            Some(found)
        },
        None => None,
    }
}

} // verus!
