use curator::endpoint::{get_endpoints, Action, Asset, EndpointSet, RouteTarget};
use curator::request::{
    build_requests, make_request, sibling_path, uses_file, FileContent, Method, ReadError, Request,
};

fn endpoints(action: Action) -> EndpointSet {
    get_endpoints(&action, &RouteTarget::CardanoOverview { policy_id: "XYZ".to_string() })
}

fn config() -> FileContent {
    FileContent::Present(b"name = \"x\"\n".to_vec())
}

fn config_request(action: Action) -> Request {
    Request {
        asset: Asset::Config,
        method: Method::Post,
        url: match action {
            Action::Validate => "https://curator.hodlcroft.net/validate/cardano/XYZ".to_string(),
            Action::Update => "https://curator.hodlcroft.net/update/cardano/XYZ/config".to_string(),
        },
        content_type: "text/plain".to_string(),
        body: b"name = \"x\"\n".to_vec(),
    }
}

fn thumbnail_request() -> Request {
    Request {
        asset: Asset::Thumbnail,
        method: Method::Post,
        url: "https://curator.hodlcroft.net/update/cardano/XYZ/thumbnail".to_string(),
        content_type: "image/png".to_string(),
        body: vec![0x89, b'P', b'N', b'G'],
    }
}

fn banner_request() -> Request {
    Request {
        asset: Asset::Banner,
        method: Method::Post,
        url: "https://curator.hodlcroft.net/update/cardano/XYZ/banner".to_string(),
        content_type: "image/jpeg".to_string(),
        body: vec![0xff, 0xd8, 0xff],
    }
}

fn thumbnail() -> FileContent {
    FileContent::Present(vec![0x89, b'P', b'N', b'G'])
}

fn banner() -> FileContent {
    FileContent::Present(vec![0xff, 0xd8, 0xff])
}

#[test]
fn validate_sends_the_descriptor_as_plain_text() {
    let built = build_requests(
        Action::Validate,
        &endpoints(Action::Validate),
        config(),
        FileContent::Absent,
        FileContent::Absent,
    );
    assert_eq!(built, Ok(vec![config_request(Action::Validate)]));
}

#[test]
fn validate_does_not_look_at_the_optional_assets() {
    let built = build_requests(
        Action::Validate,
        &endpoints(Action::Update),
        config(),
        thumbnail(),
        FileContent::Unreadable("permission denied".to_string()),
    );
    assert_eq!(built, Ok(vec![config_request(Action::Update)]));
}

#[test]
fn update_omits_absent_assets() {
    let built = build_requests(
        Action::Update,
        &endpoints(Action::Update),
        config(),
        FileContent::Absent,
        FileContent::Absent,
    );
    assert_eq!(built, Ok(vec![config_request(Action::Update)]));
}

#[test]
fn update_includes_a_present_thumbnail_as_png() {
    let built = build_requests(
        Action::Update,
        &endpoints(Action::Update),
        config(),
        thumbnail(),
        FileContent::Absent,
    );
    assert_eq!(built, Ok(vec![config_request(Action::Update), thumbnail_request()]));
}

#[test]
fn update_includes_a_present_banner_as_jpeg() {
    let built = build_requests(
        Action::Update,
        &endpoints(Action::Update),
        config(),
        FileContent::Absent,
        banner(),
    );
    assert_eq!(built, Ok(vec![config_request(Action::Update), banner_request()]));
}

#[test]
fn update_sends_config_then_thumbnail_then_banner() {
    let built = build_requests(
        Action::Update,
        &endpoints(Action::Update),
        config(),
        thumbnail(),
        banner(),
    );
    assert_eq!(
        built,
        Ok(vec![config_request(Action::Update), thumbnail_request(), banner_request()])
    );
}

#[test]
fn update_leaves_out_an_asset_without_endpoint() {
    let only_config = EndpointSet {
        config: "https://curator.hodlcroft.net/update/cardano/XYZ/config".to_string(),
        thumbnail: None,
        banner: Some("https://curator.hodlcroft.net/update/cardano/XYZ/banner".to_string()),
    };
    let built = build_requests(
        Action::Update,
        &only_config,
        config(),
        FileContent::Unreadable("not looked at".to_string()),
        banner(),
    );
    assert_eq!(built, Ok(vec![config_request(Action::Update), banner_request()]));
}

#[test]
fn missing_primary_file_is_a_read_error() {
    let built = build_requests(
        Action::Validate,
        &endpoints(Action::Validate),
        FileContent::Absent,
        FileContent::Absent,
        FileContent::Absent,
    );
    assert_eq!(
        built,
        Err(ReadError { asset: Asset::Config, detail: "file not found".to_string() })
    );
}

#[test]
fn unreadable_primary_file_is_a_read_error() {
    let built = build_requests(
        Action::Update,
        &endpoints(Action::Update),
        FileContent::Unreadable("permission denied".to_string()),
        thumbnail(),
        banner(),
    );
    assert_eq!(
        built,
        Err(ReadError { asset: Asset::Config, detail: "permission denied".to_string() })
    );
}

#[test]
fn unreadable_asset_is_a_read_error_of_that_asset() {
    let built = build_requests(
        Action::Update,
        &endpoints(Action::Update),
        config(),
        FileContent::Unreadable("is a directory".to_string()),
        FileContent::Unreadable("permission denied".to_string()),
    );
    assert_eq!(
        built,
        Err(ReadError { asset: Asset::Thumbnail, detail: "is a directory".to_string() })
    );
    let built = build_requests(
        Action::Update,
        &endpoints(Action::Update),
        config(),
        thumbnail(),
        FileContent::Unreadable("permission denied".to_string()),
    );
    assert_eq!(
        built,
        Err(ReadError { asset: Asset::Banner, detail: "permission denied".to_string() })
    );
}

#[test]
fn empty_files_are_sent_empty() {
    let built = build_requests(
        Action::Update,
        &endpoints(Action::Update),
        FileContent::Present(vec![]),
        FileContent::Present(vec![]),
        FileContent::Absent,
    )
    .unwrap();
    assert_eq!(built.len(), 2);
    assert_eq!(built[0].body, Vec::<u8>::new());
    assert_eq!(built[1].asset, Asset::Thumbnail);
    assert_eq!(built[1].body, Vec::<u8>::new());
}

#[test]
fn make_request_is_a_post_under_the_assets_content_type() {
    let request = make_request(Asset::Banner, &"https://example.org/b".to_string(), vec![1, 2, 3]);
    assert_eq!(
        request,
        Request {
            asset: Asset::Banner,
            method: Method::Post,
            url: "https://example.org/b".to_string(),
            content_type: "image/jpeg".to_string(),
            body: vec![1, 2, 3],
        }
    );
}

#[test]
fn uses_file_says_which_files_to_look_for() {
    let update = endpoints(Action::Update);
    let validate = endpoints(Action::Validate);
    assert!(uses_file(Action::Update, &update, Asset::Config));
    assert!(uses_file(Action::Update, &update, Asset::Thumbnail));
    assert!(uses_file(Action::Update, &update, Asset::Banner));
    assert!(uses_file(Action::Validate, &update, Asset::Config));
    assert!(!uses_file(Action::Validate, &update, Asset::Thumbnail));
    assert!(!uses_file(Action::Validate, &update, Asset::Banner));
    assert!(!uses_file(Action::Update, &validate, Asset::Thumbnail));
    assert!(!uses_file(Action::Update, &validate, Asset::Banner));
}

#[test]
fn sibling_path_lies_in_the_directory_of_the_file() {
    assert_eq!(
        sibling_path("collections/cardano/XYZ/overview.toml", Asset::Thumbnail),
        Some("collections/cardano/XYZ/thumbnail.png".to_string())
    );
    assert_eq!(
        sibling_path("collections/cardano/XYZ/overview.toml", Asset::Banner),
        Some("collections/cardano/XYZ/banner.jpg".to_string())
    );
    assert_eq!(sibling_path("overview.toml", Asset::Thumbnail), Some("thumbnail.png".to_string()));
    assert_eq!(sibling_path("/overview.toml", Asset::Banner), Some("/banner.jpg".to_string()));
}

#[test]
fn sibling_path_of_a_file_without_parent_lies_in_the_current_directory() {
    assert_eq!(sibling_path("", Asset::Thumbnail), Some("./thumbnail.png".to_string()));
    assert_eq!(sibling_path("/", Asset::Banner), Some("./banner.jpg".to_string()));
}

#[test]
fn the_primary_file_has_no_sibling_path() {
    assert_eq!(sibling_path("collections/cardano/XYZ/overview.toml", Asset::Config), None);
}

#[test]
fn sibling_path_ends_with_the_fixed_name_and_begins_in_the_directory() {
    for file in ["a/b/overview.toml", "overview.toml", "/x/y.toml", "", "dir/"] {
        for asset in [Asset::Thumbnail, Asset::Banner] {
            let name = asset.file_name().unwrap();
            let found = sibling_path(file, asset).unwrap();
            assert!(found.ends_with(name));
            let dir = &found[..found.len() - name.len()];
            let dir = dir.strip_suffix('/').unwrap_or(dir);
            assert!(dir == "." || (file.starts_with(dir) && dir.len() < file.len()));
        }
    }
}
