//! From a matched route and an action to the endpoints of the service.
//!
//! Strategy for updates: every asset has an endpoint of its own, and each is
//! sent as a request of its own. No combined multi-part body is built.

use vstd::prelude::*;
use crate::route::{
    captures, is_first_match, lookup, matched, policy_id_name, segment_of, segments_of,
    template_accepts, template_of, ResolvedRoute, ResourceTag, RouteTable, RouteTemplate,
    SegmentView, TemplateView,
};
use crate::route_laws::lemma_instance_is_recognized;
use crate::text::{is_plain, join_segments, lemma_split_join};

verus! {

/// What is asked of the service for a file.
#[derive(Debug, Clone, Copy, PartialEq, Eq, Structural)]
pub enum Action {
    /// Have the descriptor checked.
    Validate,
    /// Publish the descriptor and the media beside it.
    Update,
}

/// The parts of a submission.
#[derive(Debug, Clone, Copy, PartialEq, Eq, Structural)]
pub enum Asset {
    /// The descriptor itself, the primary file.
    Config,
    /// The optional thumbnail beside it.
    Thumbnail,
    /// The optional banner beside it.
    Banner,
}

/// The logical name of an asset, by which the service knows it.
pub open spec fn asset_name(asset: Asset) -> Seq<char> {
    match asset {
        Asset::Config => "config"@,
        Asset::Thumbnail => "thumbnail"@,
        Asset::Banner => "banner"@,
    }
}

/// The content type under which an asset is sent.
pub open spec fn asset_content_type(asset: Asset) -> Seq<char> {
    match asset {
        Asset::Config => "text/plain"@,
        Asset::Thumbnail => "image/png"@,
        Asset::Banner => "image/jpeg"@,
    }
}

/// The name of the file, in the primary file's directory, that holds an
/// optional asset. The primary file has no fixed name.
pub open spec fn asset_file_name(asset: Asset) -> Option<Seq<char>> {
    match asset {
        Asset::Config => None,
        Asset::Thumbnail => Some("thumbnail.png"@),
        Asset::Banner => Some("banner.jpg"@),
    }
}

impl Asset {
    /// The logical name of the asset.
    pub fn name(self) -> (name: &'static str)
        ensures
            name@ == asset_name(self),
    {
        match self {
            Asset::Config => "config",
            Asset::Thumbnail => "thumbnail",
            Asset::Banner => "banner",
        }
    }

    /// The content type under which the asset is sent.
    pub fn content_type(self) -> (content_type: &'static str)
        ensures
            content_type@ == asset_content_type(self),
    {
        match self {
            Asset::Config => "text/plain",
            Asset::Thumbnail => "image/png",
            Asset::Banner => "image/jpeg",
        }
    }

    /// The file name of an optional asset; nothing for the primary file.
    pub fn file_name(self) -> (name: Option<&'static str>)
        ensures
            match name {
                Some(text) => asset_file_name(self) == Some(text@),
                None => asset_file_name(self) is None,
            },
    {
        match self {
            Asset::Config => None,
            Asset::Thumbnail => Some("thumbnail.png"),
            Asset::Banner => Some("banner.jpg"),
        }
    }
}

/// A resource of the service, with what its endpoints are written from.
#[derive(Debug, Clone, PartialEq, Eq)]
pub enum RouteTarget {
    CardanoOverview { policy_id: String },
}

/// The mathematical value of a [`RouteTarget`].
pub enum TargetView {
    CardanoOverview { policy_id: Seq<char> },
}

impl View for RouteTarget {
    type V = TargetView;

    open spec fn view(&self) -> TargetView {
        match self {
            RouteTarget::CardanoOverview { policy_id } => TargetView::CardanoOverview {
                policy_id: policy_id@,
            },
        }
    }
}

/// The target that a resource and its bindings denote: none for a resource
/// without endpoints, none where the binding it requires is missing.
pub open spec fn target_of(tag: ResourceTag, params: Seq<(Seq<char>, Seq<char>)>) -> Option<
    TargetView,
> {
    match tag {
        ResourceTag::CardanoOverview => match lookup(params, policy_id_name()) {
            Some(policy_id) => Some(TargetView::CardanoOverview { policy_id }),
            None => None,
        },
        ResourceTag::Noop => None,
    }
}

/// The endpoint that checks the overview of the collection `policy_id`.
pub open spec fn validate_url(policy_id: Seq<char>) -> Seq<char> {
    "https://curator.hodlcroft.net/validate/cardano/"@ + policy_id
}

/// The endpoint that takes `asset` of the overview of the collection
/// `policy_id`.
pub open spec fn update_url(policy_id: Seq<char>, asset: Asset) -> Seq<char> {
    "https://curator.hodlcroft.net/update/cardano/"@ + policy_id + "/"@ + asset_name(asset)
}

/// The endpoints of an action on a target, by asset.
///
/// Checking has the one endpoint of the descriptor. Updating has one for the
/// descriptor and one for each optional asset, whether or not a file for it
/// exists anywhere.
pub open spec fn endpoints_of(action: Action, target: TargetView) -> Map<Asset, Seq<char>> {
    match (action, target) {
        (Action::Validate, TargetView::CardanoOverview { policy_id }) => map![
            Asset::Config => validate_url(policy_id),
        ],
        (Action::Update, TargetView::CardanoOverview { policy_id }) => map![
            Asset::Config => update_url(policy_id, Asset::Config),
            Asset::Thumbnail => update_url(policy_id, Asset::Thumbnail),
            Asset::Banner => update_url(policy_id, Asset::Banner),
        ],
    }
}

/// The endpoints of one file: the descriptor's always, those of the optional
/// assets where the action has them.
#[derive(Debug, Clone, PartialEq, Eq)]
pub struct EndpointSet {
    pub config: String,
    pub thumbnail: Option<String>,
    pub banner: Option<String>,
}

impl View for EndpointSet {
    type V = Map<Asset, Seq<char>>;

    open spec fn view(&self) -> Map<Asset, Seq<char>> {
        Map::new(
            |asset: Asset|
                match asset {
                    Asset::Config => true,
                    Asset::Thumbnail => self.thumbnail is Some,
                    Asset::Banner => self.banner is Some,
                },
            |asset: Asset|
                match asset {
                    Asset::Config => self.config@,
                    Asset::Thumbnail => self.thumbnail->0@,
                    Asset::Banner => self.banner->0@,
                },
        )
    }
}

impl EndpointSet {
    /// The endpoint of `asset`, where the set has one.
    pub fn get(&self, asset: Asset) -> (url: Option<&String>)
        ensures
            match url {
                Some(text) => self@.contains_key(asset) && self@[asset] == text@,
                None => !self@.contains_key(asset),
            },
    {
        match asset {
            Asset::Config => Some(&self.config),
            Asset::Thumbnail => self.thumbnail.as_ref(),
            Asset::Banner => self.banner.as_ref(),
        }
    }

    /// The number of endpoints in the set.
    pub fn len(&self) -> (n: usize)
        ensures
            n == self@.dom().len(),
            self@.dom().finite(),
            1 <= n <= 3,
    {
        let mut n: usize = 1;
        if self.thumbnail.is_some() {
            n = n + 1;
        }
        if self.banner.is_some() {
            n = n + 1;
        }
        proof {
            let with_thumbnail = if self.thumbnail is Some {
                set![Asset::Config].insert(Asset::Thumbnail)
            } else {
                set![Asset::Config]
            };
            let all = if self.banner is Some {
                with_thumbnail.insert(Asset::Banner)
            } else {
                with_thumbnail
            };
            assert(self@.dom() =~= all);
        }
        n
    }
}

/// The text of `head` followed by that of `tail`.
fn concat(head: &str, tail: &str) -> (text: String)
    ensures
        text@ == head@ + tail@,
{
    let mut text = head.to_owned();
    text.append(tail);
    text
}

/// The endpoints of `action` on `target`.
pub fn get_endpoints(action: &Action, target: &RouteTarget) -> (endpoints: EndpointSet)
    ensures
        endpoints@ == endpoints_of(*action, target@),
        *action == Action::Validate ==> endpoints@.dom() == set![Asset::Config],
        *action == Action::Update ==> endpoints@.dom() == set![
            Asset::Config,
            Asset::Thumbnail,
            Asset::Banner,
        ],
{
    match (action, target) {
        (Action::Validate, RouteTarget::CardanoOverview { policy_id }) => {
            let endpoints = EndpointSet {
                config: concat("https://curator.hodlcroft.net/validate/cardano/", policy_id.as_str()),
                thumbnail: None,
                banner: None,
            };
            proof {
                assert(endpoints@ =~= endpoints_of(*action, target@));
                assert(endpoints@.dom() =~= set![Asset::Config]);
            }
            endpoints
        },
        (Action::Update, RouteTarget::CardanoOverview { policy_id }) => {
            let base = concat("https://curator.hodlcroft.net/update/cardano/", policy_id.as_str());
            let slashed = concat(base.as_str(), "/");
            let endpoints = EndpointSet {
                config: concat(slashed.as_str(), Asset::Config.name()),
                thumbnail: Some(concat(slashed.as_str(), Asset::Thumbnail.name())),
                banner: Some(concat(slashed.as_str(), Asset::Banner.name())),
            };
            proof {
                assert(endpoints@ =~= endpoints_of(*action, target@));
                assert(endpoints@.dom() =~= set![Asset::Config, Asset::Thumbnail, Asset::Banner]);
            }
            endpoints
        },
    }
}

impl RouteTarget {
    /// The target that a resource and the captured values denote.
    pub fn from_route(route: &ResolvedRoute) -> (target: Option<RouteTarget>)
        ensures
            match target {
                Some(found) => target_of(route@.tag, route@.params) == Some(found@),
                None => target_of(route@.tag, route@.params) is None,
            },
    {
        match route.tag {
            ResourceTag::CardanoOverview => match route.param("policyId") {
                Some(policy_id) => Some(RouteTarget::CardanoOverview { policy_id: policy_id.clone() }),
                None => None,
            },
            ResourceTag::Noop => None,
        }
    }
}

/// The endpoints of an action on a matched route, where it has any.
pub open spec fn resolved(
    action: Action,
    tag: ResourceTag,
    params: Seq<(Seq<char>, Seq<char>)>,
) -> Option<Map<Asset, Seq<char>>> {
    match target_of(tag, params) {
        Some(target) => Some(endpoints_of(action, target)),
        None => None,
    }
}

/// The endpoints of `action` on a matched route. There are none for a
/// resource that the service has no endpoint for, nor where the route lacks
/// the binding that the endpoints are written from: such a file is skipped.
pub fn resolve(action: Action, route: &ResolvedRoute) -> (endpoints: Option<EndpointSet>)
    ensures
        match endpoints {
            Some(found) => resolved(action, route@.tag, route@.params) == Some(found@),
            None => resolved(action, route@.tag, route@.params) is None,
        },
{
    match RouteTarget::from_route(route) {
        Some(target) => Some(get_endpoints(&action, &target)),
        None => None,
    }
}

/// The templates that the service's resources are reached by, in the order
/// of their registration.
pub open spec fn standard_templates() -> Seq<TemplateView> {
    seq![
        template_of("collections/cardano/{policyId}/overview.toml"@, ResourceTag::CardanoOverview),
        template_of("tools/validator/Cargo.toml"@, ResourceTag::Noop),
    ]
}

/// The table of the templates that the service's resources are reached by.
pub fn standard_table() -> (table: RouteTable)
    ensures
        table@ == standard_templates(),
{
    let mut table = RouteTable::new();
    table.add(
        RouteTemplate::parse(
            "collections/cardano/{policyId}/overview.toml",
            ResourceTag::CardanoOverview,
        ),
    );
    table.add(RouteTemplate::parse("tools/validator/Cargo.toml", ResourceTag::Noop));
    proof {
        assert(table@ =~= standard_templates());
    }
    table
}

/// The endpoints that a table and an action lead to from a path.
pub open spec fn planned(table: Seq<TemplateView>, action: Action, path: Seq<char>) -> Option<
    Map<Asset, Seq<char>>,
> {
    match matched(table, path) {
        Some(route) => resolved(action, route.tag, route.params),
        None => None,
    }
}

/// The endpoints of `action` for the file at `path`; none where the file has
/// no route, and the file is then skipped.
pub fn endpoints_for(table: &RouteTable, action: Action, path: &str) -> (endpoints: Option<
    EndpointSet,
>)
    ensures
        match endpoints {
            Some(found) => planned(table@, action, path@) == Some(found@),
            None => planned(table@, action, path@) is None,
        },
{
    match table.match_path(path) {
        Some(route) => resolve(action, &route),
        None => None,
    }
}

/// The target that the standard table leads to from a path.
pub open spec fn route_target(path: Seq<char>) -> Option<TargetView> {
    match matched(standard_templates(), path) {
        Some(route) => target_of(route.tag, route.params),
        None => None,
    }
}

/// The target of the file at `path` under the standard table.
pub fn match_route(path: &str) -> (target: Option<RouteTarget>)
    ensures
        match target {
            Some(found) => route_target(path@) == Some(found@),
            None => route_target(path@) is None,
        },
{
    let table = standard_table();
    match table.match_path(path) {
        Some(route) => RouteTarget::from_route(&route),
        None => None,
    }
}

/// The path of the overview of the collection `policy_id`.
pub open spec fn overview_path(policy_id: Seq<char>) -> Seq<char> {
    "collections/cardano/"@ + policy_id + "/overview.toml"@
}

/// The segments of the overview template.
proof fn lemma_overview_template()
    ensures
        segments_of("collections/cardano/{policyId}/overview.toml"@) == seq![
            SegmentView::Literal("collections"@),
            SegmentView::Literal("cardano"@),
            SegmentView::Capture("policyId"@),
            SegmentView::Literal("overview.toml"@),
        ],
{
    reveal_strlit("collections/cardano/{policyId}/overview.toml");
    reveal_strlit("collections");
    reveal_strlit("cardano");
    reveal_strlit("{policyId}");
    reveal_strlit("policyId");
    reveal_strlit("overview.toml");
    let pattern = "collections/cardano/{policyId}/overview.toml"@;
    let parts = seq!["collections"@, "cardano"@, "{policyId}"@, "overview.toml"@];
    reveal_with_fuel(join_segments, 5);
    assert(join_segments(parts) =~= pattern);
    assert(is_plain(parts[0]));
    assert(is_plain(parts[1]));
    assert(is_plain(parts[2]));
    assert(is_plain(parts[3]));
    lemma_split_join(parts);
    assert(parts[2].subrange(1, parts[2].len() - 1) =~= "policyId"@);
    assert(segment_of(parts[0]) == SegmentView::Literal("collections"@));
    assert(segment_of(parts[1]) == SegmentView::Literal("cardano"@));
    assert(segment_of(parts[2]) == SegmentView::Capture("policyId"@));
    assert(segment_of(parts[3]) == SegmentView::Literal("overview.toml"@));
    assert(segments_of(pattern) =~= seq![
        SegmentView::Literal("collections"@),
        SegmentView::Literal("cardano"@),
        SegmentView::Capture("policyId"@),
        SegmentView::Literal("overview.toml"@),
    ]);
}

/// Under the standard table the overview path of every collection leads to
/// that collection: whatever non-empty, separator-free policy id stands in
/// the path is the policy id of the target.
pub proof fn lemma_overview_is_routed(policy_id: Seq<char>)
    requires
        policy_id.len() > 0,
        is_plain(policy_id),
    ensures
        route_target(overview_path(policy_id)) == Some(TargetView::CardanoOverview { policy_id }),
{
    lemma_overview_template();
    reveal_strlit("collections");
    reveal_strlit("cardano");
    reveal_strlit("overview.toml");
    reveal_strlit("collections/cardano/");
    reveal_strlit("/overview.toml");
    let table = standard_templates();
    let template = table[0].segments;
    let parts = seq!["collections"@, "cardano"@, policy_id, "overview.toml"@];
    reveal_with_fuel(join_segments, 5);
    assert(join_segments(parts) =~= overview_path(policy_id));
    assert(is_plain(parts[0]));
    assert(is_plain(parts[1]));
    assert(is_plain(parts[3]));
    assert(template_accepts(template, parts));
    assert(is_first_match(table, parts, 0));
    lemma_instance_is_recognized(table, 0, parts);
    reveal_with_fuel(captures, 5);
    assert(parts.drop_last().drop_last().drop_last() =~= seq!["collections"@]);
    assert(captures(template, parts) =~= seq![("policyId"@, policy_id)]);
    reveal_with_fuel(lookup, 2);
    assert(lookup(captures(template, parts), policy_id_name()) == Some(policy_id));
}

/// Checking the overview of a collection has the one endpoint of its
/// descriptor; updating it has an endpoint for the descriptor, the thumbnail
/// and the banner, whether or not any file for them exists.
pub proof fn lemma_overview_endpoints(policy_id: Seq<char>)
    requires
        policy_id.len() > 0,
        is_plain(policy_id),
    ensures
        planned(standard_templates(), Action::Validate, overview_path(policy_id)) == Some(
            map![Asset::Config => validate_url(policy_id)],
        ),
        planned(standard_templates(), Action::Update, overview_path(policy_id)) == Some(
            map![
                Asset::Config => update_url(policy_id, Asset::Config),
                Asset::Thumbnail => update_url(policy_id, Asset::Thumbnail),
                Asset::Banner => update_url(policy_id, Asset::Banner),
            ],
        ),
        map![Asset::Config => validate_url(policy_id)].dom() == set![Asset::Config],
{
    lemma_overview_is_routed(policy_id);
    assert(map![Asset::Config => validate_url(policy_id)].dom() =~= set![Asset::Config]);
}

} // verus!
