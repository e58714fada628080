//! Route templates and the matching of paths against a table of them.
//!
//! A template is a `/`-delimited pattern whose segments are either literal or
//! a named capture written in braces, as in
//! `collections/cardano/{policyId}/overview.toml`. A path matches a template
//! when both have the same number of segments, every literal segment is equal
//! to the path's segment at that place, and every capture stands against a
//! non-empty segment. A table tries its templates in the order in which they
//! were added and answers with the first that matches.

use vstd::prelude::*;
use crate::text::{split_path, split_segments, views_of};

verus! {

/// The kind of remote resource that a local file stands for.
#[derive(Debug, Clone, Copy, PartialEq, Eq, Structural)]
pub enum ResourceTag {
    /// The overview descriptor of a Cardano collection.
    CardanoOverview,
    /// A file that the table knows but that is submitted nowhere.
    Noop,
}

/// One segment of a template.
#[derive(Debug, Clone, PartialEq, Eq)]
pub enum Segment {
    /// Matches the path segment that is equal to it.
    Literal(String),
    /// Matches any non-empty path segment and binds it to this name.
    Capture(String),
}

/// The mathematical value of a [`Segment`].
pub enum SegmentView {
    Literal(Seq<char>),
    Capture(Seq<char>),
}

impl View for Segment {
    type V = SegmentView;

    open spec fn view(&self) -> SegmentView {
        match self {
            Segment::Literal(text) => SegmentView::Literal(text@),
            Segment::Capture(name) => SegmentView::Capture(name@),
        }
    }
}

/// A path pattern together with the resource it leads to.
#[derive(Debug, Clone, PartialEq, Eq)]
pub struct RouteTemplate {
    pub segments: Vec<Segment>,
    pub tag: ResourceTag,
}

/// The mathematical value of a [`RouteTemplate`].
pub struct TemplateView {
    pub segments: Seq<SegmentView>,
    pub tag: ResourceTag,
}

/// The views of a vector of segments, in order.
pub open spec fn segment_views(v: Seq<Segment>) -> Seq<SegmentView> {
    Seq::new(v.len(), |i: int| v[i]@)
}

impl View for RouteTemplate {
    type V = TemplateView;

    open spec fn view(&self) -> TemplateView {
        TemplateView { segments: segment_views(self.segments@), tag: self.tag }
    }
}

/// Whether a pattern segment is written as a capture: `{`, a name, `}`.
pub open spec fn is_capture_text(part: Seq<char>) -> bool {
    part.len() >= 2 && part.first() == '{' && part.last() == '}'
}

/// The segment that one `/`-delimited part of a pattern denotes.
pub open spec fn segment_of(part: Seq<char>) -> SegmentView {
    if is_capture_text(part) {
        SegmentView::Capture(part.subrange(1, part.len() - 1))
    } else {
        SegmentView::Literal(part)
    }
}

/// The segments that a pattern denotes.
pub open spec fn segments_of(pattern: Seq<char>) -> Seq<SegmentView> {
    let parts = split_segments(pattern);
    Seq::new(parts.len(), |i: int| segment_of(parts[i]))
}

/// The template that a pattern and a tag denote.
pub open spec fn template_of(pattern: Seq<char>, tag: ResourceTag) -> TemplateView {
    TemplateView { segments: segments_of(pattern), tag }
}

/// Whether a template segment matches a path segment.
pub open spec fn segment_accepts(segment: SegmentView, part: Seq<char>) -> bool {
    match segment {
        SegmentView::Literal(text) => part == text,
        SegmentView::Capture(_) => part.len() > 0,
    }
}

/// Whether a template matches a path given by its segments.
pub open spec fn template_accepts(template: Seq<SegmentView>, parts: Seq<Seq<char>>) -> bool {
    &&& template.len() == parts.len()
    &&& forall|i: int| 0 <= i < template.len() ==> segment_accepts(#[trigger] template[i], parts[i])
}

/// The bindings that a template takes from a path of the same length: for
/// each capture, in template order, its name and the segment at its place.
pub open spec fn captures(template: Seq<SegmentView>, parts: Seq<Seq<char>>) -> Seq<
    (Seq<char>, Seq<char>),
>
    decreases template.len(),
{
    if template.len() == 0 || parts.len() == 0 {
        Seq::empty()
    } else {
        let before = captures(template.drop_last(), parts.drop_last());
        match template.last() {
            SegmentView::Capture(name) => before.push((name, parts.last())),
            SegmentView::Literal(_) => before,
        }
    }
}

/// The value bound to `name`: that of its first binding.
pub open spec fn lookup(params: Seq<(Seq<char>, Seq<char>)>, name: Seq<char>) -> Option<Seq<char>>
    decreases params.len(),
{
    if params.len() == 0 {
        None
    } else if params.first().0 == name {
        Some(params.first().1)
    } else {
        lookup(params.drop_first(), name)
    }
}

impl RouteTemplate {
    /// Reads a template from its pattern.
    pub fn parse(pattern: &str, tag: ResourceTag) -> (template: RouteTemplate)
        ensures
            template@ == template_of(pattern@, tag),
    {
        let parts = split_path(pattern);
        let mut segments: Vec<Segment> = Vec::new();
        let mut i: usize = 0;
        while i < parts.len()
            invariant
                i <= parts.len(),
                views_of(parts@) == split_segments(pattern@),
                segments.len() == i,
                forall|j: int| 0 <= j < i ==> (#[trigger] segments[j])@ == segment_of(parts[j]@),
            decreases parts.len() - i,
        {
            let part = parts[i].as_str();
            let len: usize = part.unicode_len();
            let braced = len >= 2 && part.get_char(0) == '{' && part.get_char(len - 1) == '}';
            let segment = if braced {
                Segment::Capture(part.substring_char(1, len - 1).to_owned())
            } else {
                Segment::Literal(part.to_owned())
            };
            segments.push(segment);
            i = i + 1;
        }
        proof {
            let split = split_segments(pattern@);
            assert(split.len() == parts.len());
            assert forall|j: int| 0 <= j < parts.len() implies segment_views(segments@)[j]
                == segments_of(pattern@)[j] by {
                assert(views_of(parts@)[j] == parts[j]@);
            }
            assert(segment_views(segments@) =~= segments_of(pattern@));
        }
        RouteTemplate { segments, tag }
    }
}

/// An ordered table of templates: the order of registration decides which
/// template answers where several match.
#[derive(Debug, Clone, PartialEq, Eq)]
pub struct RouteTable {
    templates: Vec<RouteTemplate>,
}

/// The views of a vector of templates, in order.
pub open spec fn template_views(v: Seq<RouteTemplate>) -> Seq<TemplateView> {
    Seq::new(v.len(), |i: int| v[i]@)
}

impl View for RouteTable {
    type V = Seq<TemplateView>;

    closed spec fn view(&self) -> Seq<TemplateView> {
        template_views(self.templates@)
    }
}

/// A path matched against a table: the resource and the captured values.
#[derive(Debug, Clone, PartialEq, Eq)]
pub struct ResolvedRoute {
    pub tag: ResourceTag,
    /// Capture name and captured segment, in template order.
    pub params: Vec<(String, String)>,
}

/// The mathematical value of a [`ResolvedRoute`].
pub struct RouteView {
    pub tag: ResourceTag,
    pub params: Seq<(Seq<char>, Seq<char>)>,
}

/// The views of a vector of bindings, in order.
pub open spec fn binding_views(v: Seq<(String, String)>) -> Seq<(Seq<char>, Seq<char>)> {
    Seq::new(v.len(), |i: int| (v[i].0@, v[i].1@))
}

impl View for ResolvedRoute {
    type V = RouteView;

    open spec fn view(&self) -> RouteView {
        RouteView { tag: self.tag, params: binding_views(self.params@) }
    }
}

/// Whether template `k` of the table matches and none before it does.
pub open spec fn is_first_match(table: Seq<TemplateView>, parts: Seq<Seq<char>>, k: int) -> bool {
    &&& 0 <= k < table.len()
    &&& template_accepts(table[k].segments, parts)
    &&& forall|j: int| 0 <= j < k ==> !template_accepts((#[trigger] table[j]).segments, parts)
}

/// The index of the first template that matches, if any does.
pub open spec fn first_match(table: Seq<TemplateView>, parts: Seq<Seq<char>>) -> Option<int> {
    if exists|k: int| is_first_match(table, parts, k) {
        Some(choose|k: int| is_first_match(table, parts, k))
    } else {
        None
    }
}

/// What a table answers for a path: tag and bindings of the first template
/// that matches the path's segments, or nothing where none matches.
pub open spec fn recognized(table: Seq<TemplateView>, path: Seq<char>) -> Option<RouteView> {
    let parts = split_segments(path);
    match first_match(table, parts) {
        Some(k) => Some(
            RouteView { tag: table[k].tag, params: captures(table[k].segments, parts) },
        ),
        None => None,
    }
}

/// At most one index is the first match.
pub proof fn lemma_first_match_unique(
    table: Seq<TemplateView>,
    parts: Seq<Seq<char>>,
    a: int,
    b: int,
)
    requires
        is_first_match(table, parts, a),
        is_first_match(table, parts, b),
    ensures
        a == b,
{
    if a < b {
        assert(!template_accepts(table[a].segments, parts));
    }
    if b < a {
        assert(!template_accepts(table[b].segments, parts));
    }
}

/// Where index `k` is the first match, `first_match` names it.
pub proof fn lemma_first_match_is(table: Seq<TemplateView>, parts: Seq<Seq<char>>, k: int)
    requires
        is_first_match(table, parts, k),
    ensures
        first_match(table, parts) == Some(k),
{
    let c = choose|c: int| is_first_match(table, parts, c);
    lemma_first_match_unique(table, parts, c, k);
}

/// Where some template matches, there is a first one, at or before it.
pub proof fn lemma_first_match_exists(table: Seq<TemplateView>, parts: Seq<Seq<char>>, k: int)
    requires
        0 <= k < table.len(),
        template_accepts(table[k].segments, parts),
    ensures
        first_match(table, parts) matches Some(f) && f <= k && is_first_match(table, parts, f),
    decreases k,
{
    if forall|j: int| 0 <= j < k ==> !template_accepts((#[trigger] table[j]).segments, parts) {
        assert(is_first_match(table, parts, k));
        lemma_first_match_is(table, parts, k);
    } else {
        let j = choose|j: int| 0 <= j < k && template_accepts((#[trigger] table[j]).segments, parts);
        lemma_first_match_exists(table, parts, j);
    }
}

/// Whether `template` matches the path whose segments are `parts`.
fn accepts(template: &RouteTemplate, parts: &Vec<String>) -> (ok: bool)
    ensures
        ok == template_accepts(template@.segments, views_of(parts@)),
{
    if template.segments.len() != parts.len() {
        return false;
    }
    let mut i: usize = 0;
    while i < parts.len()
        invariant
            i <= parts.len(),
            template.segments.len() == parts.len(),
            forall|j: int|
                0 <= j < i ==> segment_accepts(
                    #[trigger] template@.segments[j],
                    views_of(parts@)[j],
                ),
        decreases parts.len() - i,
    {
        let ok = match &template.segments[i] {
            Segment::Literal(text) => *text == parts[i],
            Segment::Capture(_) => !parts[i].as_str().is_empty(),
        };
        proof {
            assert(template@.segments[i as int] == template.segments[i as int]@);
            assert(views_of(parts@)[i as int] == parts[i as int]@);
        }
        if !ok {
            return false;
        }
        i = i + 1;
    }
    true
}

/// The bindings that `template` takes from `parts`.
fn bind(template: &RouteTemplate, parts: &Vec<String>) -> (params: Vec<(String, String)>)
    requires
        template.segments.len() == parts.len(),
    ensures
        binding_views(params@) == captures(template@.segments, views_of(parts@)),
{
    let mut params: Vec<(String, String)> = Vec::new();
    let mut i: usize = 0;
    let ghost segments = template@.segments;
    let ghost texts = views_of(parts@);
    proof {
        assert(binding_views(params@) =~= captures(segments.take(0), texts.take(0)));
    }
    while i < parts.len()
        invariant
            i <= parts.len(),
            template.segments.len() == parts.len(),
            segments == template@.segments,
            texts == views_of(parts@),
            binding_views(params@) == captures(segments.take(i as int), texts.take(i as int)),
        decreases parts.len() - i,
    {
        proof {
            assert(segments.take(i + 1).drop_last() =~= segments.take(i as int));
            assert(texts.take(i + 1).drop_last() =~= texts.take(i as int));
            assert(segments.take(i + 1).last() == template.segments[i as int]@);
            assert(texts.take(i + 1).last() == parts[i as int]@);
        }
        match &template.segments[i] {
            Segment::Capture(name) => {
                let pair = (name.clone(), parts[i].clone());
                proof {
                    assert(binding_views(params@.push(pair)) =~= binding_views(params@).push(
                        (pair.0@, pair.1@),
                    ));
                }
                params.push(pair);
            },
            Segment::Literal(_) => {},
        }
        i = i + 1;
    }
    proof {
        assert(segments.take(parts.len() as int) =~= segments);
        assert(texts.take(parts.len() as int) =~= texts);
    }
    params
}

impl RouteTable {
    /// The table without templates, which matches no path.
    pub fn new() -> (table: RouteTable)
        ensures
            table@ == Seq::<TemplateView>::empty(),
    {
        let table = RouteTable { templates: Vec::new() };
        proof {
            assert(table@ =~= Seq::<TemplateView>::empty());
        }
        table
    }

    /// Registers `template` behind all templates registered so far.
    pub fn add(&mut self, template: RouteTemplate)
        ensures
            final(self)@ == old(self)@.push(template@),
    {
        self.templates.push(template);
        proof {
            assert(self@ =~= old(self)@.push(template@));
        }
    }

    /// The number of templates registered.
    pub fn len(&self) -> (n: usize)
        ensures
            n == self@.len(),
    {
        self.templates.len()
    }

    /// Matches `path` against the templates in the order of registration and
    /// answers with the first that matches.
    pub fn recognize(&self, path: &str) -> (route: Option<ResolvedRoute>)
        ensures
            match route {
                Some(found) => recognized(self@, path@) == Some(found@),
                None => recognized(self@, path@) is None,
            },
    {
        let parts = split_path(path);
        let mut k: usize = 0;
        while k < self.templates.len()
            invariant
                k <= self.templates.len(),
                views_of(parts@) == split_segments(path@),
                forall|j: int|
                    0 <= j < k ==> !template_accepts(
                        (#[trigger] self@[j]).segments,
                        split_segments(path@),
                    ),
            decreases self.templates.len() - k,
        {
            let template = &self.templates[k];
            proof {
                assert(self@[k as int] == template@);
            }
            if accepts(template, &parts) {
                let params = bind(template, &parts);
                proof {
                    assert(is_first_match(self@, split_segments(path@), k as int));
                    lemma_first_match_is(self@, split_segments(path@), k as int);
                }
                return Some(ResolvedRoute { tag: template.tag, params });
            }
            k = k + 1;
        }
        proof {
            let parts = split_segments(path@);
            if exists|c: int| is_first_match(self@, parts, c) {
                let c = choose|c: int| is_first_match(self@, parts, c);
                assert(!template_accepts(self@[c].segments, parts));
            }
        }
        None
    }
}

/// The name of the capture that holds a collection's policy id.
pub open spec fn policy_id_name() -> Seq<char> {
    "policyId"@
}

/// The capture that the endpoints of a resource are written from, where
/// there is one: a template that leads to the resource without binding it
/// leads nowhere.
pub open spec fn required_param(tag: ResourceTag) -> Option<Seq<char>> {
    match tag {
        ResourceTag::CardanoOverview => Some(policy_id_name()),
        ResourceTag::Noop => None,
    }
}

/// Whether the bindings hold what the resource requires.
pub open spec fn is_complete(route: RouteView) -> bool {
    match required_param(route.tag) {
        Some(name) => lookup(route.params, name) is Some,
        None => true,
    }
}

/// What the matcher answers for a path: the answer of the first template
/// that matches, unless it lacks a capture that its resource requires. No
/// later template is tried once one has matched.
pub open spec fn matched(table: Seq<TemplateView>, path: Seq<char>) -> Option<RouteView> {
    match recognized(table, path) {
        Some(route) => if is_complete(route) {
            Some(route)
        } else {
            None
        },
        None => None,
    }
}

impl ResourceTag {
    /// The capture that the resource's endpoints are written from.
    pub fn required_param(self) -> (name: Option<&'static str>)
        ensures
            match name {
                Some(text) => required_param(self) == Some(text@),
                None => required_param(self) is None,
            },
    {
        match self {
            ResourceTag::CardanoOverview => Some("policyId"),
            ResourceTag::Noop => None,
        }
    }
}

impl ResolvedRoute {
    /// The value captured under `name`.
    pub fn param(&self, name: &str) -> (value: Option<&String>)
        ensures
            match value {
                Some(text) => lookup(self@.params, name@) == Some(text@),
                None => lookup(self@.params, name@) is None,
            },
    {
        let wanted = name.to_owned();
        let ghost all = self@.params;
        let mut i: usize = 0;
        proof {
            assert(all.skip(0) =~= all);
        }
        while i < self.params.len()
            invariant
                i <= self.params.len(),
                all == binding_views(self.params@),
                wanted@ == name@,
                lookup(all, name@) == lookup(all.skip(i as int), name@),
            decreases self.params.len() - i,
        {
            proof {
                assert(all.skip(i as int).first() == all[i as int]);
                assert(all.skip(i as int).drop_first() =~= all.skip(i + 1));
            }
            if self.params[i].0 == wanted {
                return Some(&self.params[i].1);
            }
            i = i + 1;
        }
        None
    }
}

impl RouteTable {
    /// Matches `path` and answers with the resource and the captured values,
    /// or with nothing where no template matches or the first that does
    /// lacks a capture that its resource requires.
    pub fn match_path(&self, path: &str) -> (route: Option<ResolvedRoute>)
        ensures
            match route {
                Some(found) => matched(self@, path@) == Some(found@),
                None => matched(self@, path@) is None,
            },
    {
        match self.recognize(path) {
            Some(found) => {
                let complete = match found.tag.required_param() {
                    Some(name) => found.param(name).is_some(),
                    None => true,
                };
                if complete {
                    Some(found)
                } else {
                    None
                }
            },
            None => None,
        }
    }
}

} // verus!
