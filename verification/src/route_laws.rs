//! What holds of matching, for every table and every path.

use vstd::prelude::*;
use crate::route::{
    captures, first_match, is_first_match, lemma_first_match_exists, lemma_first_match_is, lookup,
    recognized, template_accepts, RouteView, SegmentView, TemplateView,
};
use crate::text::{is_plain, join_segments, lemma_split_join, split_segments};

verus! {

/// The answer of a table whose template `k` is the first to match.
pub open spec fn answer_of(table: Seq<TemplateView>, k: int, parts: Seq<Seq<char>>) -> RouteView {
    RouteView { tag: table[k].tag, params: captures(table[k].segments, parts) }
}

/// Whether a template cannot match a path for a reason that the literal
/// segments alone show: another number of segments, or a literal segment that
/// differs from the path's segment at its place.
pub open spec fn differs_literally(template: Seq<SegmentView>, parts: Seq<Seq<char>>) -> bool {
    ||| template.len() != parts.len()
    ||| exists|i: int|
        0 <= i < template.len() && (#[trigger] template[i] matches SegmentView::Literal(text)
            && text != parts[i])
}

/// A path that a registered template matches is recognized; and where no
/// earlier template matches it, the answer is that template's tag with each
/// capture bound to the path segment at its place.
pub proof fn lemma_matching_path_is_recognized(table: Seq<TemplateView>, k: int, path: Seq<char>)
    requires
        0 <= k < table.len(),
        template_accepts(table[k].segments, split_segments(path)),
    ensures
        recognized(table, path) is Some,
        is_first_match(table, split_segments(path), k) ==> recognized(table, path) == Some(
            answer_of(table, k, split_segments(path)),
        ),
{
    let parts = split_segments(path);
    lemma_first_match_exists(table, parts, k);
    if is_first_match(table, parts, k) {
        lemma_first_match_is(table, parts, k);
    }
}

/// The path written from a template by keeping its literal segments and
/// putting any non-empty, separator-free value in each capture's place is
/// recognized; and where no earlier template matches it, the answer binds
/// each capture to exactly the value put in its place.
pub proof fn lemma_instance_is_recognized(table: Seq<TemplateView>, k: int, parts: Seq<Seq<char>>)
    requires
        0 <= k < table.len(),
        parts.len() >= 1,
        template_accepts(table[k].segments, parts),
        forall|i: int| 0 <= i < parts.len() ==> is_plain(#[trigger] parts[i]),
    ensures
        split_segments(join_segments(parts)) == parts,
        recognized(table, join_segments(parts)) is Some,
        is_first_match(table, parts, k) ==> recognized(table, join_segments(parts)) == Some(
            answer_of(table, k, parts),
        ),
{
    lemma_split_join(parts);
    lemma_matching_path_is_recognized(table, k, join_segments(parts));
}

/// A binding put behind others is read only where none of them has its name.
proof fn lemma_lookup_push(
    params: Seq<(Seq<char>, Seq<char>)>,
    pair: (Seq<char>, Seq<char>),
    name: Seq<char>,
)
    ensures
        lookup(params.push(pair), name) == match lookup(params, name) {
            Some(value) => Some(value),
            None => if pair.0 == name {
                Some(pair.1)
            } else {
                None
            },
        },
    decreases params.len(),
{
    let all = params.push(pair);
    if params.len() == 0 {
        assert(all.drop_first() =~= params);
    } else {
        assert(all.first() == params.first());
        assert(all.drop_first() =~= params.drop_first().push(pair));
        lemma_lookup_push(params.drop_first(), pair, name);
    }
}

/// Every name that the bindings of a template hold is the name of one of its
/// captures.
proof fn lemma_capture_names(template: Seq<SegmentView>, parts: Seq<Seq<char>>, name: Seq<char>)
    requires
        template.len() == parts.len(),
        forall|j: int| 0 <= j < template.len() ==> #[trigger] template[j] != SegmentView::Capture(name),
    ensures
        lookup(captures(template, parts), name) is None,
    decreases template.len(),
{
    if template.len() > 0 {
        let head = template.drop_last();
        assert forall|j: int| 0 <= j < head.len() implies #[trigger] head[j]
            != SegmentView::Capture(name) by {
            assert(head[j] == template[j]);
        }
        lemma_capture_names(head, parts.drop_last(), name);
        match template.last() {
            SegmentView::Capture(other) => {
                lemma_lookup_push(captures(head, parts.drop_last()), (other, parts.last()), name);
            },
            SegmentView::Literal(_) => {},
        }
    }
}

/// The first capture of a name is bound to the path segment at its place.
pub proof fn lemma_capture_is_bound(
    template: Seq<SegmentView>,
    parts: Seq<Seq<char>>,
    i: int,
    name: Seq<char>,
)
    requires
        template.len() == parts.len(),
        0 <= i < template.len(),
        template[i] == SegmentView::Capture(name),
        forall|j: int| 0 <= j < i ==> #[trigger] template[j] != SegmentView::Capture(name),
    ensures
        lookup(captures(template, parts), name) == Some(parts[i]),
    decreases template.len(),
{
    let head = template.drop_last();
    let before = captures(head, parts.drop_last());
    if i == template.len() - 1 {
        assert forall|j: int| 0 <= j < head.len() implies #[trigger] head[j]
            != SegmentView::Capture(name) by {
            assert(head[j] == template[j]);
        }
        lemma_capture_names(head, parts.drop_last(), name);
        lemma_lookup_push(before, (name, parts.last()), name);
    } else {
        assert(head[i] == template[i]);
        assert forall|j: int| 0 <= j < i implies #[trigger] head[j] != SegmentView::Capture(
            name,
        ) by {
            assert(head[j] == template[j]);
        }
        lemma_capture_is_bound(head, parts.drop_last(), i, name);
        assert(parts.drop_last()[i] == parts[i]);
        match template.last() {
            SegmentView::Capture(other) => {
                lemma_lookup_push(before, (other, parts.last()), name);
            },
            SegmentView::Literal(_) => {},
        }
    }
}

/// A path that differs from every template in its number of segments or in
/// a literal segment is not recognized.
pub proof fn lemma_mismatch_is_unmatched(table: Seq<TemplateView>, path: Seq<char>)
    requires
        forall|k: int|
            0 <= k < table.len() ==> differs_literally(
                (#[trigger] table[k]).segments,
                split_segments(path),
            ),
    ensures
        recognized(table, path) is None,
{
    let parts = split_segments(path);
    if exists|c: int| is_first_match(table, parts, c) {
        let c = choose|c: int| is_first_match(table, parts, c);
        assert(differs_literally(table[c].segments, parts));
        assert(template_accepts(table[c].segments, parts));
    }
}

/// Where two templates match the same path, the later one never answers:
/// the answer comes from the first template that matches, which stands at or
/// before the earlier of the two.
pub proof fn lemma_earlier_template_wins(
    table: Seq<TemplateView>,
    path: Seq<char>,
    earlier: int,
    later: int,
)
    requires
        0 <= earlier < later < table.len(),
        template_accepts(table[earlier].segments, split_segments(path)),
        template_accepts(table[later].segments, split_segments(path)),
    ensures
        first_match(table, split_segments(path)) matches Some(first) && first <= earlier
            && recognized(table, path) == Some(answer_of(table, first, split_segments(path))),
        is_first_match(table, split_segments(path), earlier) ==> recognized(table, path) == Some(
            answer_of(table, earlier, split_segments(path)),
        ),
{
    lemma_matching_path_is_recognized(table, earlier, path);
}

} // verus!
