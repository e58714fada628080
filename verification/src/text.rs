//! Paths as sequences of `/`-delimited segments.

use vstd::prelude::*;

verus! {

/// The separator between the segments of a path or of a template.
pub open spec fn is_separator(c: char) -> bool {
    c == '/'
}

/// The `/`-delimited segments of `s`, left to right.
///
/// There is always at least one segment: the empty path has the one empty
/// segment, and every separator starts a new one.
pub open spec fn split_segments(s: Seq<char>) -> Seq<Seq<char>>
    decreases s.len(),
{
    if s.len() == 0 {
        seq![Seq::<char>::empty()]
    } else {
        let before = split_segments(s.drop_last());
        if is_separator(s.last()) {
            before.push(Seq::<char>::empty())
        } else {
            before.update(before.len() - 1, before.last().push(s.last()))
        }
    }
}

/// The views of a vector of strings, in order.
pub open spec fn views_of(v: Seq<String>) -> Seq<Seq<char>> {
    Seq::new(v.len(), |i: int| v[i]@)
}

/// Splits `s` at every `/`.
pub fn split_path(s: &str) -> (segments: Vec<String>)
    ensures
        views_of(segments@) == split_segments(s@),
{
    let n: usize = s.unicode_len();
    let mut done: Vec<String> = Vec::new();
    let mut start: usize = 0;
    let mut i: usize = 0;
    proof {
        assert(s@.subrange(0, 0) =~= Seq::<char>::empty());
        assert(views_of(done@).push(s@.subrange(0, 0)) =~= split_segments(s@.take(0)));
    }
    for c in chars: s.chars()
        invariant
            chars.seq() == s@,
            n == s@.len(),
            i == chars.index(),
            start <= i <= n,
            views_of(done@).push(s@.subrange(start as int, i as int)) == split_segments(
                s@.take(i as int),
            ),
    {
        proof {
            assert(s@.take(i + 1).drop_last() =~= s@.take(i as int));
            assert(s@.take(i + 1).last() == c);
        }
        if c == '/' {
            let piece = s.substring_char(start, i).to_owned();
            proof {
                assert(views_of(done@.push(piece)) =~= views_of(done@).push(piece@));
                assert(s@.subrange(i + 1, i + 1) =~= Seq::<char>::empty());
            }
            done.push(piece);
            start = i + 1;
        } else {
            proof {
                let before = views_of(done@).push(s@.subrange(start as int, i as int));
                assert(s@.subrange(start as int, i + 1) =~= s@.subrange(
                    start as int,
                    i as int,
                ).push(c));
                assert(before.update(before.len() - 1, before.last().push(c)) =~= views_of(
                    done@,
                ).push(s@.subrange(start as int, i + 1)));
            }
        }
        i = i + 1;
    }
    let piece = s.substring_char(start, n).to_owned();
    proof {
        assert(views_of(done@.push(piece)) =~= views_of(done@).push(piece@));
        assert(s@.take(n as int) =~= s@);
    }
    done.push(piece);
    done
}

/// Whether `part` is free of separators, as every segment is.
pub open spec fn is_plain(part: Seq<char>) -> bool {
    forall|i: int| 0 <= i < part.len() ==> !is_separator(#[trigger] part[i])
}

/// The path whose segments are `parts`: the parts with a `/` between each two.
pub open spec fn join_segments(parts: Seq<Seq<char>>) -> Seq<char>
    decreases parts.len(),
{
    if parts.len() == 0 {
        Seq::empty()
    } else if parts.len() == 1 {
        parts[0]
    } else {
        join_segments(parts.drop_last()) + seq!['/'] + parts.last()
    }
}

/// Every path has at least one segment.
pub proof fn lemma_split_nonempty(s: Seq<char>)
    ensures
        split_segments(s).len() >= 1,
    decreases s.len(),
{
    if s.len() > 0 {
        lemma_split_nonempty(s.drop_last());
    }
}

/// No segment of a path holds a separator.
pub proof fn lemma_split_plain(s: Seq<char>)
    ensures
        forall|i: int| 0 <= i < split_segments(s).len() ==> is_plain(#[trigger] split_segments(s)[i]),
    decreases s.len(),
{
    if s.len() > 0 {
        lemma_split_plain(s.drop_last());
        lemma_split_nonempty(s.drop_last());
        let before = split_segments(s.drop_last());
        assert forall|i: int| 0 <= i < split_segments(s).len() implies is_plain(
            #[trigger] split_segments(s)[i],
        ) by {
            if i < before.len() {
                assert(is_plain(before[i]));
            }
        }
    }
}

/// Joining the segments of a path gives the path back.
pub proof fn lemma_join_split(s: Seq<char>)
    ensures
        join_segments(split_segments(s)) == s,
    decreases s.len(),
{
    if s.len() == 0 {
        assert(join_segments(split_segments(s)) =~= s);
    } else {
        let head = s.drop_last();
        let before = split_segments(head);
        lemma_join_split(head);
        lemma_split_nonempty(head);
        if is_separator(s.last()) {
            let parts = before.push(Seq::<char>::empty());
            assert(parts.drop_last() =~= before);
            assert(join_segments(parts) =~= s);
        } else {
            let parts = before.update(before.len() - 1, before.last().push(s.last()));
            if before.len() == 1 {
                assert(join_segments(parts) =~= s);
            } else {
                let front = join_segments(before.drop_last()) + seq!['/'];
                assert(parts.drop_last() =~= before.drop_last());
                assert(head == front + before.last());
                assert(join_segments(parts) == front + before.last().push(s.last()));
                assert(s =~= head.push(s.last()));
                assert(join_segments(parts) =~= s);
            }
        }
    }
}

/// Text without a separator, put behind a path, lengthens its last segment.
pub proof fn lemma_split_append_plain(s: Seq<char>, t: Seq<char>)
    requires
        is_plain(t),
    ensures
        split_segments(s).len() >= 1,
        split_segments(s + t) == split_segments(s).update(
            split_segments(s).len() - 1,
            split_segments(s).last() + t,
        ),
    decreases t.len(),
{
    lemma_split_nonempty(s);
    let parts = split_segments(s);
    if t.len() == 0 {
        assert(s + t =~= s);
        assert(parts.last() + t =~= parts.last());
        assert(parts.update(parts.len() - 1, parts.last()) =~= parts);
    } else {
        let head = t.drop_last();
        assert(is_plain(head)) by {
            assert forall|i: int| 0 <= i < head.len() implies !is_separator(#[trigger] head[i]) by {
                assert(head[i] == t[i]);
            }
        }
        lemma_split_append_plain(s, head);
        assert((s + t).drop_last() =~= s + head);
        assert((s + t).last() == t.last());
        assert(!is_separator(t.last()));
        assert((parts.last() + head).push(t.last()) =~= parts.last() + t);
        assert(split_segments(s + t) =~= parts.update(parts.len() - 1, parts.last() + t));
    }
}

/// Splitting a path that was joined from separator-free parts gives the
/// parts back.
pub proof fn lemma_split_join(parts: Seq<Seq<char>>)
    requires
        parts.len() >= 1,
        forall|i: int| 0 <= i < parts.len() ==> is_plain(#[trigger] parts[i]),
    ensures
        split_segments(join_segments(parts)) == parts,
    decreases parts.len(),
{
    let empty = Seq::<char>::empty();
    if parts.len() == 1 {
        lemma_split_append_plain(empty, parts[0]);
        assert(empty + parts[0] =~= parts[0]);
        assert(split_segments(empty) =~= seq![empty]);
        assert(split_segments(parts[0]) =~= parts);
    } else {
        let head = parts.drop_last();
        assert forall|i: int| 0 <= i < head.len() implies is_plain(#[trigger] head[i]) by {
            assert(head[i] == parts[i]);
        }
        lemma_split_join(head);
        let joined = join_segments(head);
        let opened = joined + seq!['/'];
        assert(opened.drop_last() =~= joined);
        assert(split_segments(opened) =~= head.push(empty));
        lemma_split_append_plain(opened, parts.last());
        assert(empty + parts.last() =~= parts.last());
        assert(split_segments(opened + parts.last()) =~= parts);
    }
}

/// Whether `text` begins with `head`.
pub open spec fn starts_with(text: Seq<char>, head: Seq<char>) -> bool {
    text.len() >= head.len() && text.subrange(0, head.len() as int) == head
}

/// Whether `text` ends with `tail`.
pub open spec fn ends_with(text: Seq<char>, tail: Seq<char>) -> bool {
    text.len() >= tail.len() && text.subrange(text.len() - tail.len(), text.len() as int) == tail
}

} // verus!
