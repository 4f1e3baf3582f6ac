//! MQTT topic filters and the prefix mapping of forward and subscribe rules.
//!
//! A topic is split into levels at every `/`. In a filter, the level `+`
//! matches exactly one topic level and the level `#`, which must be the
//! last level of the filter, matches one or more remaining levels.

use vstd::prelude::*;
use vstd::string::*;

use crate::config::{ForwardRule, SubscribeRule};
use crate::error::{BridgeError, Result};
use crate::text::{chars_eq, chars_of, lemma_split_nonempty, level_views, split_chars, split_levels, split_on};

verus! {

/// Whether the topic levels `t` match the filter levels `f`.
pub open spec fn levels_match(t: Seq<Seq<char>>, f: Seq<Seq<char>>) -> bool
    decreases f.len(),
{
    if f.len() == 0 {
        t.len() == 0
    } else if t.len() == 0 {
        false
    } else if f[0] == seq!['#'] {
        f.len() == 1
    } else if f[0] == seq!['+'] {
        levels_match(t.drop_first(), f.drop_first())
    } else {
        t[0] == f[0] && levels_match(t.drop_first(), f.drop_first())
    }
}

/// Whether `topic` matches the MQTT topic filter `filter`.
pub open spec fn topic_matches(topic: Seq<char>, filter: Seq<char>) -> bool {
    levels_match(split_levels(topic), split_levels(filter))
}

/// `s` without its trailing `/` characters.
pub open spec fn trim_trailing_slashes(s: Seq<char>) -> Seq<char>
    decreases s.len(),
{
    if s.len() > 0 && s.last() == '/' {
        trim_trailing_slashes(s.drop_last())
    } else {
        s
    }
}

/// The remote topic of a local topic under a forward rule's prefix: the
/// prefix (without trailing slashes), a `/`, then the local topic; the
/// local topic itself when the prefix is empty.
pub open spec fn forward_topic(local_topic: Seq<char>, prefix: Seq<char>) -> Seq<char> {
    if prefix.len() == 0 {
        local_topic
    } else {
        trim_trailing_slashes(prefix) + seq!['/'] + local_topic
    }
}

/// The local topic of a remote topic under a subscribe rule's prefix, or
/// `None` when the topic does not start with the prefix.
pub open spec fn subscribe_topic(remote_topic: Seq<char>, prefix: Seq<char>) -> Option<Seq<char>> {
    let p = trim_trailing_slashes(prefix);
    if prefix.len() == 0 {
        Some(remote_topic)
    } else if p.len() + 1 <= remote_topic.len() && remote_topic.take(p.len() + 1int) == p.push('/') {
        Some(remote_topic.skip(p.len() + 1int))
    } else if remote_topic == p {
        Some(Seq::empty())
    } else {
        None
    }
}

/// The message of the error for a remote topic outside a rule's prefix.
pub open spec fn prefix_mismatch_message(remote_topic: Seq<char>, prefix: Seq<char>) -> Seq<char> {
    "Topic '"@ + remote_topic + "' does not start with prefix '"@ + prefix + "'"@
}

proof fn lemma_trim_len(s: Seq<char>)
    ensures
        trim_trailing_slashes(s).len() <= s.len(),
        trim_trailing_slashes(s) == s.take(trim_trailing_slashes(s).len() as int),
        trim_trailing_slashes(s).len() == 0 || trim_trailing_slashes(s).last() != '/',
        forall|i: int| trim_trailing_slashes(s).len() <= i < s.len() ==> s[i] == '/',
    decreases s.len(),
{
    if s.len() > 0 && s.last() == '/' {
        lemma_trim_len(s.drop_last());
        assert forall|i: int| trim_trailing_slashes(s).len() <= i < s.len() implies s[i] == '/' by {
            if i < s.len() - 1 {
                assert(s.drop_last()[i] == s[i]);
            }
        }
        assert(s.drop_last().take(trim_trailing_slashes(s).len() as int) =~= s.take(
            trim_trailing_slashes(s).len() as int,
        ));
    } else {
        assert(s.take(s.len() as int) =~= s);
    }
}

/// Mapping a local topic out with a prefix and back in with the same
/// prefix gives the local topic again: stripping undoes prepending.
pub proof fn lemma_subscribe_undoes_forward(local_topic: Seq<char>, prefix: Seq<char>)
    ensures
        subscribe_topic(forward_topic(local_topic, prefix), prefix) == Some(local_topic),
{
    if prefix.len() > 0 {
        let p = trim_trailing_slashes(prefix);
        let x = p + seq!['/'] + local_topic;
        assert(x.take(p.len() + 1int) =~= p.push('/'));
        assert(x.skip(p.len() + 1int) =~= local_topic);
    }
}

/// The filter `#` matches every topic.
pub proof fn lemma_hash_matches_all(topic: Seq<char>)
    ensures
        topic_matches(topic, seq!['#']),
{
    lemma_split_nonempty(topic, '/');
    assert(seq!['#'].drop_last() =~= Seq::<char>::empty());
    let prev = split_on(Seq::<char>::empty(), '/');
    assert(prev == seq![Seq::<char>::empty()]);
    assert(prev.last().push('#') =~= seq!['#']);
    assert(split_levels(seq!['#']) =~= seq![seq!['#']]);
}

proof fn lemma_single_level(s: Seq<char>)
    ensures
        split_levels(s).len() == 1 <==> (forall|i: int| 0 <= i < s.len() ==> s[i] != '/'),
    decreases s.len(),
{
    if s.len() > 0 {
        lemma_single_level(s.drop_last());
        lemma_split_nonempty(s.drop_last(), '/');
        if s.last() != '/' {
            assert((forall|i: int| 0 <= i < s.len() ==> s[i] != '/') <==> (forall|i: int|
                0 <= i < s.drop_last().len() ==> s.drop_last()[i] != '/')) by {
                if forall|i: int| 0 <= i < s.drop_last().len() ==> s.drop_last()[i] != '/' {
                    assert forall|i: int| 0 <= i < s.len() implies s[i] != '/' by {
                        if i < s.len() - 1 {
                            assert(s.drop_last()[i] == s[i]);
                        }
                    }
                }
            }
        }
    }
}

/// The filter `+` matches exactly the topics of one level, those without
/// a `/`.
pub proof fn lemma_plus_matches_one_level(topic: Seq<char>)
    ensures
        topic_matches(topic, seq!['+']) <==> (forall|i: int| 0 <= i < topic.len() ==> topic[i] != '/'),
{
    lemma_single_level(topic);
    lemma_split_nonempty(topic, '/');
    assert(seq!['+'].drop_last() =~= Seq::<char>::empty());
    let prev = split_on(Seq::<char>::empty(), '/');
    assert(prev == seq![Seq::<char>::empty()]);
    assert(prev.last().push('+') =~= seq!['+']);
    assert(split_levels(seq!['+']) =~= seq![seq!['+']]);
    let t = split_levels(topic);
    assert(seq![seq!['+']].drop_first() =~= Seq::<Seq<char>>::empty());
    assert(levels_match(t, seq![seq!['+']]) == levels_match(t.drop_first(), Seq::empty()));
}

proof fn lemma_levels_match_self(levels: Seq<Seq<char>>)
    requires
        forall|k: int| 0 <= k < levels.len() ==> levels[k] != seq!['#'],
    ensures
        levels_match(levels, levels),
    decreases levels.len(),
{
    if levels.len() > 0 {
        lemma_levels_match_self(levels.drop_first());
    }
}

/// A topic none of whose levels is a wildcard (`+` or `#`) matches itself
/// as a filter.
pub proof fn lemma_topic_matches_itself(topic: Seq<char>)
    requires
        forall|k: int|
            0 <= k < split_levels(topic).len() ==> #[trigger] split_levels(topic)[k] != seq!['#']
                && split_levels(topic)[k] != seq!['+'],
    ensures
        topic_matches(topic, topic),
{
    lemma_levels_match_self(split_levels(topic));
}

/// The levels joined back with `/` between them.
pub open spec fn join_levels(levels: Seq<Seq<char>>) -> Seq<char>
    decreases levels.len(),
{
    if levels.len() == 0 {
        Seq::empty()
    } else if levels.len() == 1 {
        levels[0]
    } else {
        join_levels(levels.drop_last()) + seq!['/'] + levels.last()
    }
}

proof fn lemma_join_split(s: Seq<char>)
    ensures
        join_levels(split_levels(s)) == s,
    decreases s.len(),
{
    if s.len() > 0 {
        let prev = split_levels(s.drop_last());
        lemma_join_split(s.drop_last());
        lemma_split_nonempty(s.drop_last(), '/');
        let c = s.last();
        if c == '/' {
            let now = prev.push(Seq::<char>::empty());
            assert(now.drop_last() =~= prev);
            assert(join_levels(now) =~= s);
        } else {
            let now = prev.update(prev.len() - 1, prev.last().push(c));
            if prev.len() == 1 {
                assert(join_levels(now) =~= s);
            } else {
                assert(now.drop_last() =~= prev.drop_last());
                assert(join_levels(now) =~= join_levels(prev.drop_last()) + seq!['/'] + prev.last().push(c));
                assert(join_levels(prev) == join_levels(prev.drop_last()) + seq!['/'] + prev.last());
                assert(s =~= s.drop_last().push(c));
                assert(join_levels(now) =~= s);
            }
        }
    }
}

proof fn lemma_plain_levels_match(t: Seq<Seq<char>>, f: Seq<Seq<char>>)
    requires
        forall|k: int| 0 <= k < f.len() ==> f[k] != seq!['#'] && f[k] != seq!['+'],
        levels_match(t, f),
    ensures
        t == f,
    decreases f.len(),
{
    if f.len() > 0 {
        lemma_plain_levels_match(t.drop_first(), f.drop_first());
        assert(t =~= seq![t[0]] + t.drop_first());
        assert(f =~= seq![f[0]] + f.drop_first());
    }
}

/// A filter none of whose levels is a wildcard (`+` or `#`) matches only
/// the topic it spells.
pub proof fn lemma_plain_filter_matches_only_itself(topic: Seq<char>, filter: Seq<char>)
    requires
        forall|k: int|
            0 <= k < split_levels(filter).len() ==> #[trigger] split_levels(filter)[k] != seq!['#']
                && split_levels(filter)[k] != seq!['+'],
        topic_matches(topic, filter),
    ensures
        topic == filter,
{
    lemma_plain_levels_match(split_levels(topic), split_levels(filter));
    lemma_join_split(topic);
    lemma_join_split(filter);
}

/// The pieces of a string split at `sep` hold no `sep`.
proof fn lemma_pieces_free_of_sep(s: Seq<char>, sep: char)
    ensures
        forall|k: int, j: int|
            0 <= k < split_on(s, sep).len() && 0 <= j < split_on(s, sep)[k].len()
                ==> #[trigger] split_on(s, sep)[k][j] != sep,
    decreases s.len(),
{
    if s.len() > 0 {
        lemma_pieces_free_of_sep(s.drop_last(), sep);
        lemma_split_nonempty(s.drop_last(), sep);
        let prev = split_on(s.drop_last(), sep);
        assert forall|k: int, j: int|
            0 <= k < split_on(s, sep).len() && 0 <= j < split_on(s, sep)[k].len()
                implies #[trigger] split_on(s, sep)[k][j] != sep by {
            if s.last() != sep && k == prev.len() - 1 && j < prev.last().len() {
                assert(split_on(s, sep)[k][j] == prev[k][j]);
            }
        }
    }
}

/// A piece without `sep` splits into itself alone.
proof fn lemma_split_piece(p: Seq<char>, sep: char)
    requires
        forall|j: int| 0 <= j < p.len() ==> p[j] != sep,
    ensures
        split_on(p, sep) == seq![p],
    decreases p.len(),
{
    if p.len() > 0 {
        lemma_split_piece(p.drop_last(), sep);
        assert(p.drop_last().push(p.last()) =~= p);
        assert(p.last() != sep);
        let prev = split_on(p.drop_last(), sep);
        assert(split_on(p, sep) == prev.update(prev.len() - 1, prev.last().push(p.last())));
        assert(prev.update(prev.len() - 1, prev.last().push(p.last())) =~= seq![p]);
    } else {
        assert(p =~= Seq::<char>::empty());
    }
}

/// Splitting `a`, a separator, then a piece without separators gives the
/// pieces of `a` followed by that piece.
proof fn lemma_split_after_sep(a: Seq<char>, p: Seq<char>, sep: char)
    requires
        forall|j: int| 0 <= j < p.len() ==> p[j] != sep,
    ensures
        split_on(a + seq![sep] + p, sep) == split_on(a, sep).push(p),
    decreases p.len(),
{
    if p.len() == 0 {
        assert(p =~= Seq::<char>::empty());
        assert((a + seq![sep] + p).drop_last() =~= a);
        assert((a + seq![sep] + p).last() == sep);
    } else {
        let q = p.drop_last();
        lemma_split_after_sep(a, q, sep);
        let whole = a + seq![sep] + p;
        assert(whole.drop_last() =~= a + seq![sep] + q);
        assert(whole.last() == p.last());
        assert(p.last() != sep);
        assert(q.push(p.last()) =~= p);
        let prev = split_on(a, sep).push(q);
        assert(prev.last() == q);
        assert(split_on(whole, sep) == prev.update(prev.len() - 1, prev.last().push(whole.last())));
        assert(prev.update(prev.len() - 1, q.push(p.last())) =~= split_on(a, sep).push(p));
    }
}

/// Levels without `/` split back into themselves once joined.
proof fn lemma_split_join(levels: Seq<Seq<char>>)
    requires
        levels.len() >= 1,
        forall|k: int, j: int|
            0 <= k < levels.len() && 0 <= j < levels[k].len() ==> #[trigger] levels[k][j] != '/',
    ensures
        split_levels(join_levels(levels)) == levels,
    decreases levels.len(),
{
    if levels.len() == 1 {
        assert forall|j: int| 0 <= j < levels[0].len() implies levels[0][j] != '/' by {
            assert(levels[0][j] != '/');
        }
        lemma_split_piece(levels[0], '/');
        assert(seq![levels[0]] =~= levels);
    } else {
        let init = levels.drop_last();
        assert forall|k: int, j: int| 0 <= k < init.len() && 0 <= j < init[k].len() implies #[trigger] init[k][j]
            != '/' by {
            assert(init[k][j] == levels[k][j]);
        }
        lemma_split_join(init);
        assert forall|j: int| 0 <= j < levels.last().len() implies levels.last()[j] != '/' by {
            assert(levels[levels.len() - 1][j] != '/');
        }
        lemma_split_after_sep(join_levels(init), levels.last(), '/');
        assert(init.push(levels.last()) =~= levels);
    }
}

/// Replacing a level other than `#` of a filter by `+` keeps every match.
proof fn lemma_levels_match_plus(t: Seq<Seq<char>>, f: Seq<Seq<char>>, i: int)
    requires
        levels_match(t, f),
        0 <= i < f.len(),
        f[i] != seq!['#'],
    ensures
        levels_match(t, f.update(i, seq!['+'])),
    decreases i,
{
    let g = f.update(i, seq!['+']);
    assert(t.len() > 0);
    assert(seq!['+'] != seq!['#']) by {
        assert(seq!['+'][0] != seq!['#'][0]);
    }
    assert(g[0] == (if i == 0 {
        seq!['+']
    } else {
        f[0]
    }));
    if i == 0 {
        assert(g.drop_first() =~= f.drop_first());
        assert(levels_match(t.drop_first(), f.drop_first()));
    } else {
        assert(f[0] != seq!['#']);
        lemma_levels_match_plus(t.drop_first(), f.drop_first(), i - 1);
        assert(g.drop_first() =~= f.drop_first().update(i - 1, seq!['+']));
    }
}

/// Replacing one level other than `#` of a filter by the wildcard `+`
/// keeps every topic it matched matching.
pub proof fn lemma_plus_level_keeps_match(topic: Seq<char>, filter: Seq<char>, i: int)
    requires
        topic_matches(topic, filter),
        0 <= i < split_levels(filter).len(),
        split_levels(filter)[i] != seq!['#'],
    ensures
        topic_matches(topic, join_levels(split_levels(filter).update(i, seq!['+']))),
{
    let f = split_levels(filter);
    let g = f.update(i, seq!['+']);
    lemma_pieces_free_of_sep(filter, '/');
    assert forall|k: int, j: int| 0 <= k < g.len() && 0 <= j < g[k].len() implies #[trigger] g[k][j]
        != '/' by {
        if k != i {
            assert(g[k][j] == f[k][j]);
        }
    }
    lemma_split_join(g);
    lemma_levels_match_plus(split_levels(topic), f, i);
}

/// Level `j` of the topic levels `t` is accepted by level `j` of the filter
/// levels `f`: the filter level is `+`, or the two levels are equal.
pub open spec fn level_accepted(t: Seq<Seq<char>>, f: Seq<Seq<char>>, j: int) -> bool {
    f[j] == seq!['+'] || t[j] == f[j]
}

/// Topic levels `t` fit filter levels `f` level by level: either `f` holds
/// no `#` and `t` has as many levels, each accepted by its filter level;
/// or `f` ends in its only `#`, `t` has at least as many levels, and each
/// level before the `#` is accepted by its filter level.
pub open spec fn fits_levels(t: Seq<Seq<char>>, f: Seq<Seq<char>>) -> bool {
    ||| {
        &&& forall|j: int| 0 <= j < f.len() ==> #[trigger] f[j] != seq!['#']
        &&& t.len() == f.len()
        &&& forall|j: int| 0 <= j < f.len() ==> #[trigger] level_accepted(t, f, j)
    }
    ||| {
        &&& f.len() >= 1
        &&& f.last() == seq!['#']
        &&& forall|j: int| 0 <= j < f.len() - 1 ==> #[trigger] f[j] != seq!['#']
        &&& t.len() >= f.len()
        &&& forall|j: int| 0 <= j < f.len() - 1 ==> #[trigger] level_accepted(t, f, j)
    }
}

/// Dropping the first level of both sides: a first filter level other
/// than `#` that accepts the first topic level leaves the fit of the rest.
proof fn lemma_fits_levels_step(t: Seq<Seq<char>>, f: Seq<Seq<char>>)
    requires
        t.len() >= 1,
        f.len() >= 1,
        f[0] != seq!['#'],
    ensures
        fits_levels(t, f) <==> (level_accepted(t, f, 0) && fits_levels(t.drop_first(), f.drop_first())),
{
    let t1 = t.drop_first();
    let f1 = f.drop_first();
    if fits_levels(t, f) {
        assert(level_accepted(t, f, 0)) by {
            if f.last() == seq!['#'] && f.len() >= 1 && (forall|j: int| 0 <= j < f.len() - 1 ==> #[trigger] f[j] != seq!['#']) && t.len() >= f.len() && (forall|j: int| 0 <= j < f.len() - 1 ==> #[trigger] level_accepted(t, f, j)) {
                if f.len() == 1 {
                    assert(f[0] == f.last());
                }
            }
        }
        if (forall|j: int| 0 <= j < f.len() ==> #[trigger] f[j] != seq!['#']) && t.len() == f.len() && (forall|j: int| 0 <= j < f.len() ==> #[trigger] level_accepted(t, f, j)) {
            assert forall|j: int| 0 <= j < f1.len() implies #[trigger] f1[j] != seq!['#'] by {
                assert(f1[j] == f[j + 1]);
            }
            assert forall|j: int| 0 <= j < f1.len() implies #[trigger] level_accepted(t1, f1, j) by {
                assert(level_accepted(t, f, j + 1));
                assert(f1[j] == f[j + 1] && t1[j] == t[j + 1]);
            }
        } else {
            if f.len() == 1 {
                assert(f[0] == f.last());
            }
            assert(f1.last() == f.last());
            assert forall|j: int| 0 <= j < f1.len() - 1 implies #[trigger] f1[j] != seq!['#'] by {
                assert(f1[j] == f[j + 1]);
            }
            assert forall|j: int| 0 <= j < f1.len() - 1 implies #[trigger] level_accepted(t1, f1, j) by {
                assert(level_accepted(t, f, j + 1));
                assert(f1[j] == f[j + 1] && t1[j] == t[j + 1]);
            }
        }
    }
    if level_accepted(t, f, 0) && fits_levels(t1, f1) {
        if (forall|j: int| 0 <= j < f1.len() ==> #[trigger] f1[j] != seq!['#']) && t1.len() == f1.len() && (forall|j: int| 0 <= j < f1.len() ==> #[trigger] level_accepted(t1, f1, j)) {
            assert forall|j: int| 0 <= j < f.len() implies #[trigger] f[j] != seq!['#'] by {
                if j > 0 {
                    assert(f1[j - 1] == f[j]);
                }
            }
            assert forall|j: int| 0 <= j < f.len() implies #[trigger] level_accepted(t, f, j) by {
                if j > 0 {
                    assert(level_accepted(t1, f1, j - 1));
                    assert(f1[j - 1] == f[j] && t1[j - 1] == t[j]);
                }
            }
        } else {
            assert(f.last() == f1.last());
            assert forall|j: int| 0 <= j < f.len() - 1 implies #[trigger] f[j] != seq!['#'] by {
                if j > 0 {
                    assert(f1[j - 1] == f[j]);
                }
            }
            assert forall|j: int| 0 <= j < f.len() - 1 implies #[trigger] level_accepted(t, f, j) by {
                if j > 0 {
                    assert(level_accepted(t1, f1, j - 1));
                    assert(f1[j - 1] == f[j] && t1[j - 1] == t[j]);
                }
            }
        }
    }
}

/// Topic levels match filter levels exactly when they fit level by level
/// (see [`fits_levels`]).
pub proof fn lemma_levels_match_iff_fit(t: Seq<Seq<char>>, f: Seq<Seq<char>>)
    ensures
        levels_match(t, f) <==> fits_levels(t, f),
    decreases f.len(),
{
    if f.len() == 0 {
    } else if t.len() == 0 {
        if fits_levels(t, f) {
            assert(false);
        }
    } else if f[0] == seq!['#'] {
        assert(seq!['+'] != seq!['#']) by {
            assert(seq!['+'][0] != seq!['#'][0]);
        }
        if f.len() == 1 {
            assert(f.last() == f[0]);
            assert(fits_levels(t, f));
        } else {
            if fits_levels(t, f) {
                assert(f[0] != seq!['#']);
            }
        }
    } else {
        lemma_levels_match_iff_fit(t.drop_first(), f.drop_first());
        lemma_fits_levels_step(t, f);
    }
}

/// A literal filter level (neither `+` nor `#`) matches only a topic level
/// equal to it, wherever it stands: when a topic matches a filter, the
/// topic has a level at the place of every filter level before a `#`, and
/// that level equals the filter level where the filter level is literal.
pub proof fn lemma_literal_level_must_be_equal(topic: Seq<char>, filter: Seq<char>, i: int)
    requires
        topic_matches(topic, filter),
        0 <= i < split_levels(filter).len(),
        split_levels(filter)[i] != seq!['#'],
    ensures
        i < split_levels(topic).len(),
        split_levels(filter)[i] != seq!['+'] ==> split_levels(topic)[i] == split_levels(filter)[i],
{
    let t = split_levels(topic);
    let f = split_levels(filter);
    lemma_levels_match_iff_fit(t, f);
    if f.len() >= 1 && i == f.len() - 1 {
        assert(f[i] == f.last());
    }
    assert(level_accepted(t, f, i));
}

/// A filter without `#` matches only topics with exactly as many levels;
/// a filter ending in `#` matches only topics with at least as many
/// levels as it has.
pub proof fn lemma_level_count_of_match(topic: Seq<char>, filter: Seq<char>)
    requires
        topic_matches(topic, filter),
    ensures
        (forall|j: int| 0 <= j < split_levels(filter).len() ==> #[trigger] split_levels(filter)[j] != seq!['#'])
            ==> split_levels(topic).len() == split_levels(filter).len(),
        split_levels(topic).len() >= split_levels(filter).len(),
{
    let t = split_levels(topic);
    let f = split_levels(filter);
    lemma_levels_match_iff_fit(t, f);
    if (forall|j: int| 0 <= j < f.len() ==> #[trigger] f[j] != seq!['#']) {
        if f.len() >= 1 && f.last() == seq!['#'] {
            assert(f[f.len() - 1] != seq!['#']);
        }
    }
}

/// A topic matches a filter when it fits the filter level by level: every
/// filter level before a final `#` is `+` or equal to the topic level at
/// its place, and the topic has as many levels as the filter (at least as
/// many, when the filter ends in `#`).
pub proof fn lemma_fit_matches(topic: Seq<char>, filter: Seq<char>)
    requires
        fits_levels(split_levels(topic), split_levels(filter)),
    ensures
        topic_matches(topic, filter),
{
    lemma_levels_match_iff_fit(split_levels(topic), split_levels(filter));
}

/// The number of characters of `s` left once its trailing slashes are cut.
fn trimmed_len(s: &Vec<char>) -> (k: usize)
    ensures
        k as int == trim_trailing_slashes(s@).len(),
{
    let mut k = s.len();
    assert(s@.take(k as int) =~= s@);
    while k > 0 && s[k - 1] == '/'
        invariant
            k <= s.len(),
            trim_trailing_slashes(s@) == trim_trailing_slashes(s@.take(k as int)),
        decreases k,
    {
        assert(s@.take(k as int).drop_last() =~= s@.take(k - 1));
        k = k - 1;
    }
    assert(s@.take(k as int).len() == k);
    k
}

/// `s` without its trailing `/` characters.
pub fn trim_end_slashes(s: &str) -> (r: String)
    ensures
        r@ == trim_trailing_slashes(s@),
{
    let cs = chars_of(s);
    let k = trimmed_len(&cs);
    proof {
        lemma_trim_len(s@);
    }
    s.substring_char(0, k).to_owned()
}

/// Whether `topic` matches the MQTT topic filter `filter` (with `+` and `#`
/// wildcards).
pub fn topic_matches_filter(topic: &str, filter: &str) -> (r: bool)
    ensures
        r == topic_matches(topic@, filter@),
{
    let topic_parts = split_chars(&chars_of(topic), '/');
    let filter_parts = split_chars(&chars_of(filter), '/');
    let ghost t = level_views(topic_parts@);
    let ghost f = level_views(filter_parts@);
    let mut i: usize = 0;
    assert(t.skip(0) =~= t);
    assert(f.skip(0) =~= f);
    while i < filter_parts.len() && i < topic_parts.len()
        invariant
            t == split_levels(topic@),
            f == split_levels(filter@),
            t.len() == topic_parts.len(),
            f.len() == filter_parts.len(),
            forall|j: int| 0 <= j < t.len() ==> #[trigger] t[j] == topic_parts@[j]@,
            forall|j: int| 0 <= j < f.len() ==> #[trigger] f[j] == filter_parts@[j]@,
            i <= t.len(),
            i <= f.len(),
            levels_match(t, f) == levels_match(t.skip(i as int), f.skip(i as int)),
        decreases f.len() - i,
    {
        let part = &filter_parts[i];
        assert(t.skip(i as int)[0] == t[i as int]);
        assert(f.skip(i as int)[0] == f[i as int]);
        assert(t.skip(i as int).drop_first() =~= t.skip(i + 1));
        assert(f.skip(i as int).drop_first() =~= f.skip(i + 1));
        if part.len() == 1 && part[0] == '#' {
            assert(f[i as int] =~= seq!['#']);
            return i == filter_parts.len() - 1;
        }
        if part.len() == 1 && part[0] == '+' {
            assert(f[i as int] =~= seq!['+']);
            i = i + 1;
        } else {
            assert(f[i as int] != seq!['#']);
            assert(f[i as int] != seq!['+']);
            if !chars_eq(&topic_parts[i], part) {
                return false;
            }
            i = i + 1;
        }
    }
    if i < filter_parts.len() {
        assert(t.skip(i as int).len() == 0);
        return false;
    }
    assert(f.skip(i as int).len() == 0);
    i == topic_parts.len()
}

/// The remote topic of `local_topic` under a forward rule: the rule's
/// remote prefix (trailing slashes cut), a `/`, then the local topic; the
/// local topic as it is when the prefix is empty.
pub fn apply_forward_mapping(local_topic: &str, rule: &ForwardRule) -> (r: String)
    ensures
        r@ == forward_topic(local_topic@, rule.remote_prefix@),
{
    if rule.remote_prefix.as_str().is_empty() {
        local_topic.to_owned()
    } else {
        let prefix = trim_end_slashes(rule.remote_prefix.as_str());
        proof {
            reveal_strlit("/");
        }
        prefix.concat("/").concat(local_topic)
    }
}

/// Whether `s` starts with `p` followed by a `/`.
fn starts_with_slashed(s: &Vec<char>, p: &Vec<char>) -> (r: bool)
    ensures
        r == (p@.len() + 1 <= s@.len() && s@.take(p@.len() + 1int) == p@.push('/')),
{
    if s.len() <= p.len() || s[p.len()] != '/' {
        assert(s@.len() >= p@.len() + 1 ==> s@.take(p@.len() + 1int)[p@.len() as int] == s@[p@.len() as int]);
        return false;
    }
    let mut i: usize = 0;
    while i < p.len()
        invariant
            i <= p.len(),
            p.len() + 1 <= s.len(),
            s@[p@.len() as int] == '/',
            forall|j: int| 0 <= j < i ==> s@[j] == p@[j],
        decreases p.len() - i,
    {
        if s[i] != p[i] {
            assert(s@.take(p@.len() + 1int)[i as int] == s@[i as int]);
            assert(p@.push('/')[i as int] == p@[i as int]);
            return false;
        }
        i = i + 1;
    }
    assert(s@.take(p@.len() + 1int) =~= p@.push('/'));
    true
}

/// The local topic of `remote_topic` under a subscribe rule: the topic with
/// the rule's remote prefix (trailing slashes cut) and the `/` after it taken
/// off, or the empty topic when the topic is the prefix itself. A topic that
/// does not start with the prefix is refused with a topic mapping error.
pub fn apply_subscribe_mapping(remote_topic: &str, rule: &SubscribeRule) -> (r: Result<String>)
    ensures
        match subscribe_topic(remote_topic@, rule.remote_prefix@) {
            Some(t) => r matches Ok(s) && s@ == t,
            None => r matches Err(BridgeError::TopicMapping(m)) && m@ == prefix_mismatch_message(
                remote_topic@,
                trim_trailing_slashes(rule.remote_prefix@),
            ),
        },
{
    if rule.remote_prefix.as_str().is_empty() {
        return Ok(remote_topic.to_owned());
    }
    let prefix = trim_end_slashes(rule.remote_prefix.as_str());
    let topic_chars = chars_of(remote_topic);
    let prefix_chars = chars_of(prefix.as_str());
    if starts_with_slashed(&topic_chars, &prefix_chars) {
        let n = topic_chars.len();
        Ok(remote_topic.substring_char(prefix_chars.len() + 1, n).to_owned())
    } else if chars_eq(&topic_chars, &prefix_chars) {
        Ok(String::new())
    } else {
        let msg = "Topic '".to_owned().concat(remote_topic).concat(
            "' does not start with prefix '",
        ).concat(prefix.as_str()).concat("'");
        Err(BridgeError::TopicMapping(msg))
    }
}

} // verus!
