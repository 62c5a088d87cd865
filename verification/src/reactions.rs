//! Reactions: the six-emoji allowlist, the worker's toggle, and the client's
//! update of a post's reaction counters after a tap.
use vstd::prelude::*;
use crate::http::ApiError;
use crate::text::eq_str;
use crate::types::ReactionSummary;

verus! {

/// The allowed reactions: red heart, tears of joy, fire, clapping hands,
/// folded hands, crying face.
pub open spec fn allowed_emoji(s: Seq<char>) -> bool {
    ||| s == "\u{2764}\u{fe0f}"@
    ||| s == "\u{1f602}"@
    ||| s == "\u{1f525}"@
    ||| s == "\u{1f44f}"@
    ||| s == "\u{1f64f}"@
    ||| s == "\u{1f622}"@
}

/// Whether `s` is one of the six allowed reactions.
pub fn is_allowed_emoji(s: &str) -> (b: bool)
    ensures
        b == allowed_emoji(s@),
{
    eq_str(s, "\u{2764}\u{fe0f}") || eq_str(s, "\u{1f602}") || eq_str(s, "\u{1f525}") || eq_str(
        s,
        "\u{1f44f}",
    ) || eq_str(s, "\u{1f64f}") || eq_str(s, "\u{1f622}")
}

/// What the worker does with a reaction request.
#[derive(Debug, Clone, PartialEq, Eq)]
pub enum ToggleAction {
    /// Delete the member's existing reaction row with this id.
    Remove { id: String },
    /// Insert a new reaction row.
    Add,
}

/// Admits the emoji of a reaction request.
pub fn check_emoji(emoji: &str) -> (r: Result<(), ApiError>)
    ensures
        allowed_emoji(emoji@) ==> r == Ok::<(), ApiError>(()),
        !allowed_emoji(emoji@) ==> r == Err::<(), ApiError>(ApiError::EmojiNotAllowed),
{
    if is_allowed_emoji(emoji) {
        Ok(())
    } else {
        Err(ApiError::EmojiNotAllowed)
    }
}

/// The action for a member's reaction: remove the existing row, or add one.
pub open spec fn toggle_action(existing: Option<String>) -> ToggleAction {
    match existing {
        Some(id) => ToggleAction::Remove { id },
        None => ToggleAction::Add,
    }
}

/// Toggles a member's reaction: an existing one is removed, an absent one added.
pub fn toggle(existing: Option<String>) -> (a: ToggleAction)
    ensures
        a == toggle_action(existing),
{
    match existing {
        Some(id) => ToggleAction::Remove { id },
        None => ToggleAction::Add,
    }
}

/// The reaction rows, as (post, member, emoji), after an action on `key`.
pub open spec fn rows_after(
    rows: Set<(Seq<char>, Seq<char>, Seq<char>)>,
    key: (Seq<char>, Seq<char>, Seq<char>),
    a: ToggleAction,
) -> Set<(Seq<char>, Seq<char>, Seq<char>)> {
    match a {
        ToggleAction::Remove { .. } => rows.remove(key),
        ToggleAction::Add => rows.insert(key),
    }
}

/// A second tap undoes the first: when each toggle is decided on whether the
/// member's row for that post and emoji exists at that moment, two toggles
/// leave the reaction rows as they were.
pub proof fn toggle_twice_restores_rows(
    rows: Set<(Seq<char>, Seq<char>, Seq<char>)>,
    key: (Seq<char>, Seq<char>, Seq<char>),
    first: Option<String>,
    second: Option<String>,
)
    requires
        (first is Some) == rows.contains(key),
        (second is Some) == rows_after(rows, key, toggle_action(first)).contains(key),
    ensures
        rows_after(rows_after(rows, key, toggle_action(first)), key, toggle_action(second)) == rows,
{
    if rows.contains(key) {
        assert(rows.remove(key).insert(key) =~= rows);
    } else {
        assert(rows.insert(key).remove(key) =~= rows);
    }
}

/// The body that reports the outcome of a toggle.
pub fn toggle_body(a: &ToggleAction) -> (b: &'static str)
    ensures
        a is Remove ==> b@ == "{\"state\":\"removed\"}"@,
        a is Add ==> b@ == "{\"state\":\"added\"}"@,
{
    match a {
        ToggleAction::Remove { .. } => "{\"state\":\"removed\"}",
        ToggleAction::Add => "{\"state\":\"added\"}",
    }
}

/// The index of the first counter for emoji `e`, if there is one.
pub open spec fn find_emoji(s: Seq<ReactionSummary>, e: Seq<char>) -> Option<int> {
    if exists|k: int| 0 <= k < s.len() && s[k].emoji@ == e {
        Some(
            choose|k: int|
                0 <= k < s.len() && s[k].emoji@ == e && forall|j: int|
                    0 <= j < k ==> s[j].emoji@ != e,
        )
    } else {
        None
    }
}

/// A counter after the viewer's tap: the viewer's mark flips, and the count
/// follows it (never below zero).
pub open spec fn tapped(r: ReactionSummary) -> ReactionSummary {
    if r.mine {
        ReactionSummary {
            emoji: r.emoji,
            count: if r.count > 0 {
                (r.count - 1) as u32
            } else {
                0
            },
            mine: false,
        }
    } else {
        ReactionSummary { emoji: r.emoji, count: (r.count + 1) as u32, mine: true }
    }
}

/// A tap flips the viewer's mark on a counter and moves its count by one
/// the same way: up when the viewer adds a reaction, down when they take
/// theirs back; the emoji stays.
pub proof fn tap_moves_count_by_one(r: ReactionSummary)
    ensures
        tapped(r).emoji == r.emoji,
        tapped(r).mine == !r.mine,
        !r.mine && r.count < u32::MAX ==> tapped(r).count == r.count + 1,
        r.mine && r.count > 0 ==> tapped(r).count + 1 == r.count,
{
}

/// The counters of `s` whose count is positive, in order.
pub open spec fn keep_positive(s: Seq<ReactionSummary>) -> Seq<ReactionSummary>
    decreases s.len(),
{
    if s.len() == 0 {
        s
    } else {
        let rest = keep_positive(s.drop_last());
        if s.last().count > 0 {
            rest.push(s.last())
        } else {
            rest
        }
    }
}

/// A fresh counter of one for emoji `e`: the viewer's own reaction.
pub open spec fn is_fresh_counter(r: ReactionSummary, e: Seq<char>) -> bool {
    r.emoji@ == e && r.count == 1 && r.mine
}

/// The counters after the viewer taps emoji `e`, where `fresh` is the counter
/// that a first reaction with `e` adds.
pub open spec fn after_tap(s: Seq<ReactionSummary>, fresh: ReactionSummary, e: Seq<char>) -> Seq<
    ReactionSummary,
> {
    match find_emoji(s, e) {
        Some(k) => keep_positive(s.update(k, tapped(s[k]))),
        None => keep_positive(s.push(fresh)),
    }
}

/// A copy of a counter.
fn copy_summary(r: &ReactionSummary) -> (c: ReactionSummary)
    ensures
        c == *r,
{
    ReactionSummary { emoji: r.emoji.clone(), count: r.count, mine: r.mine }
}

/// Updates the counters of a post after the viewer tapped emoji `e` and the
/// worker accepted it: the first counter for `e` flips the viewer's mark and
/// moves its count by one (never below zero), or a counter of one is added
/// at the end; counters that fall to zero are dropped.
pub fn toggle_reaction(reactions: &mut Vec<ReactionSummary>, e: &str)
    requires
        find_emoji(old(reactions)@, e@) matches Some(k) ==> (old(reactions)@[k].mine
            || old(reactions)@[k].count < u32::MAX),
    ensures
        ({
            let fresh = final(reactions)@.last();
            &&& find_emoji(old(reactions)@, e@) is None ==> is_fresh_counter(fresh, e@)
            &&& final(reactions)@ == after_tap(old(reactions)@, fresh, e@)
        }),
{
    let n = reactions.len();
    let mut i: usize = 0;
    while i < n && !eq_str(reactions[i].emoji.as_str(), e)
        invariant
            i <= n,
            n == reactions@.len(),
            forall|j: int| 0 <= j < i ==> reactions@[j].emoji@ != e@,
        decreases n - i,
    {
        i += 1;
    }
    let ghost s0 = reactions@;
    if i < n {
        assert(find_emoji(s0, e@) == Some(i as int)) by {
            assert(s0[i as int].emoji@ == e@);
            let k = choose|k: int|
                0 <= k < s0.len() && s0[k].emoji@ == e@ && forall|j: int|
                    0 <= j < k ==> s0[j].emoji@ != e@;
            assert(k == i) by {
                if k < i {
                } else if k > i {
                    assert(s0[i as int].emoji@ != e@);
                }
            }
        }
        if reactions[i].mine {
            reactions[i].mine = false;
            reactions[i].count = if reactions[i].count > 0 {
                reactions[i].count - 1
            } else {
                0
            };
        } else {
            reactions[i].mine = true;
            reactions[i].count = reactions[i].count + 1;
        }
        assert(reactions@ =~= s0.update(i as int, tapped(s0[i as int])));
    } else {
        assert(find_emoji(s0, e@) is None);
        reactions.push(ReactionSummary { emoji: String::from_str(e), count: 1, mine: true });
    }
    let ghost s1 = reactions@;
    let mut kept: Vec<ReactionSummary> = Vec::new();
    let mut j: usize = 0;
    let m = reactions.len();
    while j < m
        invariant
            j <= m,
            m == s1.len(),
            reactions@ == s1,
            kept@ == keep_positive(s1.take(j as int)),
        decreases m - j,
    {
        assert(s1.take(j + 1).drop_last() =~= s1.take(j as int));
        if reactions[j].count > 0 {
            kept.push(copy_summary(&reactions[j]));
        }
        j += 1;
    }
    assert(s1.take(m as int) =~= s1);
    *reactions = kept;
    proof {
        if find_emoji(s0, e@) is None {
            let fresh = s1.last();
            assert(s1 == s0.push(fresh));
            assert(is_fresh_counter(fresh, e@));
            lemma_keep_positive_last(s0, fresh);
            assert(reactions@.last() == fresh);
        }
    }
}

/// Keeping the positive counters of `s` followed by a positive counter keeps
/// that counter last.
proof fn lemma_keep_positive_last(s: Seq<ReactionSummary>, r: ReactionSummary)
    requires
        r.count > 0,
    ensures
        keep_positive(s.push(r)) == keep_positive(s).push(r),
{
    assert(s.push(r).drop_last() =~= s);
}

/// Every counter of `s` is positive, and no two count the same emoji.
pub open spec fn well_formed(s: Seq<ReactionSummary>) -> bool {
    &&& forall|i: int| 0 <= i < s.len() ==> #[trigger] s[i].count > 0
    &&& forall|i: int, j: int|
        0 <= i < s.len() && 0 <= j < s.len() && i != j ==> s[i].emoji@ != s[j].emoji@
}

proof fn lemma_keep_positive_all(s: Seq<ReactionSummary>)
    requires
        forall|i: int| 0 <= i < s.len() ==> #[trigger] s[i].count > 0,
    ensures
        keep_positive(s) == s,
    decreases s.len(),
{
    if s.len() > 0 {
        lemma_keep_positive_all(s.drop_last());
        assert(s.drop_last().push(s.last()) =~= s);
    }
}

/// Dropping the one zero counter at `k` of otherwise positive counters
/// removes it.
proof fn lemma_keep_positive_drop(s: Seq<ReactionSummary>, k: int)
    requires
        0 <= k < s.len(),
        s[k].count == 0,
        forall|i: int| 0 <= i < s.len() && i != k ==> #[trigger] s[i].count > 0,
    ensures
        keep_positive(s) == s.remove(k),
    decreases s.len(),
{
    if k == s.len() - 1 {
        lemma_keep_positive_all(s.drop_last());
        assert(s.drop_last() =~= s.remove(k));
    } else {
        lemma_keep_positive_drop(s.drop_last(), k);
        assert(s.drop_last().remove(k).push(s.last()) =~= s.remove(k));
    }
}

/// The index that `find_emoji` gives for an emoji held at `k` of distinct counters.
proof fn lemma_find_at(s: Seq<ReactionSummary>, e: Seq<char>, k: int)
    requires
        well_formed(s),
        0 <= k < s.len(),
        s[k].emoji@ == e,
    ensures
        find_emoji(s, e) == Some(k),
{
    let c = choose|c: int|
        0 <= c < s.len() && s[c].emoji@ == e && forall|j: int| 0 <= j < c ==> s[j].emoji@ != e;
    assert(0 <= k < s.len() && s[k].emoji@ == e && forall|j: int| 0 <= j < k ==> s[j].emoji@ != e);
}

/// Tapping a reaction twice restores the counters of a post: every counter
/// comes back with its emoji, count and mark; the one counter that the first
/// tap dropped (the viewer's own reaction, which alone made its count one)
/// comes back at the end.
pub proof fn toggle_twice_restores(
    s: Seq<ReactionSummary>,
    e: Seq<char>,
    fresh1: ReactionSummary,
    fresh2: ReactionSummary,
)
    requires
        well_formed(s),
        forall|i: int| 0 <= i < s.len() ==> #[trigger] s[i].count < u32::MAX,
        is_fresh_counter(fresh1, e),
        is_fresh_counter(fresh2, e),
    ensures
        ({
            let twice = after_tap(after_tap(s, fresh1, e), fresh2, e);
            match find_emoji(s, e) {
                Some(k) => if s[k].mine && s[k].count == 1 {
                    twice == s.remove(k).push(fresh2) && fresh2.emoji@ == s[k].emoji@
                } else {
                    twice == s
                },
                None => twice == s,
            }
        }),
{
    match find_emoji(s, e) {
        Some(k) => {
            assert(0 <= k < s.len() && s[k].emoji@ == e) by {
                let w = choose|w: int| 0 <= w < s.len() && s[w].emoji@ == e;
                lemma_find_at(s, e, w);
            }
            let u = s.update(k, tapped(s[k]));
            if s[k].mine && s[k].count == 1 {
                lemma_keep_positive_drop(u, k);
                let t1 = u.remove(k);
                assert(t1 =~= s.remove(k));
                assert forall|j: int| 0 <= j < t1.len() implies t1[j].emoji@ != e by {
                    if j < k {
                        assert(t1[j] == s[j]);
                    } else {
                        assert(t1[j] == s[j + 1]);
                    }
                }
                assert(find_emoji(t1, e) is None);
                assert forall|i: int| 0 <= i < t1.len() implies #[trigger] t1[i].count > 0 by {
                    if i < k {
                        assert(t1[i] == s[i]);
                    } else {
                        assert(t1[i] == s[i + 1]);
                    }
                }
                lemma_keep_positive_last(t1, fresh2);
                lemma_keep_positive_all(t1);
            } else {
                assert forall|i: int| 0 <= i < u.len() implies #[trigger] u[i].count > 0 by {
                    if i == k {
                    } else {
                        assert(u[i] == s[i]);
                    }
                }
                lemma_keep_positive_all(u);
                assert(well_formed(u)) by {
                    assert forall|i: int, j: int|
                        0 <= i < u.len() && 0 <= j < u.len() && i != j implies u[i].emoji@
                        != u[j].emoji@ by {
                        assert(u[i].emoji@ == s[i].emoji@);
                        assert(u[j].emoji@ == s[j].emoji@);
                    }
                }
                lemma_find_at(u, e, k);
                let v = u.update(k, tapped(u[k]));
                assert(v =~= s);
                lemma_keep_positive_all(s);
            }
        },
        None => {
            assert forall|j: int| 0 <= j < s.len() implies s[j].emoji@ != e by {
                if s[j].emoji@ == e {
                    assert(exists|k: int| 0 <= k < s.len() && s[k].emoji@ == e);
                }
            }
            lemma_keep_positive_last(s, fresh1);
            lemma_keep_positive_all(s);
            let t1 = s.push(fresh1);
            let k = s.len() as int;
            assert(well_formed(t1)) by {
                assert forall|i: int, j: int|
                    0 <= i < t1.len() && 0 <= j < t1.len() && i != j implies t1[i].emoji@
                    != t1[j].emoji@ by {
                    if i < k && j < k {
                        assert(t1[i] == s[i]);
                        assert(t1[j] == s[j]);
                    } else if i < k {
                        assert(t1[i] == s[i]);
                    } else {
                        assert(t1[j] == s[j]);
                    }
                }
                assert forall|i: int| 0 <= i < t1.len() implies #[trigger] t1[i].count > 0 by {
                    if i < k {
                        assert(t1[i] == s[i]);
                    }
                }
            }
            lemma_find_at(t1, e, k);
            let u = t1.update(k, tapped(t1[k]));
            assert forall|i: int| 0 <= i < u.len() && i != k implies #[trigger] u[i].count > 0 by {
                assert(u[i] == s[i]);
            }
            lemma_keep_positive_drop(u, k);
            assert(u.remove(k) =~= s);
        },
    }
}

/// A tap on emoji `e` changes only the counter of `e`: a first reaction
/// with `e` adds the fresh counter of one at the end; otherwise the counter
/// of `e` is tapped in place, and dropped when it falls to zero (the
/// viewer's own reaction was its only one).
pub proof fn tap_changes_only_its_counter(s: Seq<ReactionSummary>, e: Seq<char>, fresh: ReactionSummary)
    requires
        well_formed(s),
        is_fresh_counter(fresh, e),
    ensures
        (forall|i: int| 0 <= i < s.len() ==> s[i].emoji@ != e) ==> after_tap(s, fresh, e) == s.push(
            fresh,
        ),
        forall|k: int|
            0 <= k < s.len() && s[k].emoji@ == e && s[k].mine && s[k].count == 1 ==> after_tap(
                s,
                fresh,
                e,
            ) == s.remove(k),
        forall|k: int|
            0 <= k < s.len() && s[k].emoji@ == e && !(s[k].mine && s[k].count == 1) && s[k].count
                < u32::MAX ==> after_tap(s, fresh, e) == s.update(k, tapped(s[k])),
{
    if forall|i: int| 0 <= i < s.len() ==> s[i].emoji@ != e {
        lemma_keep_positive_last(s, fresh);
        lemma_keep_positive_all(s);
    }
    assert forall|k: int|
        0 <= k < s.len() && s[k].emoji@ == e && s[k].mine && s[k].count == 1 implies after_tap(
            s,
            fresh,
            e,
        ) == s.remove(k) by {
        lemma_find_at(s, e, k);
        let u = s.update(k, tapped(s[k]));
        lemma_keep_positive_drop(u, k);
        assert(u.remove(k) =~= s.remove(k));
    }
    assert forall|k: int|
        0 <= k < s.len() && s[k].emoji@ == e && !(s[k].mine && s[k].count == 1) && s[k].count
            < u32::MAX implies after_tap(s, fresh, e) == s.update(k, tapped(s[k])) by {
        lemma_find_at(s, e, k);
        let u = s.update(k, tapped(s[k]));
        assert forall|i: int| 0 <= i < u.len() implies #[trigger] u[i].count > 0 by {
            if i != k {
                assert(u[i] == s[i]);
            }
        }
        lemma_keep_positive_all(u);
    }
}

/// The viewer's mark and the count shown on the button of emoji `e`: those of
/// the first counter for `e`, no mark and zero without one.
pub fn reaction_button(reactions: &Vec<ReactionSummary>, e: &str) -> (r: (bool, u32))
    ensures
        match find_emoji(reactions@, e@) {
            Some(k) => r == (reactions@[k].mine, reactions@[k].count),
            None => r == (false, 0u32),
        },
{
    let n = reactions.len();
    let mut i: usize = 0;
    while i < n
        invariant
            i <= n,
            n == reactions@.len(),
            forall|j: int| 0 <= j < i ==> reactions@[j].emoji@ != e@,
        decreases n - i,
    {
        if eq_str(reactions[i].emoji.as_str(), e) {
            let ghost s = reactions@;
            assert(find_emoji(s, e@) == Some(i as int)) by {
                let k = choose|k: int|
                    0 <= k < s.len() && s[k].emoji@ == e@ && forall|j: int|
                        0 <= j < k ==> s[j].emoji@ != e@;
                assert(0 <= i < s.len() && s[i as int].emoji@ == e@);
                assert(k == i) by {
                    if k > i {
                        assert(s[i as int].emoji@ != e@);
                    }
                }
            }
            return (reactions[i].mine, reactions[i].count);
        }
        i += 1;
    }
    (false, 0)
}

} // verus!
