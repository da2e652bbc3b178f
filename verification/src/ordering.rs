//! The order in which the queue is listed: by urgency, highest first, and
//! among notifications of one urgency in the order in which they were fetched.

use crate::notification::{views, Notification, NotificationView};
use vstd::prelude::*;

verus! {

/// The notifications of `s` that have the given urgency, in the order in
/// which they stand in `s`.
pub open spec fn with_urgency(s: Seq<NotificationView>, urgency: u32) -> Seq<NotificationView> {
    s.filter(|n: NotificationView| n.urgency == urgency)
}

/// No notification stands before a more urgent one.
pub open spec fn is_descending(s: Seq<NotificationView>) -> bool {
    forall|i: int, j: int| 0 <= i < j < s.len() ==> s[i].urgency >= s[j].urgency
}

/// `output` lists the notifications of `input` by descending urgency and
/// keeps, for every urgency, the notifications of that urgency exactly as
/// they follow one another in `input`.
pub open spec fn is_stable_ordering(
    input: Seq<NotificationView>,
    output: Seq<NotificationView>,
) -> bool {
    &&& is_descending(output)
    &&& forall|urgency: u32| #[trigger]
        with_urgency(output, urgency) == with_urgency(input, urgency)
}

/// The listing order of `input`.
///
/// [`lemma_stable_ordering_exists`] and [`lemma_stable_ordering_unique`] show
/// that exactly one sequence qualifies.
pub open spec fn stable_ordering(input: Seq<NotificationView>) -> Seq<NotificationView> {
    choose|output: Seq<NotificationView>| is_stable_ordering(input, output)
}

/// `at` splits `s` into the notifications more urgent than `urgency` and the
/// others.
spec fn is_insertion_point(s: Seq<NotificationView>, urgency: u32, at: int) -> bool {
    &&& 0 <= at <= s.len()
    &&& forall|i: int| 0 <= i < at ==> s[i].urgency > urgency
    &&& forall|i: int| at <= i < s.len() ==> s[i].urgency <= urgency
}

/// Nothing is kept by an urgency that no notification has.
proof fn lemma_with_urgency_absent(s: Seq<NotificationView>, urgency: u32)
    requires
        forall|i: int| 0 <= i < s.len() ==> s[i].urgency != urgency,
    ensures
        with_urgency(s, urgency) == Seq::<NotificationView>::empty(),
{
    broadcast use vstd::seq_lib::group_filter_ensures;

    let class = with_urgency(s, urgency);
    if class.len() > 0 {
        let first = class[0];
        assert(class.contains(first));
        s.lemma_filter_contains_rev(|n: NotificationView| n.urgency == urgency, first);
        let i = choose|i: int| 0 <= i < s.len() && s[i] == first;
        assert(s[i].urgency == urgency);
    }
    assert(class =~= Seq::<NotificationView>::empty());
}

/// What is kept of a sequence with one more notification in front.
proof fn lemma_with_urgency_prepend(n: NotificationView, s: Seq<NotificationView>, urgency: u32)
    ensures
        with_urgency(seq![n] + s, urgency) == if n.urgency == urgency {
            seq![n] + with_urgency(s, urgency)
        } else {
            with_urgency(s, urgency)
        },
{
    s.lemma_filter_prepend(n, |n: NotificationView| n.urgency == urgency);
    assert(Seq::<NotificationView>::empty() + with_urgency(s, urgency) =~= with_urgency(
        s,
        urgency,
    ));
}

/// Putting a notification that was fetched before all of `rest` in front of
/// the less urgent and the equally urgent ones keeps the listing order.
proof fn lemma_insert_earlier(
    rest: Seq<NotificationView>,
    ordered: Seq<NotificationView>,
    n: NotificationView,
    at: int,
)
    requires
        is_stable_ordering(rest, ordered),
        is_insertion_point(ordered, n.urgency, at),
    ensures
        is_stable_ordering(seq![n] + rest, ordered.insert(at, n)),
{
    let output = ordered.insert(at, n);
    let front = ordered.take(at);
    let back = ordered.skip(at);
    assert(is_descending(output));
    assert(ordered =~= front + back);
    assert(output =~= front + (seq![n] + back));
    assert forall|urgency: u32| #[trigger]
        with_urgency(output, urgency) == with_urgency(seq![n] + rest, urgency) by {
        let pred = |n: NotificationView| n.urgency == urgency;
        Seq::filter_distributes_over_add(front, back, pred);
        Seq::filter_distributes_over_add(front, seq![n] + back, pred);
        lemma_with_urgency_prepend(n, back, urgency);
        lemma_with_urgency_prepend(n, rest, urgency);
        assert(with_urgency(ordered, urgency) == with_urgency(rest, urgency));
        if n.urgency == urgency {
            lemma_with_urgency_absent(front, urgency);
            assert(with_urgency(output, urgency) =~= seq![n] + with_urgency(ordered, urgency));
        }
    }
}

/// The first notification of a sequence opens what is kept by its own
/// urgency, and leaves what is kept by any other as it is.
proof fn lemma_with_urgency_drop_first(s: Seq<NotificationView>, urgency: u32)
    requires
        s.len() > 0,
    ensures
        s[0].urgency == urgency ==> with_urgency(s, urgency).len() > 0 && with_urgency(
            s,
            urgency,
        )[0] == s[0] && with_urgency(s.drop_first(), urgency) == with_urgency(
            s,
            urgency,
        ).drop_first(),
        s[0].urgency != urgency ==> with_urgency(s.drop_first(), urgency) == with_urgency(
            s,
            urgency,
        ),
{
    assert(s =~= seq![s[0]] + s.drop_first());
    lemma_with_urgency_prepend(s[0], s.drop_first(), urgency);
    if s[0].urgency == urgency {
        assert((seq![s[0]] + with_urgency(s.drop_first(), urgency)).drop_first()
            =~= with_urgency(s.drop_first(), urgency));
    }
}

/// Where something is kept by an urgency, some notification has it.
proof fn lemma_with_urgency_witness(s: Seq<NotificationView>, urgency: u32) -> (i: int)
    requires
        with_urgency(s, urgency).len() > 0,
    ensures
        0 <= i < s.len(),
        s[i].urgency == urgency,
{
    broadcast use vstd::seq_lib::group_filter_ensures;

    let class = with_urgency(s, urgency);
    let first = class[0];
    assert(class.contains(first));
    s.lemma_filter_contains_rev(|n: NotificationView| n.urgency == urgency, first);
    choose|i: int| 0 <= i < s.len() && s[i] == first
}

/// Two descending sequences of which every urgency keeps the same open with
/// the same notification.
proof fn lemma_same_first(a: Seq<NotificationView>, b: Seq<NotificationView>)
    requires
        is_descending(a),
        is_descending(b),
        forall|urgency: u32| #[trigger] with_urgency(a, urgency) == with_urgency(b, urgency),
        a.len() > 0,
    ensures
        b.len() > 0,
        a[0] == b[0],
{
    let top = a[0].urgency;
    lemma_with_urgency_drop_first(a, top);
    assert(with_urgency(b, top) == with_urgency(a, top));
    let k = lemma_with_urgency_witness(b, top);
    let other = b[0].urgency;
    lemma_with_urgency_drop_first(b, other);
    assert(with_urgency(a, other) == with_urgency(b, other));
    let j = lemma_with_urgency_witness(a, other);
    assert(a[0].urgency >= a[j].urgency);
    assert(b[0].urgency >= b[k].urgency);
}

/// The listing order is determined by the queue: two sequences that both
/// qualify as the stable ordering of `input` are the same sequence.
pub proof fn lemma_stable_ordering_unique(
    input: Seq<NotificationView>,
    a: Seq<NotificationView>,
    b: Seq<NotificationView>,
)
    requires
        is_stable_ordering(input, a),
        is_stable_ordering(input, b),
    ensures
        a == b,
    decreases a.len(),
{
    assert forall|urgency: u32| #[trigger]
        with_urgency(a, urgency) == with_urgency(b, urgency) by {
        assert(with_urgency(a, urgency) == with_urgency(input, urgency));
        assert(with_urgency(b, urgency) == with_urgency(input, urgency));
    }
    if a.len() == 0 {
        if b.len() > 0 {
            lemma_same_first(b, a);
        }
        assert(a =~= b);
    } else {
        lemma_same_first(a, b);
        let a_rest = a.drop_first();
        let b_rest = b.drop_first();
        assert forall|urgency: u32| #[trigger]
            with_urgency(a_rest, urgency) == with_urgency(b_rest, urgency) by {
            lemma_with_urgency_drop_first(a, urgency);
            lemma_with_urgency_drop_first(b, urgency);
            assert(with_urgency(a, urgency) == with_urgency(b, urgency));
        }
        assert(is_stable_ordering(a_rest, a_rest));
        assert(is_stable_ordering(a_rest, b_rest));
        lemma_stable_ordering_unique(a_rest, a_rest, b_rest);
        assert(a =~= seq![a[0]] + a_rest);
        assert(b =~= seq![b[0]] + b_rest);
    }
}

/// Every descending sequence has a place for a notification of any urgency.
proof fn lemma_insertion_point_exists(s: Seq<NotificationView>, urgency: u32) -> (at: int)
    requires
        is_descending(s),
    ensures
        is_insertion_point(s, urgency, at),
    decreases s.len(),
{
    if s.len() == 0 {
        0
    } else if s.last().urgency > urgency {
        assert forall|i: int| 0 <= i < s.len() implies s[i].urgency > urgency by {
            if i < s.len() - 1 {
                assert(s[i].urgency >= s[s.len() - 1].urgency);
            }
        }
        s.len() as int
    } else {
        let shorter = s.drop_last();
        assert(is_descending(shorter)) by {
            assert forall|i: int, j: int| 0 <= i < j < shorter.len() implies shorter[i].urgency
                >= shorter[j].urgency by {
                assert(s[i].urgency >= s[j].urgency);
            }
        }
        let at = lemma_insertion_point_exists(shorter, urgency);
        assert forall|i: int| 0 <= i < at implies s[i].urgency > urgency by {
            assert(shorter[i].urgency > urgency);
        }
        assert forall|i: int| at <= i < s.len() implies s[i].urgency <= urgency by {
            if i < shorter.len() {
                assert(shorter[i].urgency <= urgency);
            }
        }
        at
    }
}

/// Every queue has a listing order, and [`stable_ordering`] names it.
pub proof fn lemma_stable_ordering_exists(input: Seq<NotificationView>)
    ensures
        is_stable_ordering(input, stable_ordering(input)),
    decreases input.len(),
{
    if input.len() == 0 {
        assert(is_stable_ordering(input, input));
    } else {
        let rest = input.drop_first();
        lemma_stable_ordering_exists(rest);
        let ordered = stable_ordering(rest);
        let at = lemma_insertion_point_exists(ordered, input[0].urgency);
        lemma_insert_earlier(rest, ordered, input[0], at);
        assert(input =~= seq![input[0]] + rest);
        assert(is_stable_ordering(input, ordered.insert(at, input[0])));
    }
}

/// Every notification is at least as urgent as the one that follows it.
pub open spec fn neighbours_descend(s: Seq<NotificationView>) -> bool {
    forall|i: int, j: int|
        #![trigger s[i], s[j]]
        0 <= i && j == i + 1 && j < s.len() ==> s[i].urgency >= s[j].urgency
}

/// To be descending it is enough, and needed, that every notification is at
/// least as urgent as the one that follows it.
pub proof fn lemma_descending_by_neighbours(s: Seq<NotificationView>)
    ensures
        is_descending(s) <==> neighbours_descend(s),
{
    if neighbours_descend(s) {
        assert forall|i: int, j: int| 0 <= i < j < s.len() implies s[i].urgency
            >= s[j].urgency by {
            lemma_neighbours_chain(s, i, j);
        }
    }
}

/// From neighbour to neighbour the urgency never rises, so it never rises
/// from `i` to `j`.
proof fn lemma_neighbours_chain(s: Seq<NotificationView>, i: int, j: int)
    requires
        neighbours_descend(s),
        0 <= i <= j < s.len(),
    ensures
        s[i].urgency >= s[j].urgency,
    decreases j - i,
{
    if i < j {
        lemma_neighbours_chain(s, i, j - 1);
        assert(s[j - 1].urgency >= s[j].urgency);
    }
}

/// A queue that is descending already is its own listing order.
pub proof fn lemma_descending_is_kept(input: Seq<NotificationView>)
    requires
        is_descending(input),
    ensures
        stable_ordering(input) == input,
{
    assert(is_stable_ordering(input, input));
    lemma_stable_ordering_unique(input, input, stable_ordering(input));
}

/// The listing holds the notifications of the queue, each as often as the
/// queue does, and nothing else.
pub proof fn lemma_stable_ordering_permutes(
    input: Seq<NotificationView>,
    output: Seq<NotificationView>,
)
    requires
        is_stable_ordering(input, output),
    ensures
        output.len() == input.len(),
        output.to_multiset() == input.to_multiset(),
    decreases input.len(),
{
    broadcast use vstd::seq_lib::to_multiset_len;

    if input.len() == 0 {
        lemma_stable_ordering_unique(input, output, input);
    } else {
        let first = input[0];
        let rest = input.drop_first();
        lemma_stable_ordering_exists(rest);
        let ordered = stable_ordering(rest);
        lemma_stable_ordering_permutes(rest, ordered);
        let at = lemma_insertion_point_exists(ordered, first.urgency);
        lemma_insert_earlier(rest, ordered, first, at);
        assert(input =~= seq![first] + rest);
        lemma_stable_ordering_unique(input, output, ordered.insert(at, first));
        vstd::seq_lib::to_multiset_insert(ordered, at, first);
        vstd::seq_lib::to_multiset_insert(rest, 0, first);
        assert(input =~= rest.insert(0, first));
    }
}

/// What is kept of a sequence by urgency stands in the sequence, in the same
/// order.
proof fn lemma_class_embeds(s: Seq<NotificationView>, urgency: u32, i: int, j: int) -> (at: (
    int,
    int,
))
    requires
        0 <= i < j < with_urgency(s, urgency).len(),
    ensures
        0 <= at.0 < at.1 < s.len(),
        s[at.0] == with_urgency(s, urgency)[i],
        s[at.1] == with_urgency(s, urgency)[j],
    decreases s.len(),
{
    reveal(Seq::filter);
    let shorter = s.drop_last();
    let kept = with_urgency(shorter, urgency);
    if j < kept.len() {
        assert(s.len() > 0);
        let at = lemma_class_embeds(shorter, urgency, i, j);
        at
    } else {
        assert(s.len() > 0);
        assert(with_urgency(s, urgency) == kept.push(s.last()));
        assert(kept.contains(kept[i]));
        shorter.lemma_filter_contains_rev(|n: NotificationView| n.urgency == urgency, kept[i]);
        let p = choose|p: int| 0 <= p < shorter.len() && shorter[p] == kept[i];
        (p, s.len() - 1)
    }
}

/// Two notifications of one urgency stand in what is kept by that urgency,
/// in the order in which they stand in the sequence.
proof fn lemma_class_keeps_order(s: Seq<NotificationView>, i: int, j: int) -> (at: (int, int))
    requires
        0 <= i < j < s.len(),
        s[i].urgency == s[j].urgency,
    ensures
        0 <= at.0 < at.1 < with_urgency(s, s[i].urgency).len(),
        with_urgency(s, s[i].urgency)[at.0] == s[i],
        with_urgency(s, s[i].urgency)[at.1] == s[j],
    decreases s.len(),
{
    broadcast use vstd::seq_lib::group_filter_ensures;

    reveal(Seq::filter);
    let urgency = s[i].urgency;
    let shorter = s.drop_last();
    let kept = with_urgency(shorter, urgency);
    if j < s.len() - 1 {
        if s.last().urgency == urgency {
            assert(with_urgency(s, urgency) == kept.push(s.last()));
        } else {
            assert(with_urgency(s, urgency) == kept);
        }
        let at = lemma_class_keeps_order(shorter, i, j);
        at
    } else {
        assert(with_urgency(s, urgency) == kept.push(s.last()));
        assert(shorter[i] == s[i]);
        assert(kept.contains(shorter[i]));
        let c = choose|c: int| 0 <= c < kept.len() && kept[c] == s[i];
        (c, kept.len() as int)
    }
}

/// Ties keep the fetch order: where one notification is listed before
/// another of the same urgency, it was fetched before it.
pub proof fn lemma_ties_keep_fetch_order(
    input: Seq<NotificationView>,
    output: Seq<NotificationView>,
    i: int,
    j: int,
) -> (fetched: (int, int))
    requires
        is_stable_ordering(input, output),
        0 <= i < j < output.len(),
        output[i].urgency == output[j].urgency,
    ensures
        0 <= fetched.0 < fetched.1 < input.len(),
        input[fetched.0] == output[i],
        input[fetched.1] == output[j],
{
    let urgency = output[i].urgency;
    let listed = lemma_class_keeps_order(output, i, j);
    assert(with_urgency(output, urgency) == with_urgency(input, urgency));
    lemma_class_embeds(input, urgency, listed.0, listed.1)
}

/// Every notification of the listing is one of the queue.
pub proof fn lemma_listed_was_fetched(
    input: Seq<NotificationView>,
    output: Seq<NotificationView>,
    i: int,
) -> (fetched: int)
    requires
        is_stable_ordering(input, output),
        0 <= i < output.len(),
    ensures
        0 <= fetched < input.len(),
        input[fetched] == output[i],
{
    broadcast use vstd::seq_lib::group_filter_ensures;

    let urgency = output[i].urgency;
    assert(with_urgency(output, urgency).contains(output[i]));
    assert(with_urgency(output, urgency) == with_urgency(input, urgency));
    input.lemma_filter_contains_rev(|n: NotificationView| n.urgency == urgency, output[i]);
    choose|k: int| 0 <= k < input.len() && input[k] == output[i]
}

/// Every notification of the queue is listed.
pub proof fn lemma_fetched_is_listed(
    input: Seq<NotificationView>,
    output: Seq<NotificationView>,
    k: int,
) -> (listed: int)
    requires
        is_stable_ordering(input, output),
        0 <= k < input.len(),
    ensures
        0 <= listed < output.len(),
        output[listed] == input[k],
{
    broadcast use vstd::seq_lib::group_filter_ensures;

    let urgency = input[k].urgency;
    assert(with_urgency(input, urgency).contains(input[k]));
    assert(with_urgency(output, urgency) == with_urgency(input, urgency));
    output.lemma_filter_contains_rev(|n: NotificationView| n.urgency == urgency, input[k]);
    choose|i: int| 0 <= i < output.len() && output[i] == input[k]
}

/// Where a notification of the given urgency, fetched before all of
/// `ordered`, is to stand: behind the more urgent ones and in front of the
/// rest.
fn insertion_point(ordered: &Vec<Notification>, urgency: u32) -> (at: usize)
    requires
        is_descending(views(ordered@)),
    ensures
        is_insertion_point(views(ordered@), urgency, at as int),
{
    let mut at: usize = 0;
    while at < ordered.len() && ordered[at].urgency > urgency
        invariant
            at <= ordered.len(),
            forall|i: int| 0 <= i < at ==> views(ordered@)[i].urgency > urgency,
        decreases ordered.len() - at,
    {
        at += 1;
    }
    proof {
        let listed = views(ordered@);
        assert forall|i: int| at <= i < listed.len() implies listed[i].urgency <= urgency by {
            assert(listed[at as int].urgency <= urgency);
            if at < i {
                assert(listed[at as int].urgency >= listed[i].urgency);
            }
        }
    }
    at
}

/// Sorts the queue for display: by urgency, highest first; notifications of
/// equal urgency keep the order in which they were fetched.
///
/// The records are moved, not copied: taken from the back of the queue one
/// by one, each is put in front of those that are not more urgent.
pub fn order(notifications: Vec<Notification>) -> (ordered: Vec<Notification>)
    ensures
        is_stable_ordering(views(notifications@), views(ordered@)),
        views(ordered@) == stable_ordering(views(notifications@)),
        ordered@.len() == notifications@.len(),
{
    let ghost input = notifications@;
    let mut pending = notifications;
    let mut ordered: Vec<Notification> = Vec::new();
    proof {
        assert(views(input.skip(input.len() as int)) =~= views(ordered@));
    }
    while pending.len() > 0
        invariant
            pending@.len() <= input.len(),
            pending@ == input.take(pending@.len() as int),
            is_stable_ordering(views(input.skip(pending@.len() as int)), views(ordered@)),
        decreases pending.len(),
    {
        let ghost left = pending@.len() as int;
        let n = pending.pop().unwrap();
        let at = insertion_point(&ordered, n.urgency);
        proof {
            lemma_insert_earlier(views(input.skip(left)), views(ordered@), n@, at as int);
            assert(n == input[left - 1]);
            assert(views(input.skip(left - 1)) =~= seq![n@] + views(input.skip(left)));
            assert(views(ordered@.insert(at as int, n)) =~= views(ordered@).insert(at as int, n@));
            assert(pending@ =~= input.take(left - 1));
        }
        ordered.insert(at, n);
    }
    proof {
        assert(input.skip(0) =~= input);
        lemma_stable_ordering_unique(
            views(input),
            views(ordered@),
            stable_ordering(views(input)),
        );
        lemma_stable_ordering_permutes(views(input), views(ordered@));
    }
    ordered
}

} // verus!
