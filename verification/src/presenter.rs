//! What the menu shows, and which notification a picked line stands for.

use crate::notification::{render_spec, views, Notification, NotificationView};
use crate::ordering::{
    is_stable_ordering, lemma_fetched_is_listed, lemma_listed_was_fetched,
    lemma_stable_ordering_permutes,
};
use vstd::prelude::*;

verus! {

/// Font of the menu.
pub const MENU_FONT: &'static str = "monospace:size=10";

/// Background colour of the lines that are not selected.
pub const MENU_BACKGROUND: &'static str = "#3a3c4e";

/// Text colour of the lines that are not selected.
pub const MENU_FOREGROUND: &'static str = "#e9e9f4";

/// Background colour of the selected line.
pub const MENU_SELECTED_BACKGROUND: &'static str = "#b45bcf";

/// Text colour of the selected line.
pub const MENU_SELECTED_FOREGROUND: &'static str = "#e9e9f4";

/// How the menu looks, and how it matches what the user types.
#[derive(Debug, PartialEq, Eq)]
pub struct MenuStyle {
    /// Whether typed text matches lines regardless of case.
    pub case_insensitive: bool,
    /// Font specification.
    pub font: &'static str,
    /// Background colour of the lines that are not selected.
    pub background: &'static str,
    /// Text colour of the lines that are not selected.
    pub foreground: &'static str,
    /// Background colour of the selected line.
    pub selected_background: &'static str,
    /// Text colour of the selected line.
    pub selected_foreground: &'static str,
}

/// The mathematical value of a [`MenuStyle`].
pub ghost struct MenuStyleView {
    pub case_insensitive: bool,
    pub font: Seq<char>,
    pub background: Seq<char>,
    pub foreground: Seq<char>,
    pub selected_background: Seq<char>,
    pub selected_foreground: Seq<char>,
}

impl View for MenuStyle {
    type V = MenuStyleView;

    open spec fn view(&self) -> MenuStyleView {
        MenuStyleView {
            case_insensitive: self.case_insensitive,
            font: self.font@,
            background: self.background@,
            foreground: self.foreground@,
            selected_background: self.selected_background@,
            selected_foreground: self.selected_foreground@,
        }
    }
}

/// The one style in which the menu is opened.
pub open spec fn menu_style_spec() -> MenuStyleView {
    MenuStyleView {
        case_insensitive: true,
        font: MENU_FONT@,
        background: MENU_BACKGROUND@,
        foreground: MENU_FOREGROUND@,
        selected_background: MENU_SELECTED_BACKGROUND@,
        selected_foreground: MENU_SELECTED_FOREGROUND@,
    }
}

/// The style in which the menu is opened: matching regardless of case, in
/// the fixed font and colours.
pub fn menu_style() -> (style: MenuStyle)
    ensures
        style@ == menu_style_spec(),
{
    MenuStyle {
        case_insensitive: true,
        font: MENU_FONT,
        background: MENU_BACKGROUND,
        foreground: MENU_FOREGROUND,
        selected_background: MENU_SELECTED_BACKGROUND,
        selected_foreground: MENU_SELECTED_FOREGROUND,
    }
}

/// The texts of a sequence of strings, element by element.
pub open spec fn texts(lines: Seq<String>) -> Seq<Seq<char>> {
    lines.map_values(|line: String| line@)
}

/// The display lines of a sequence of notifications, in the same order.
pub open spec fn render_all(s: Seq<NotificationView>) -> Seq<Seq<char>> {
    s.map_values(|n: NotificationView| render_spec(n))
}

/// Some notification of `queue` is shown as `line`.
pub open spec fn is_shown(queue: Seq<NotificationView>, line: Seq<char>) -> bool {
    exists|i: int| 0 <= i < queue.len() && #[trigger] render_spec(queue[i]) == line
}

/// The notification at `i` is shown as `line`, and none before it is.
pub open spec fn is_first_shown_as(queue: Seq<NotificationView>, line: Seq<char>, i: int) -> bool {
    &&& 0 <= i < queue.len()
    &&& render_spec(queue[i]) == line
    &&& forall|j: int| 0 <= j < i ==> #[trigger] render_spec(queue[j]) != line
}

/// The identifier that a picked line stands for: that of the first
/// notification of `queue` shown as `line`, if there is one.
pub open spec fn resolved_id(queue: Seq<NotificationView>, line: Seq<char>) -> Option<u32> {
    if exists|i: int| is_first_shown_as(queue, line, i) {
        Some(queue[choose|i: int| is_first_shown_as(queue, line, i)].id)
    } else {
        None
    }
}

/// Renders every notification of the list, keeping the order.
pub fn display_lines(ordered: &Vec<Notification>) -> (lines: Vec<String>)
    ensures
        texts(lines@) == render_all(views(ordered@)),
{
    let mut lines: Vec<String> = Vec::new();
    let mut i: usize = 0;
    while i < ordered.len()
        invariant
            i <= ordered.len(),
            lines@.len() == i,
            forall|k: int| 0 <= k < i ==> (#[trigger] lines@[k])@ == render_spec(ordered@[k]@),
        decreases ordered.len() - i,
    {
        lines.push(ordered[i].render());
        i += 1;
    }
    proof {
        assert(texts(lines@) =~= render_all(views(ordered@)));
    }
    lines
}

/// Maps a picked line back to a notification: the index of the first
/// notification of `queue` that is shown as `line`, or `None` where no
/// notification is shown so.
pub fn resolve(queue: &Vec<Notification>, line: &String) -> (found: Option<usize>)
    ensures
        match found {
            Some(i) => is_first_shown_as(views(queue@), line@, i as int),
            None => !is_shown(views(queue@), line@),
        },
        found.is_some() == is_shown(views(queue@), line@),
        resolved_id(views(queue@), line@) == match found {
            Some(i) => Some(queue@[i as int].id),
            None => None,
        },
{
    let mut i: usize = 0;
    while i < queue.len()
        invariant
            i <= queue.len(),
            forall|j: int| 0 <= j < i ==> #[trigger] render_spec(views(queue@)[j]) != line@,
        decreases queue.len() - i,
    {
        let shown = queue[i].render();
        if shown == *line {
            proof {
                lemma_first_shown_is_resolved(views(queue@), line@, i as int);
            }
            return Some(i);
        }
        i += 1;
    }
    proof {
        lemma_not_shown_is_unresolved(views(queue@), line@);
    }
    None
}

/// The first notification shown as `line` is the one that `line` resolves to.
pub proof fn lemma_first_shown_is_resolved(queue: Seq<NotificationView>, line: Seq<char>, i: int)
    requires
        is_first_shown_as(queue, line, i),
    ensures
        is_shown(queue, line),
        resolved_id(queue, line) == Some(queue[i].id),
{
    let first = choose|k: int| is_first_shown_as(queue, line, k);
    assert(is_first_shown_as(queue, line, first));
    if first < i {
        assert(render_spec(queue[first]) != line);
    }
    if i < first {
        assert(render_spec(queue[i]) != line);
    }
}

/// A line under which nothing is shown resolves to nothing.
pub proof fn lemma_not_shown_is_unresolved(queue: Seq<NotificationView>, line: Seq<char>)
    requires
        !is_shown(queue, line),
    ensures
        resolved_id(queue, line) is None,
{
    if exists|i: int| is_first_shown_as(queue, line, i) {
        let first = choose|k: int| is_first_shown_as(queue, line, k);
        assert(render_spec(queue[first]) == line);
    }
}

/// Under whatever line a notification is shown, some notification is the
/// first to be shown so, and it stands no later.
pub proof fn lemma_first_shown_exists(queue: Seq<NotificationView>, i: int) -> (first: int)
    requires
        0 <= i < queue.len(),
    ensures
        is_first_shown_as(queue, render_spec(queue[i]), first),
        first <= i,
    decreases i,
{
    let line = render_spec(queue[i]);
    if exists|j: int| 0 <= j < i && #[trigger] render_spec(queue[j]) == line {
        let j = choose|j: int| 0 <= j < i && #[trigger] render_spec(queue[j]) == line;
        lemma_first_shown_exists(queue, j)
    } else {
        i
    }
}

/// What a line resolves to is the identifier of a notification of the
/// queue: of the first one that is shown as the line.
pub proof fn lemma_resolved_is_fetched(queue: Seq<NotificationView>, line: Seq<char>) -> (first:
    int)
    requires
        resolved_id(queue, line) is Some,
    ensures
        is_first_shown_as(queue, line, first),
        resolved_id(queue, line) == Some(queue[first].id),
{
    choose|i: int| is_first_shown_as(queue, line, i)
}

/// The menu offers the queue: it has as many lines as there are
/// notifications, and every notification of the queue has its line there.
pub proof fn lemma_menu_offers_every_notification(
    queue: Seq<NotificationView>,
    ordered: Seq<NotificationView>,
    k: int,
) -> (listed: int)
    requires
        is_stable_ordering(queue, ordered),
        0 <= k < queue.len(),
    ensures
        render_all(ordered).len() == queue.len(),
        0 <= listed < render_all(ordered).len(),
        render_all(ordered)[listed] == render_spec(queue[k]),
{
    lemma_stable_ordering_permutes(queue, ordered);
    lemma_fetched_is_listed(queue, ordered, k)
}

/// Every line of the menu resolves: the line of a listed notification
/// stands for a notification of the queue that is shown as that line, the
/// first one fetched.
pub proof fn lemma_menu_line_resolves(
    queue: Seq<NotificationView>,
    ordered: Seq<NotificationView>,
    i: int,
) -> (first: int)
    requires
        is_stable_ordering(queue, ordered),
        0 <= i < ordered.len(),
    ensures
        is_first_shown_as(queue, render_spec(ordered[i]), first),
        resolved_id(queue, render_spec(ordered[i])) == Some(queue[first].id),
{
    let fetched = lemma_listed_was_fetched(queue, ordered, i);
    let first = lemma_first_shown_exists(queue, fetched);
    lemma_first_shown_is_resolved(queue, render_spec(ordered[i]), first);
    first
}

/// Selection round trip: picking the line of a listed notification resolves
/// to that notification's identifier, unless the first notification fetched
/// that is shown alike carries another identifier.
pub proof fn lemma_selection_round_trip(
    queue: Seq<NotificationView>,
    ordered: Seq<NotificationView>,
    i: int,
)
    requires
        is_stable_ordering(queue, ordered),
        0 <= i < ordered.len(),
        forall|j: int|
            is_first_shown_as(queue, render_spec(ordered[i]), j) ==> queue[j].id == ordered[i].id,
    ensures
        resolved_id(queue, render_spec(ordered[i])) == Some(ordered[i].id),
{
    lemma_menu_line_resolves(queue, ordered, i);
}

/// Where the first notification fetched that is shown like a listed one
/// carries another identifier, picking the line does not resolve to the
/// listed one: the round trip fails there, and only there.
pub proof fn lemma_shadowed_is_not_resolved(
    queue: Seq<NotificationView>,
    ordered: Seq<NotificationView>,
    i: int,
    first: int,
)
    requires
        is_stable_ordering(queue, ordered),
        0 <= i < ordered.len(),
        is_first_shown_as(queue, render_spec(ordered[i]), first),
        queue[first].id != ordered[i].id,
    ensures
        resolved_id(queue, render_spec(ordered[i])) == Some(queue[first].id),
        resolved_id(queue, render_spec(ordered[i])) != Some(ordered[i].id),
{
    lemma_first_shown_is_resolved(queue, render_spec(ordered[i]), first);
}

/// A notification is found again by its line as soon as every notification
/// fetched before it and shown alike carries the same identifier; so it is
/// in a queue whose lines are all different.
pub proof fn lemma_unshadowed_round_trip(queue: Seq<NotificationView>, i: int)
    requires
        0 <= i < queue.len(),
        forall|j: int|
            0 <= j < i && #[trigger] render_spec(queue[j]) == render_spec(queue[i])
                ==> queue[j].id == queue[i].id,
    ensures
        resolved_id(queue, render_spec(queue[i])) == Some(queue[i].id),
{
    let first = lemma_first_shown_exists(queue, i);
    lemma_first_shown_is_resolved(queue, render_spec(queue[i]), first);
    if first < i {
        assert(render_spec(queue[first]) == render_spec(queue[i]));
    }
}

} // verus!
