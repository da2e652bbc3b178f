use dmenu_notify::{order, Notification};

fn note(id: u32, urgency: u32) -> Notification {
    Notification {
        id,
        app_name: format!("app{}", id),
        summary: format!("summary {}", id),
        body: format!("body {}", id),
        urgency,
    }
}

fn ids(list: &[Notification]) -> Vec<u32> {
    list.iter().map(|n| n.id).collect()
}

fn queue(pairs: &[(u32, u32)]) -> Vec<Notification> {
    pairs.iter().map(|&(id, urgency)| note(id, urgency)).collect()
}

#[test]
fn order_lists_the_urgent_first_and_keeps_ties_as_fetched() {
    let ordered = order(queue(&[(1, 1), (2, 5), (3, 5)]));
    assert_eq!(ids(&ordered), vec![2, 3, 1]);
}

#[test]
fn order_of_nothing_is_nothing() {
    let ordered = order(Vec::new());
    assert!(ordered.is_empty());
}

#[test]
fn order_of_one_is_that_one() {
    let ordered = order(queue(&[(4, 2)]));
    assert_eq!(ordered, vec![note(4, 2)]);
}

#[test]
fn order_keeps_a_descending_queue() {
    let ordered = order(queue(&[(1, 9), (2, 7), (3, 7), (4, 0)]));
    assert_eq!(ids(&ordered), vec![1, 2, 3, 4]);
}

#[test]
fn order_reverses_an_ascending_queue() {
    let ordered = order(queue(&[(1, 0), (2, 1), (3, 2), (4, 3)]));
    assert_eq!(ids(&ordered), vec![4, 3, 2, 1]);
}

#[test]
fn order_keeps_the_fetch_order_when_all_are_equally_urgent() {
    let ordered = order(queue(&[(5, 3), (1, 3), (4, 3), (2, 3), (3, 3)]));
    assert_eq!(ids(&ordered), vec![5, 1, 4, 2, 3]);
}

#[test]
fn order_keeps_the_fetch_order_within_each_urgency() {
    let ordered = order(queue(&[
        (1, 2),
        (2, 0),
        (3, 2),
        (4, 1),
        (5, 0),
        (6, 2),
        (7, 1),
        (8, 0),
    ]));
    assert_eq!(ids(&ordered), vec![1, 3, 6, 4, 7, 2, 5, 8]);
}

#[test]
fn order_handles_the_extreme_urgencies() {
    let ordered = order(queue(&[(1, 0), (2, u32::MAX), (3, 0), (4, u32::MAX), (5, 1)]));
    assert_eq!(ids(&ordered), vec![2, 4, 5, 1, 3]);
}

#[test]
fn order_moves_whole_records() {
    let ordered = order(vec![
        Notification {
            id: 1,
            app_name: "mail".to_string(),
            summary: "one".to_string(),
            body: "".to_string(),
            urgency: 1,
        },
        Notification {
            id: 2,
            app_name: "chat".to_string(),
            summary: "two".to_string(),
            body: "hello".to_string(),
            urgency: 2,
        },
    ]);
    assert_eq!(
        ordered,
        vec![
            Notification {
                id: 2,
                app_name: "chat".to_string(),
                summary: "two".to_string(),
                body: "hello".to_string(),
                urgency: 2,
            },
            Notification {
                id: 1,
                app_name: "mail".to_string(),
                summary: "one".to_string(),
                body: "".to_string(),
                urgency: 1,
            },
        ]
    );
}

#[test]
fn order_never_lists_a_notification_before_a_more_urgent_one() {
    let ordered = order(queue(&[(1, 3), (2, 8), (3, 1), (4, 8), (5, 0), (6, 3), (7, 9)]));
    for pair in ordered.windows(2) {
        assert!(pair[0].urgency >= pair[1].urgency);
    }
}

#[test]
fn order_keeps_every_notification_once() {
    let ordered = order(queue(&[(1, 3), (2, 8), (3, 1), (4, 8), (5, 0), (6, 3), (7, 9)]));
    let mut seen = ids(&ordered);
    seen.sort();
    assert_eq!(seen, vec![1, 2, 3, 4, 5, 6, 7]);
}

#[test]
fn order_keeps_notifications_that_are_equal_in_every_field() {
    let ordered = order(queue(&[(1, 1), (1, 1), (2, 4), (1, 1)]));
    assert_eq!(ids(&ordered), vec![2, 1, 1, 1]);
}

#[test]
fn order_agrees_with_a_stable_sort_on_a_longer_queue() {
    let mut pairs: Vec<(u32, u32)> = Vec::new();
    let mut seed: u32 = 12345;
    for id in 0..200u32 {
        seed = seed.wrapping_mul(1103515245).wrapping_add(12345);
        pairs.push((id, (seed >> 16) % 7));
    }
    let mut expected = queue(&pairs);
    expected.sort_by(|a, b| b.urgency.cmp(&a.urgency));
    let ordered = order(queue(&pairs));
    assert_eq!(ordered, expected);
}

#[test]
fn order_applied_twice_changes_nothing_more() {
    let once = order(queue(&[(1, 3), (2, 8), (3, 1), (4, 8), (5, 0)]));
    let expected = ids(&once);
    let twice = order(once);
    assert_eq!(ids(&twice), expected);
}
