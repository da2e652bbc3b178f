use dmenu_notify::{display_lines, menu_style, order, resolve, Notification};

fn note(id: u32, app_name: &str, summary: &str, body: &str, urgency: u32) -> Notification {
    Notification {
        id,
        app_name: app_name.to_string(),
        summary: summary.to_string(),
        body: body.to_string(),
        urgency,
    }
}

fn sample() -> Vec<Notification> {
    vec![
        note(10, "mail", "New message", "from Ada", 1),
        note(20, "chat", "Ping", "", 5),
        note(30, "backup", "Done", "42 files", 5),
    ]
}

#[test]
fn display_lines_renders_each_record_in_order() {
    let lines = display_lines(&sample());
    assert_eq!(
        lines,
        vec![
            "mail: New message - from Ada".to_string(),
            "chat: Ping - ".to_string(),
            "backup: Done - 42 files".to_string(),
        ]
    );
}

#[test]
fn display_lines_of_an_empty_list_is_empty() {
    let lines = display_lines(&Vec::new());
    assert!(lines.is_empty());
}

#[test]
fn display_lines_of_the_listing_starts_with_the_most_urgent() {
    let lines = display_lines(&order(sample()));
    assert_eq!(
        lines,
        vec![
            "chat: Ping - ".to_string(),
            "backup: Done - 42 files".to_string(),
            "mail: New message - from Ada".to_string(),
        ]
    );
}

#[test]
fn resolve_finds_the_record_shown_as_the_line() {
    let queue = sample();
    assert_eq!(resolve(&queue, &"backup: Done - 42 files".to_string()), Some(2));
    assert_eq!(resolve(&queue, &"mail: New message - from Ada".to_string()), Some(0));
    assert_eq!(resolve(&queue, &"chat: Ping - ".to_string()), Some(1));
}

#[test]
fn resolve_of_an_unknown_line_is_none() {
    let queue = sample();
    assert_eq!(resolve(&queue, &"chat: Pong - ".to_string()), None);
    assert_eq!(resolve(&queue, &"".to_string()), None);
    assert_eq!(resolve(&queue, &"chat: Ping -".to_string()), None);
    assert_eq!(resolve(&queue, &"chat: Ping - \n".to_string()), None);
}

#[test]
fn resolve_in_an_empty_queue_is_none() {
    assert_eq!(resolve(&Vec::new(), &"chat: Ping - ".to_string()), None);
    assert_eq!(resolve(&Vec::new(), &"".to_string()), None);
}

#[test]
fn resolve_takes_the_first_of_records_shown_alike() {
    let queue = vec![
        note(1, "mail", "Hi", "x", 0),
        note(2, "chat", "Ping", "", 0),
        note(3, "chat", "Ping", "", 9),
        note(4, "chat", "Ping", "", 0),
    ];
    assert_eq!(resolve(&queue, &"chat: Ping - ".to_string()), Some(1));
}

#[test]
fn resolve_matches_the_case_of_the_line() {
    let queue = sample();
    assert_eq!(resolve(&queue, &"Chat: Ping - ".to_string()), None);
}

#[test]
fn resolve_round_trips_every_record_of_a_queue_with_distinct_lines() {
    let queue = sample();
    let listing = order(sample());
    for listed in listing.iter() {
        let found = resolve(&queue, &listed.render());
        assert!(found.is_some());
        assert_eq!(queue[found.unwrap()].id, listed.id);
    }
}

#[test]
fn resolve_finds_a_line_that_only_differs_in_where_the_separator_falls() {
    let queue = vec![note(1, "a", "b - c", "d", 0), note(2, "a", "b", "c - d", 0)];
    assert_eq!(queue[0].render(), queue[1].render());
    assert_eq!(resolve(&queue, &"a: b - c - d".to_string()), Some(0));
}

#[test]
fn menu_style_is_the_fixed_preset() {
    let style = menu_style();
    assert!(style.case_insensitive);
    assert_eq!(style.font, "monospace:size=10");
    assert_eq!(style.background, "#3a3c4e");
    assert_eq!(style.foreground, "#e9e9f4");
    assert_eq!(style.selected_background, "#b45bcf");
    assert_eq!(style.selected_foreground, "#e9e9f4");
}
