use dmenu_notify::Notification;

fn note(id: u32, app_name: &str, summary: &str, body: &str, urgency: u32) -> Notification {
    Notification {
        id,
        app_name: app_name.to_string(),
        summary: summary.to_string(),
        body: body.to_string(),
        urgency,
    }
}

#[test]
fn render_joins_name_summary_and_body() {
    let n = note(7, "mail", "New message", "from Ada", 2);
    assert_eq!(n.render(), "mail: New message - from Ada");
}

#[test]
fn render_keeps_separators_when_body_is_empty() {
    let n = note(1, "clock", "Alarm", "", 0);
    assert_eq!(n.render(), "clock: Alarm - ");
}

#[test]
fn render_of_all_empty_texts_is_the_two_separators() {
    let n = note(0, "", "", "", 0);
    assert_eq!(n.render(), ":  - ");
}

#[test]
fn render_keeps_text_outside_ascii() {
    let n = note(3, "chat", "Grüße", "héllo – wörld ✓", 1);
    assert_eq!(n.render(), "chat: Grüße - héllo – wörld ✓");
}

#[test]
fn render_keeps_separators_that_occur_in_the_texts() {
    let n = note(3, "a: b", "c - d", "e: f - g", 1);
    assert_eq!(n.render(), "a: b: c - d - e: f - g");
}

#[test]
fn render_twice_gives_the_same_line() {
    let n = note(9, "backup", "Done", "42 files", 4);
    let first = n.render();
    let second = n.render();
    assert_eq!(first, second);
    assert_eq!(n, note(9, "backup", "Done", "42 files", 4));
}

#[test]
fn render_does_not_depend_on_urgency() {
    let low = note(5, "backup", "Done", "42 files", 0);
    let high = note(5, "backup", "Done", "42 files", u32::MAX);
    assert_eq!(low.render(), high.render());
}

#[test]
fn render_does_not_show_the_identifier() {
    let a = note(1, "backup", "Done", "42 files", 3);
    let b = note(2, "backup", "Done", "42 files", 3);
    assert_eq!(a.render(), b.render());
    assert_eq!(a.render(), "backup: Done - 42 files");
}

#[test]
fn clone_keeps_every_field() {
    let n = note(11, "mail", "Hi", "there", 6);
    let copy = n.clone();
    assert_eq!(copy, n);
    assert_eq!(copy.id, 11);
    assert_eq!(copy.app_name, "mail");
    assert_eq!(copy.summary, "Hi");
    assert_eq!(copy.body, "there");
    assert_eq!(copy.urgency, 6);
}
