use nephila::event_log::EventLogState;

fn log_of(n: usize) -> EventLogState {
    let mut log = EventLogState::new();
    for i in 0..n {
        log.push(format!("line {i}"));
    }
    log
}

#[test]
fn following_log_shows_the_newest_lines() {
    let log = log_of(10);
    assert_eq!(log.scroll_offset, None);
    assert_eq!(log.visible_range(4), (6, 10));
    assert_eq!(log.visible_range(20), (0, 10));
    assert_eq!(EventLogState::default().visible_range(3), (0, 0));
}

#[test]
fn scrolling_up_and_down() {
    let mut log = log_of(10);
    log.scroll_up(1);
    assert_eq!(log.scroll_offset, Some(9));
    log.scroll_up(20);
    assert_eq!(log.scroll_offset, Some(0));
    assert_eq!(log.visible_range(4), (0, 4));
    log.scroll_down(3);
    assert_eq!(log.scroll_offset, Some(3));
    log.scroll_down(7);
    assert_eq!(log.scroll_offset, None);
    log.scroll_down(1);
    assert_eq!(log.scroll_offset, None);
}

#[test]
fn top_and_bottom() {
    let mut log = log_of(5);
    log.scroll_to_top();
    assert_eq!(log.scroll_offset, Some(0));
    log.push("new".into());
    assert_eq!(log.scroll_offset, Some(0));
    assert_eq!(log.visible_range(2), (0, 2));
    log.scroll_to_bottom();
    assert_eq!(log.visible_range(2), (4, 6));
    log.scroll_down(usize::MAX);
    assert_eq!(log.scroll_offset, None);
}
