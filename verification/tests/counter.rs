use quill_ui::counter::Counter;

#[test]
fn counter_starts_at_zero() {
    assert_eq!(Counter::default().value, 0);
}

#[test]
fn counter_moves_by_one_per_click() {
    let mut c = Counter::default();
    c.increment();
    c.increment();
    assert_eq!(c.value, 2);
    c.decrement();
    assert_eq!(c.value, 1);
    c.decrement();
    c.decrement();
    assert_eq!(c.value, -1);
}
