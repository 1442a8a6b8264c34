use editor_status::pane_status::EditorPaneStatus;

#[test]
fn new_overlay_notifies_nobody() {
    let overlay = EditorPaneStatus::new(7);
    let notify = overlay.update_active_pane_item();
    assert!(notify.is_empty());
}

#[test]
fn added_item_is_pointed_at_the_current_pane() {
    let mut overlay = EditorPaneStatus::new(7);
    let pane = overlay.add_item(1);
    assert_eq!(pane, 7);
}

#[test]
fn pane_switch_notifies_every_item_in_order() {
    let mut overlay = EditorPaneStatus::new(7);
    overlay.add_item(1);
    overlay.add_item(2);
    overlay.add_item(3);
    let notify = overlay.set_active_pane(9);
    assert_eq!(notify, vec![1, 2, 3]);
    assert_eq!(overlay.add_item(4), 9);
}

#[test]
fn item_change_notifies_every_item_in_order() {
    let mut overlay = EditorPaneStatus::new(5);
    overlay.add_item(10);
    overlay.add_item(20);
    let notify = overlay.update_active_pane_item();
    assert_eq!(notify, vec![10, 20]);
}
