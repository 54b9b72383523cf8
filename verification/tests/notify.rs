use work_life_buddy::notify::{info_notice, warning_notice, Urgency};

#[test]
fn warning_notice_is_critical_when_urgent() {
    let n = warning_notice("Save your work!", 300, true);
    assert_eq!(n.summary, "Work-Life Buddy");
    assert_eq!(n.body, "Save your work!");
    assert_eq!(n.timeout_ms, 300_000);
    assert_eq!(n.urgency, Some(Urgency::Critical));
    assert_eq!(warning_notice("x", 10, false).urgency, Some(Urgency::Normal));
}

#[test]
fn info_notice_leaves_urgency_unset() {
    let n = info_notice("Work-Life Buddy", "Logging you out.", 5);
    assert_eq!(n.summary, "Work-Life Buddy");
    assert_eq!(n.body, "Logging you out.");
    assert_eq!(n.timeout_ms, 5000);
    assert_eq!(n.urgency, None);
}

#[test]
fn timeout_saturates() {
    assert_eq!(info_notice("a", "b", u32::MAX).timeout_ms, u32::MAX);
    assert_eq!(info_notice("a", "b", 4_294_967).timeout_ms, 4_294_967_000);
    assert_eq!(info_notice("a", "b", 4_294_968).timeout_ms, u32::MAX);
}
