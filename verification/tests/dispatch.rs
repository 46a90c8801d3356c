use ibus_gonhanh::action::ImeAction;
use ibus_gonhanh::action::ResultRecord;
use ibus_gonhanh::dispatch::Emission;
use ibus_gonhanh::dispatch::dispatch_action;
use ibus_gonhanh::dispatch::emission_plan;
use ibus_gonhanh::dispatch::settle_engine_reply;

fn assert_is_erase(e: &Emission) {
    match e {
        Emission::ForwardKey { key_identifier, scan_code, modifier_bits } => {
            assert_eq!(*key_identifier, 0xFF08);
            assert_eq!(*scan_code, 0);
            assert_eq!(*modifier_bits, 0);
        }
        other => panic!("expected an erase event, got {:?}", other),
    }
}

#[test]
fn test_two_erases_then_one_commit_in_order() {
    // backspace_count = 2 with text "ă": exactly two erase events, then
    // exactly one commit carrying the text, in that order.
    let plan = emission_plan(2, String::from("ă"));
    assert_eq!(plan.len(), 3);
    assert_is_erase(&plan[0]);
    assert_is_erase(&plan[1]);
    match &plan[2] {
        Emission::CommitText { text } => assert_eq!(text, "ă"),
        other => panic!("expected a commit, got {:?}", other),
    }
}

#[test]
fn test_plan_without_erases_is_a_single_commit() {
    let plan = emission_plan(0, String::from("xin chào"));
    assert_eq!(plan.len(), 1);
    match &plan[0] {
        Emission::CommitText { text } => assert_eq!(text, "xin chào"),
        other => panic!("expected a commit, got {:?}", other),
    }
}

#[test]
fn test_largest_backspace_count_still_ends_with_the_commit() {
    let plan = emission_plan(255, String::new());
    assert_eq!(plan.len(), 256);
    for e in &plan[..255] {
        assert_is_erase(e);
    }
    match &plan[255] {
        Emission::CommitText { text } => assert_eq!(text, ""),
        other => panic!("expected a commit, got {:?}", other),
    }
}

#[test]
fn test_nop_action_is_not_consumed_and_emits_nothing() {
    let (consumed, plan) = dispatch_action(ImeAction::Nop);
    assert!(!consumed);
    assert!(plan.is_empty());
}

#[test]
fn test_settling_a_send_record_consumes_releases_and_plans() {
    let mut chars = [0u32; 32];
    chars[0] = 0x0103; // 'ă'
    let rec = ResultRecord { action: 1, backspace: 2, chars, count: 1 };
    let outcome = settle_engine_reply(Some(&rec));
    assert!(outcome.consumed);
    assert!(outcome.must_release);
    assert_eq!(outcome.emissions.len(), 3);
    assert_is_erase(&outcome.emissions[0]);
    assert_is_erase(&outcome.emissions[1]);
    match &outcome.emissions[2] {
        Emission::CommitText { text } => assert_eq!(text, "ă"),
        other => panic!("expected a commit, got {:?}", other),
    }
}

#[test]
fn test_settling_a_null_reply_passes_through_without_release() {
    let outcome = settle_engine_reply(None);
    assert!(!outcome.consumed);
    assert!(!outcome.must_release);
    assert!(outcome.emissions.is_empty());
}

#[test]
fn test_settling_a_nop_record_still_releases_it() {
    let rec = ResultRecord { action: 0, backspace: 9, chars: [0u32; 32], count: 0 };
    let outcome = settle_engine_reply(Some(&rec));
    assert!(!outcome.consumed);
    assert!(outcome.must_release);
    assert!(outcome.emissions.is_empty());
}

#[test]
fn test_send_action_is_consumed_and_emits_its_plan() {
    let action = ImeAction::Send { backspace: 1, text: String::from("đ") };
    let (consumed, plan) = dispatch_action(action);
    assert!(consumed);
    assert_eq!(plan.len(), 2);
    assert_is_erase(&plan[0]);
    match &plan[1] {
        Emission::CommitText { text } => assert_eq!(text, "đ"),
        other => panic!("expected a commit, got {:?}", other),
    }
}
