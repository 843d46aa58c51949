use digit_code::container_id::generate_container_id;
use digit_code::container_id::sanitize_container_id;
use digit_code::controller::enter_hit;
use digit_code::controller::handle_input;
use digit_code::controller::handle_keydown;
use digit_code::controller::reconcile_flags;
use digit_code::controller::set_value;
use digit_code::controller::KeyAction;
use digit_code::focus_offset::FocusOffset;
use digit_code::focus_offset::FocusResult;
use digit_code::ControlFlags;
use digit_code::DigitCode;
use digit_code::DigitCodeProfile;
use digit_code::TotpCodeProfile;
use std::sync::Arc;

fn numeric_buffer() -> DigitCode<TotpCodeProfile<6>> {
    DigitCode::new(Arc::new(TotpCodeProfile::new()))
}

fn filled_buffer() -> DigitCode<TotpCodeProfile<6>> {
    let mut dc = numeric_buffer();
    for (i, d) in ["1", "2", "3", "4", "5", "6"].iter().enumerate() {
        assert_eq!(dc.set(i, Some(d.to_string())), Some(()));
    }
    dc
}

#[test]
fn step_next_interior() {
    for i in 0..5 {
        assert_eq!(FocusOffset::Next.process(i, 5), FocusResult::Moved(i + 1));
    }
}

#[test]
fn step_previous_interior() {
    for i in 1..6 {
        assert_eq!(FocusOffset::Previous.process(i, 5), FocusResult::Moved(i - 1));
    }
}

#[test]
fn step_next_at_last_is_too_big() {
    assert_eq!(FocusOffset::Next.process(5, 5), FocusResult::TooBig);
    assert_eq!(FocusOffset::Next.process(0, 0), FocusResult::TooBig);
}

#[test]
fn step_previous_at_first_is_too_low() {
    assert_eq!(FocusOffset::Previous.process(0, 5), FocusResult::TooLow);
    assert_eq!(FocusOffset::Previous.process(0, 0), FocusResult::TooLow);
}

#[test]
fn fresh_buffer_is_empty_and_invalid() {
    let dc = numeric_buffer();
    assert_eq!(dc.len(), 6);
    for i in 0..6 {
        assert_eq!(dc.get(i), None);
    }
    assert!(!dc.is_valid());
    assert_eq!(dc.joined(), None);
}

#[test]
fn filled_buffer_is_valid_and_joins() {
    let dc = filled_buffer();
    assert!(dc.is_valid());
    assert_eq!(dc.joined(), Some("123456".to_string()));
}

#[test]
fn buffer_with_gap_is_invalid_and_joins_to_nothing() {
    let mut dc = filled_buffer();
    assert_eq!(dc.set(3, None), Some(()));
    assert!(!dc.is_valid());
    assert_eq!(dc.joined(), None);
}

#[test]
fn set_rejects_invalid_character_and_keeps_cell() {
    let mut dc = numeric_buffer();
    assert_eq!(dc.set(0, Some("1".to_string())), Some(()));
    assert_eq!(dc.set(0, Some("a".to_string())), None);
    assert_eq!(dc.get(0), Some("1".to_string()));
}

#[test]
fn set_rejects_multi_grapheme_and_empty_values() {
    let mut dc = numeric_buffer();
    assert_eq!(dc.set(0, Some("12".to_string())), None);
    assert_eq!(dc.set(0, Some(String::new())), None);
    assert_eq!(dc.get(0), None);
}

#[test]
fn set_rejects_out_of_bounds_index() {
    let mut dc = numeric_buffer();
    assert_eq!(dc.set(6, Some("1".to_string())), None);
    assert_eq!(dc.set(usize::MAX, None), None);
}

#[test]
fn get_out_of_bounds_is_none() {
    let dc = filled_buffer();
    assert_eq!(dc.get(6), None);
    assert_eq!(dc.get(1000), None);
}

#[test]
fn clear_blanks_every_cell() {
    let mut dc = filled_buffer();
    dc.clear();
    for i in 0..6 {
        assert_eq!(dc.get(i), None);
    }
    assert!(!dc.is_valid());
}

#[test]
fn as_empty_leaves_the_buffer_it_copies_alone() {
    let dc = filled_buffer();
    let empty = dc.as_empty();
    for i in 0..6 {
        assert_eq!(empty.get(i), None);
        assert!(dc.get(i).is_some());
    }
}

#[test]
fn with_set_copies_and_writes() {
    let dc = numeric_buffer();
    let dc2 = dc.with_set(2, Some("7".to_string()));
    assert_eq!(dc.get(2), None);
    assert_eq!(dc2.get(2), Some("7".to_string()));
    let dc3 = dc.with_set(2, Some("x".to_string()));
    assert_eq!(dc3.get(2), None);
}

#[test]
fn iter_and_iter_some_list_cells_in_order() {
    let mut dc = numeric_buffer();
    assert_eq!(dc.set(1, Some("4".to_string())), Some(()));
    assert_eq!(dc.set(4, Some("2".to_string())), Some(()));
    let all = dc.iter();
    assert_eq!(all.len(), 6);
    assert_eq!(all[1], Some("4".to_string()));
    assert_eq!(all[4], Some("2".to_string()));
    assert_eq!(all[0], None);
    assert_eq!(dc.iter_some(), vec!["4".to_string(), "2".to_string()]);
}

#[test]
fn profile_handle_agrees_on_length() {
    let dc = numeric_buffer();
    let p = dc.profile();
    assert_eq!(p.len(), 6);
}

#[test]
fn totp_profile_accepts_digits_only() {
    let p: TotpCodeProfile<6> = TotpCodeProfile::new();
    for d in ["0", "5", "9"] {
        assert!(p.is_valid_char(d));
    }
    for bad in ["a", "", " ", "12", "-", "é", "e\u{301}"] {
        assert!(!p.is_valid_char(bad));
    }
}

#[test]
fn totp_profile_input_mode_is_numeric() {
    let p: TotpCodeProfile<6> = TotpCodeProfile::new();
    assert_eq!(p.input_mode(0), "numeric");
}

#[test]
fn char_code_validation_requires_exact_length() {
    let p: TotpCodeProfile<6> = TotpCodeProfile::new();
    let six: Vec<String> = ["1", "2", "3", "4", "5", "6"].iter().map(|s| s.to_string()).collect();
    let five: Vec<String> = six[..5].to_vec();
    let mut seven = six.clone();
    seven.push("7".to_string());
    assert!(p.is_char_code_valid(&six));
    assert!(!p.is_char_code_valid(&five));
    assert!(!p.is_char_code_valid(&seven));
    let mut tainted = six.clone();
    tainted[2] = "x".to_string();
    assert!(!p.is_char_code_valid(&tainted));
}

#[test]
fn str_code_validation_splits_graphemes() {
    let p: TotpCodeProfile<6> = TotpCodeProfile::new();
    assert!(p.is_str_code_valid("123456"));
    assert!(!p.is_str_code_valid("12345"));
    assert!(!p.is_str_code_valid("1234567"));
    assert!(!p.is_str_code_valid("12a456"));
    assert!(!p.is_str_code_valid(""));
}

#[test]
fn valid_char_code_joins_exactly_the_valid_codes() {
    let p: TotpCodeProfile<6> = TotpCodeProfile::new();
    let six: Vec<String> = ["9", "8", "7", "6", "5", "4"].iter().map(|s| s.to_string()).collect();
    assert_eq!(p.valid_char_code(&six), Some("987654".to_string()));
    let five: Vec<String> = six[..5].to_vec();
    assert_eq!(p.valid_char_code(&five), None);
}

#[test]
fn entering_code_submits_once_at_the_last_cell() {
    let mut dc = numeric_buffer();
    for (i, d) in ["1", "2", "3", "4", "5"].iter().enumerate() {
        assert_eq!(set_value(&mut dc, i, Some(d.to_string())), None);
    }
    assert_eq!(set_value(&mut dc, 5, Some("6".to_string())), Some("123456".to_string()));
}

#[test]
fn last_cell_write_without_full_buffer_does_not_submit() {
    let mut dc = numeric_buffer();
    assert_eq!(set_value(&mut dc, 5, Some("6".to_string())), None);
    assert_eq!(dc.get(5), Some("6".to_string()));
}

#[test]
fn invalid_write_changes_nothing_and_never_submits() {
    let mut dc = filled_buffer();
    assert_eq!(set_value(&mut dc, 5, Some("x".to_string())), None);
    assert_eq!(dc.get(5), Some("6".to_string()));
}

#[test]
fn invalid_input_keeps_cell_empty_and_focus_still() {
    let p: TotpCodeProfile<6> = TotpCodeProfile::new();
    let (store, advance) = handle_input(&p, "a".to_string());
    assert_eq!(store, None);
    assert!(!advance);
    let mut dc = numeric_buffer();
    let _ = set_value(&mut dc, 0, store);
    assert_eq!(dc.get(0), None);
}

#[test]
fn valid_input_is_stored_and_focus_advances() {
    let p: TotpCodeProfile<6> = TotpCodeProfile::new();
    let (store, advance) = handle_input(&p, "7".to_string());
    assert_eq!(store, Some("7".to_string()));
    assert!(advance);
}

#[test]
fn enter_submits_complete_code_unless_disabled() {
    let dc = filled_buffer();
    assert_eq!(enter_hit(&dc, false), Some("123456".to_string()));
    assert_eq!(enter_hit(&dc, true), None);
    let empty = dc.as_empty();
    assert_eq!(enter_hit(&empty, false), None);
}

#[test]
fn keydown_decision_table() {
    let p: TotpCodeProfile<6> = TotpCodeProfile::new();
    assert_eq!(handle_keydown(&p, "ArrowLeft"), KeyAction::FocusPrevious);
    assert_eq!(handle_keydown(&p, "ArrowRight"), KeyAction::FocusNext);
    assert_eq!(handle_keydown(&p, "Enter"), KeyAction::Submit);
    assert_eq!(handle_keydown(&p, "Backspace"), KeyAction::EraseAndFocusPrevious);
    assert_eq!(handle_keydown(&p, "5"), KeyAction::PrepareOverwrite);
    assert_eq!(handle_keydown(&p, "a"), KeyAction::Ignore);
    assert_eq!(handle_keydown(&p, "Shift"), KeyAction::Ignore);
}

#[test]
fn clear_flag_reconciles_to_blank_buffer_and_reset_flags() {
    let dc = filled_buffer();
    let flags = ControlFlags::default().change().clear().apply();
    let out = reconcile_flags(&flags, &dc);
    assert!(out.focus_move.is_none());
    let cleared = out.cleared_code.expect("clear request must yield a blanked buffer");
    for i in 0..6 {
        assert_eq!(cleared.get(i), None);
    }
    let new_flags = out.new_flags.expect("consumed flags must be persisted");
    assert_eq!(new_flags.focus, None);
    assert_eq!(new_flags.clear, None);
}

#[test]
fn focus_and_clear_flags_reconcile_together() {
    let dc = filled_buffer();
    let flags = ControlFlags::default().change().focus_first().clear().apply();
    assert_eq!(flags.focus, Some(0));
    assert_eq!(flags.clear, Some(()));
    let out = reconcile_flags(&flags, &dc);
    assert!(matches!(out.focus_move, Some((FocusOffset::Previous, 1))));
    let cleared = out.cleared_code.expect("clear request must yield a blanked buffer");
    for i in 0..6 {
        assert_eq!(cleared.get(i), None);
    }
    assert!(out.new_flags.is_some());
}

#[test]
fn focus_flag_on_inner_cell_steps_forward_from_the_left() {
    let dc = numeric_buffer();
    let flags = ControlFlags { focus: Some(3), clear: None };
    let out = reconcile_flags(&flags, &dc);
    assert!(matches!(out.focus_move, Some((FocusOffset::Next, 2))));
    assert!(out.cleared_code.is_none());
    assert!(out.new_flags.is_some());
}

#[test]
fn untouched_flags_reconcile_to_no_actions() {
    let dc = numeric_buffer();
    let flags = ControlFlags::default();
    let out = reconcile_flags(&flags, &dc);
    assert!(out.focus_move.is_none());
    assert!(out.cleared_code.is_none());
    assert!(out.new_flags.is_none());
}

#[test]
fn builder_sets_and_unsets_both_flags() {
    let flags = ControlFlags::default()
        .change()
        .focus_first()
        .clear()
        .unset_focus()
        .unset_clear()
        .apply();
    assert_eq!(flags.focus, None);
    assert_eq!(flags.clear, None);
}

#[test]
fn generated_id_is_long_and_starts_with_the_prefix() {
    let id = generate_container_id();
    assert!(id.starts_with("digit-code-edit-"));
    assert_eq!(id.chars().count(), "digit-code-edit-".chars().count() + 50);
    let tail: String = id.chars().skip("digit-code-edit-".chars().count()).collect();
    assert!(tail.chars().all(|c| c.is_ascii_alphanumeric()));
    let other = generate_container_id();
    assert_ne!(id, other);
}

#[test]
fn sanitized_ids_never_start_with_a_digit() {
    assert_eq!(sanitize_container_id("0abc".to_string()), "d-0abc".to_string());
    assert_eq!(sanitize_container_id("9".to_string()), "d-9".to_string());
    assert_eq!(sanitize_container_id("abc".to_string()), "abc".to_string());
    assert_eq!(sanitize_container_id(String::new()), String::new());
}
