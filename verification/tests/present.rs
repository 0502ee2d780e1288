use q6w::present::{frame_len_matches, pick_surface_format, plan_surface};

#[test]
fn first_uncorrected_format_wins() {
    // true = the format applies display-side colour correction.
    assert_eq!(pick_surface_format(&vec![true, true, false, false]), 2);
    assert_eq!(pick_surface_format(&vec![false, true]), 0);
}

#[test]
fn all_corrected_falls_back_to_first() {
    assert_eq!(pick_surface_format(&vec![true, true, true]), 0);
}

#[test]
fn surface_plan_is_fifo_with_one_queued_frame() {
    let p = plan_surface(&vec![true, false]);
    assert_eq!(p.format_index, 1);
    assert!(p.first_in_first_out);
    assert_eq!(p.max_queued_frames, 1);
}

#[test]
fn upload_accepts_exactly_one_full_frame() {
    assert!(frame_len_matches(1920 * 1080 * 4, 1920, 1080));
    assert!(!frame_len_matches(1920 * 1080 * 4 - 1, 1920, 1080));
    assert!(!frame_len_matches(0, 1920, 1080));
    assert!(frame_len_matches(0, 0, 1080));
}
