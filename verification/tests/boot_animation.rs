use p4x_eye::boot_animation::{
    spinner_color, spinner_frame, spinner_segment, SpinnerColor, SpinnerSegment,
    BOOT_ANIMATION_FRAMES, BOOT_ANIMATION_MS,
};

#[test]
fn first_frame() {
    let frame = spinner_frame(0);
    assert_eq!(frame.segment, SpinnerSegment { x: 108, y: 24, width: 24, height: 44 });
    assert_eq!(frame.color, SpinnerColor::Red);
    assert_eq!(frame.deadline_ms, 100);
}

#[test]
fn segments_and_colors_cycle() {
    assert_eq!(spinner_frame(8).segment, spinner_segment(0));
    assert_eq!(spinner_frame(9).segment, SpinnerSegment { x: 164, y: 48, width: 44, height: 24 });
    assert_eq!(spinner_frame(6).color, SpinnerColor::Red);
    assert_eq!(spinner_frame(11).color, SpinnerColor::Magenta);
    assert_eq!(spinner_color(3), SpinnerColor::Cyan);
    assert_eq!(spinner_segment(6), SpinnerSegment { x: 24, y: 108, width: 32, height: 24 });
}

#[test]
fn last_frame_ends_the_animation() {
    let last = spinner_frame(BOOT_ANIMATION_FRAMES - 1);
    assert_eq!(last.deadline_ms, BOOT_ANIMATION_MS);
    assert_eq!(last.segment, spinner_segment(3));
    assert_eq!(last.color, SpinnerColor::Yellow);
}

#[test]
fn deadlines_increase_by_one_frame() {
    for frame in 0..BOOT_ANIMATION_FRAMES - 1 {
        assert_eq!(spinner_frame(frame + 1).deadline_ms - spinner_frame(frame).deadline_ms, 100);
    }
}
