//! Schedule of the boot animation: a ring of eight segments lit one after the
//! other in cycling colors, twenty frames over two seconds.
use vstd::prelude::*;

verus! {

pub const BOOT_ANIMATION_FRAMES: u32 = 20;
pub const BOOT_ANIMATION_MS: u64 = 2000;
pub const SPINNER_SEGMENT_COUNT: u32 = 8;
pub const SPINNER_COLOR_COUNT: u32 = 6;

/// The colors the spinner segments cycle through.
#[derive(Clone, Copy, Debug, PartialEq, Eq, Structural)]
pub enum SpinnerColor {
    Red,
    Yellow,
    Green,
    Cyan,
    Blue,
    Magenta,
}

/// One segment of the ring: its top-left corner and size in LCD pixels.
#[derive(Clone, Copy, Debug, PartialEq, Eq, Structural)]
pub struct SpinnerSegment {
    pub x: i32,
    pub y: i32,
    pub width: u32,
    pub height: u32,
}

/// What to draw in one frame of the animation, and when the frame ends,
/// in milliseconds after the animation started.
#[derive(Clone, Copy, Debug, PartialEq, Eq, Structural)]
pub struct SpinnerFrame {
    pub segment: SpinnerSegment,
    pub color: SpinnerColor,
    pub deadline_ms: u64,
}

/// The eight segments that form a ring around the boot title, clockwise from the top.
pub open spec fn segment_at(index: int) -> SpinnerSegment {
    if index == 0 {
        SpinnerSegment { x: 108, y: 24, width: 24, height: 44 }
    } else if index == 1 {
        SpinnerSegment { x: 164, y: 48, width: 44, height: 24 }
    } else if index == 2 {
        SpinnerSegment { x: 184, y: 108, width: 32, height: 24 }
    } else if index == 3 {
        SpinnerSegment { x: 164, y: 168, width: 44, height: 24 }
    } else if index == 4 {
        SpinnerSegment { x: 108, y: 172, width: 24, height: 44 }
    } else if index == 5 {
        SpinnerSegment { x: 32, y: 168, width: 44, height: 24 }
    } else if index == 6 {
        SpinnerSegment { x: 24, y: 108, width: 32, height: 24 }
    } else {
        SpinnerSegment { x: 32, y: 48, width: 44, height: 24 }
    }
}

pub open spec fn color_at(index: int) -> SpinnerColor {
    if index == 0 {
        SpinnerColor::Red
    } else if index == 1 {
        SpinnerColor::Yellow
    } else if index == 2 {
        SpinnerColor::Green
    } else if index == 3 {
        SpinnerColor::Cyan
    } else if index == 4 {
        SpinnerColor::Blue
    } else {
        SpinnerColor::Magenta
    }
}

/// The length of one animation frame.
pub open spec fn frame_ms() -> int {
    (BOOT_ANIMATION_MS as int) / (BOOT_ANIMATION_FRAMES as int)
}

/// The segment at `index` of the ring.
pub fn spinner_segment(index: u32) -> (segment: SpinnerSegment)
    requires
        index < SPINNER_SEGMENT_COUNT,
    ensures
        segment == segment_at(index as int),
{
    match index {
        0 => SpinnerSegment { x: 108, y: 24, width: 24, height: 44 },
        1 => SpinnerSegment { x: 164, y: 48, width: 44, height: 24 },
        2 => SpinnerSegment { x: 184, y: 108, width: 32, height: 24 },
        3 => SpinnerSegment { x: 164, y: 168, width: 44, height: 24 },
        4 => SpinnerSegment { x: 108, y: 172, width: 24, height: 44 },
        5 => SpinnerSegment { x: 32, y: 168, width: 44, height: 24 },
        6 => SpinnerSegment { x: 24, y: 108, width: 32, height: 24 },
        _ => SpinnerSegment { x: 32, y: 48, width: 44, height: 24 },
    }
}

/// The color at `index` of the cycle.
pub fn spinner_color(index: u32) -> (color: SpinnerColor)
    requires
        index < SPINNER_COLOR_COUNT,
    ensures
        color == color_at(index as int),
{
    match index {
        0 => SpinnerColor::Red,
        1 => SpinnerColor::Yellow,
        2 => SpinnerColor::Green,
        3 => SpinnerColor::Cyan,
        4 => SpinnerColor::Blue,
        _ => SpinnerColor::Magenta,
    }
}

/// Frame `frame` of the animation: the segment and color it lights, and the
/// time at which the next frame starts.
pub fn spinner_frame(frame: u32) -> (step: SpinnerFrame)
    requires
        frame < BOOT_ANIMATION_FRAMES,
    ensures
        step.segment == segment_at((frame % SPINNER_SEGMENT_COUNT) as int),
        step.color == color_at((frame % SPINNER_COLOR_COUNT) as int),
        step.deadline_ms == frame_ms() * (frame + 1),
{
    let frame_duration: u64 = BOOT_ANIMATION_MS / (BOOT_ANIMATION_FRAMES as u64);
    assert(frame_duration == frame_ms());
    SpinnerFrame {
        segment: spinner_segment(frame % SPINNER_SEGMENT_COUNT),
        color: spinner_color(frame % SPINNER_COLOR_COUNT),
        deadline_ms: frame_duration * (frame as u64 + 1),
    }
}

/// The frame deadlines increase strictly and the last one ends the animation
/// after exactly `BOOT_ANIMATION_MS`.
pub proof fn lemma_schedule_spans_animation(frame: int)
    requires
        0 <= frame < BOOT_ANIMATION_FRAMES - 1,
    ensures
        frame_ms() * (frame + 1) < frame_ms() * (frame + 2),
        frame_ms() * BOOT_ANIMATION_FRAMES == BOOT_ANIMATION_MS,
{
    assert(frame_ms() == 100);
}

/// Consecutive frames light consecutive segments of the ring.
pub proof fn lemma_segments_advance_around_ring(frame: int)
    requires
        0 <= frame,
    ensures
        (frame + 1) % (SPINNER_SEGMENT_COUNT as int) == ((frame % (SPINNER_SEGMENT_COUNT as int)) + 1)
            % (SPINNER_SEGMENT_COUNT as int),
{
}

/// The LCD is 240 by 240 pixels; the ring is centred on it.
pub open spec fn lcd_size() -> int {
    240
}

/// Twice the x and y of a segment's centre, in whole pixels.
pub open spec fn doubled_center(segment: SpinnerSegment) -> (int, int) {
    (2 * segment.x + segment.width, 2 * segment.y + segment.height)
}

/// The ring's geometry: every segment lies on the screen; the eight segments
/// of one cycle are pairwise distinct; opposite segments (four frames apart)
/// have the same size and are mirror images through the screen centre; and
/// the ring starts straight above the centre and runs clockwise through the
/// right, bottom and left.
pub proof fn lemma_ring_geometry(i: int, j: int)
    requires
        0 <= i < SPINNER_SEGMENT_COUNT,
        0 <= j < SPINNER_SEGMENT_COUNT,
    ensures
        segment_at(i).x >= 0 && segment_at(i).y >= 0,
        segment_at(i).x + segment_at(i).width <= lcd_size(),
        segment_at(i).y + segment_at(i).height <= lcd_size(),
        i != j ==> segment_at(i) != segment_at(j),
        i < 4 ==> segment_at(i).width == segment_at(i + 4).width && segment_at(i).height
            == segment_at(i + 4).height,
        i < 4 ==> doubled_center(segment_at(i)).0 + doubled_center(segment_at(i + 4)).0 == 2
            * lcd_size() && doubled_center(segment_at(i)).1 + doubled_center(segment_at(i + 4)).1
            == 2 * lcd_size(),
        doubled_center(segment_at(0)).0 == lcd_size() && doubled_center(segment_at(0)).1
            < lcd_size(),
        doubled_center(segment_at(2)).1 == lcd_size() && doubled_center(segment_at(2)).0
            > lcd_size(),
        doubled_center(segment_at(4)).0 == lcd_size() && doubled_center(segment_at(4)).1
            > lcd_size(),
        doubled_center(segment_at(6)).1 == lcd_size() && doubled_center(segment_at(6)).0
            < lcd_size(),
{
}

/// The six colors of one cycle are pairwise distinct.
pub proof fn lemma_colors_distinct(i: int, j: int)
    requires
        0 <= i < SPINNER_COLOR_COUNT,
        0 <= j < SPINNER_COLOR_COUNT,
        i != j,
    ensures
        color_at(i) != color_at(j),
{
}

} // verus!

