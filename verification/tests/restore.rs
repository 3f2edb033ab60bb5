use goxviet_core::buffer::{Buffer, Char, RawInputBuffer};
use goxviet_core::chars::TONE_HORN;
use goxviet_core::keys;
use goxviet_core::restore::{
    auto_restore_english, build_raw_output, build_raw_output_from, find_first_transform_position,
    has_vietnamese_transforms, instant_restore_english, restore_to_raw,
};

fn make_buffer(chars: &[(u16, u8, u8, bool)]) -> Buffer {
    let mut buf = Buffer::new();
    for &(key, tone_val, mark_val, stroke) in chars {
        let mut c = Char::new(key, false);
        c.tone = tone_val;
        c.mark = mark_val;
        c.stroke = stroke;
        buf.push(c);
    }
    buf
}

fn make_raw_input(keys_list: &[(u16, bool)]) -> RawInputBuffer {
    let mut raw = RawInputBuffer::new();
    for &(key, caps) in keys_list {
        raw.push(key, caps);
    }
    raw
}


#[test]
fn test_build_raw_output() {
    let raw = make_raw_input(&[
        (keys::T, false),
        (keys::E, false),
        (keys::X, false),
        (keys::T, false),
    ]);
    let output = build_raw_output(&raw);
    assert_eq!(output, vec!['t', 'e', 'x', 't']);
}

#[test]
fn test_build_raw_output_with_caps() {
    let raw = make_raw_input(&[(keys::T, true), (keys::E, false), (keys::S, false)]);
    let output = build_raw_output(&raw);
    assert_eq!(output, vec!['T', 'e', 's']);
}

#[test]
fn test_build_raw_output_empty() {
    let raw = RawInputBuffer::new();
    let output = build_raw_output(&raw);
    assert!(output.is_empty());
}

#[test]
fn test_auto_restore_english() {
    // Buffer: "tẽ" (t + e with ngã)
    let buf = make_buffer(&[(keys::T, 0, 0, false), (keys::E, 0, 4, false)]); // mark=4 is ngã
    let raw = make_raw_input(&[(keys::T, false), (keys::E, false), (keys::X, false)]);

    let result = auto_restore_english(&buf, &raw);

    assert_eq!(result.action, 1); // Action::Send
    assert_eq!(result.backspace, 2); // "tẽ" length
    assert_eq!(result.count, 4); // "tex" + space
}

#[test]
fn test_auto_restore_english_empty_buffer() {
    let buf = Buffer::new();
    let raw = make_raw_input(&[(keys::T, false)]);

    let result = auto_restore_english(&buf, &raw);

    assert_eq!(result.action, 0); // Action::None
}

#[test]
fn test_auto_restore_english_empty_raw() {
    let buf = make_buffer(&[(keys::T, 0, 0, false)]);
    let raw = RawInputBuffer::new();

    let result = auto_restore_english(&buf, &raw);

    assert_eq!(result.action, 0); // Action::None
}

#[test]
fn test_restore_to_raw() {
    // Buffer: "đ" (d with stroke)
    let buf = make_buffer(&[(keys::D, 0, 0, true)]);
    let raw = make_raw_input(&[(keys::D, false), (keys::D, false)]);

    let result = restore_to_raw(&buf, &raw);

    assert_eq!(result.action, 1); // Action::Send
    assert_eq!(result.backspace, 1); // "đ" length
    assert_eq!(result.count, 2); // "dd"
}

#[test]
fn test_restore_to_raw_no_transforms() {
    // Buffer: "ab" (no transforms)
    let buf = make_buffer(&[(keys::A, 0, 0, false), (keys::B, 0, 0, false)]);
    let raw = make_raw_input(&[(keys::A, false), (keys::B, false)]);

    let result = restore_to_raw(&buf, &raw);

    assert_eq!(result.action, 0); // Action::None (no transforms to undo)
}

#[test]
fn test_restore_to_raw_empty() {
    let buf = Buffer::new();
    let raw = RawInputBuffer::new();

    let result = restore_to_raw(&buf, &raw);

    assert_eq!(result.action, 0); // Action::None
}

#[test]
fn test_has_vietnamese_transforms_with_tone() {
    let buf = make_buffer(&[(keys::A, TONE_HORN, 0, false)]);
    assert!(has_vietnamese_transforms(&buf));
}

#[test]
fn test_has_vietnamese_transforms_with_mark() {
    let buf = make_buffer(&[(keys::A, 0, 1, false)]); // mark=1 is sắc
    assert!(has_vietnamese_transforms(&buf));
}

#[test]
fn test_has_vietnamese_transforms_with_stroke() {
    let buf = make_buffer(&[(keys::D, 0, 0, true)]);
    assert!(has_vietnamese_transforms(&buf));
}

#[test]
fn test_has_vietnamese_transforms_none() {
    let buf = make_buffer(&[(keys::A, 0, 0, false), (keys::B, 0, 0, false)]);
    assert!(!has_vietnamese_transforms(&buf));
}

#[test]
fn test_has_vietnamese_transforms_empty() {
    let buf = Buffer::new();
    assert!(!has_vietnamese_transforms(&buf));
}

#[test]
fn test_find_first_transform_position_with_tone() {
    // Buffer: "usẽr" - transform at position 2
    let buf = make_buffer(&[
        (keys::U, 0, 0, false),
        (keys::S, 0, 0, false),
        (keys::E, 0, 4, false), // mark=4 is ngã
        (keys::R, 0, 0, false),
    ]);
    assert_eq!(find_first_transform_position(&buf), 2);
}

#[test]
fn test_find_first_transform_position_with_stroke() {
    // Buffer: "đa" - transform at position 0
    let buf = make_buffer(&[(keys::D, 0, 0, true), (keys::A, 0, 0, false)]);
    assert_eq!(find_first_transform_position(&buf), 0);
}

#[test]
fn test_find_first_transform_position_no_transforms() {
    // Buffer: "test" - no transforms
    let buf = make_buffer(&[
        (keys::T, 0, 0, false),
        (keys::E, 0, 0, false),
        (keys::S, 0, 0, false),
        (keys::T, 0, 0, false),
    ]);
    assert_eq!(find_first_transform_position(&buf), 4); // Returns buf.len()
}

#[test]
fn test_find_first_transform_position_empty() {
    let buf = Buffer::new();
    assert_eq!(find_first_transform_position(&buf), 0);
}

#[test]
fn test_build_raw_output_from() {
    let raw = make_raw_input(&[
        (keys::U, false),
        (keys::S, false),
        (keys::E, false),
        (keys::R, false),
    ]);
    let output = build_raw_output_from(&raw, 2);
    assert_eq!(output, vec!['e', 'r']); // From position 2 onwards
}

#[test]
fn test_build_raw_output_from_start() {
    let raw = make_raw_input(&[(keys::T, false), (keys::E, false)]);
    let output = build_raw_output_from(&raw, 0);
    assert_eq!(output, vec!['t', 'e']); // All characters
}

#[test]
fn test_build_raw_output_from_beyond_end() {
    let raw = make_raw_input(&[(keys::A, false)]);
    let output = build_raw_output_from(&raw, 10);
    assert!(output.is_empty()); // Beyond end = empty
}

#[test]
fn test_instant_restore_english_incremental() {
    // Buffer: "usẽr" (transform at position 2)
    let buf = make_buffer(&[
        (keys::U, 0, 0, false),
        (keys::S, 0, 0, false),
        (keys::E, 0, 4, false), // mark=4 is ngã
        (keys::R, 0, 0, false),
    ]);
    // Raw input: "user"
    let raw = make_raw_input(&[
        (keys::U, false),
        (keys::S, false),
        (keys::E, false),
        (keys::R, false),
    ]);

    let result = instant_restore_english(&buf, &raw);

    assert_eq!(result.action, 1); // Action::Send
                                  // FIX: Must restore ENTIRE buffer to raw (not just from first transform)
                                  // This ensures we don't lose initial characters like in "reto" → "esto" bug
    assert_eq!(result.backspace, 4); // Backspace all 4 chars: "usẽr"
                                     // FIX: Send all 4 raw chars "user"
    assert_eq!(result.count, 4);
}

#[test]
fn test_instant_restore_english_no_transforms() {
    // Buffer: "test" (no transforms)
    let buf = make_buffer(&[
        (keys::T, 0, 0, false),
        (keys::E, 0, 0, false),
        (keys::S, 0, 0, false),
        (keys::T, 0, 0, false),
    ]);
    let raw = make_raw_input(&[
        (keys::T, false),
        (keys::E, false),
        (keys::S, false),
        (keys::T, false),
    ]);

    let result = instant_restore_english(&buf, &raw);

    // No transforms = no restore needed
    assert_eq!(result.action, 0); // Action::None
}

#[test]
fn test_instant_restore_english_transform_at_start() {
    // Buffer: "đa" (transform at position 0)
    let buf = make_buffer(&[(keys::D, 0, 0, true), (keys::A, 0, 0, false)]);
    let raw = make_raw_input(&[(keys::D, false), (keys::D, false), (keys::A, false)]);

    let result = instant_restore_english(&buf, &raw);

    assert_eq!(result.action, 1); // Action::Send
                                  // Backspace entire buffer (transform at start)
    assert_eq!(result.backspace, 2);
    // Send all raw chars
    assert_eq!(result.count, 3); // "dda"
}
