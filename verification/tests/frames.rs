use tracy_rs::sys::Call;
use tracy_rs::{
    frame_mark, frame_mark_end, frame_mark_image_unchecked, frame_mark_start, CText, Recorder,
    SourceLocation, SourceLocationData, ZoneContext,
};

fn text(bytes: &'static [u8]) -> CText<'static> {
    CText::from_bytes_with_nul(bytes).unwrap()
}

#[test]
fn unnamed_mark_is_the_main_frame() {
    assert_eq!(frame_mark::<true>(None), Some(Call::FrameMark { name: None }));
}

#[test]
fn named_mark_carries_its_name() {
    let name = text(b"physics\0");
    assert_eq!(frame_mark::<true>(Some(name)), Some(Call::FrameMark { name: Some(name) }));
}

#[test]
fn start_and_end_carry_their_name() {
    let name = text(b"loop\0");
    assert_eq!(frame_mark_start::<true>(name), Some(Call::FrameMarkStart { name }));
    assert_eq!(frame_mark_end::<true>(name), Some(Call::FrameMarkEnd { name }));
}

#[test]
fn frame_start_comes_before_its_end() {
    let name = text(b"loop\0");
    let mut backend = Recorder::new();
    backend.perform(frame_mark_start::<true>(name));
    backend.perform(frame_mark_end::<true>(name));
    assert_eq!(
        backend.calls(),
        &[Call::FrameMarkStart { name }, Call::FrameMarkEnd { name }]
    );
}

#[test]
fn zones_between_do_not_reorder_a_frame() {
    let function = text(b"frames::fn\0");
    let file = text(b"tests/frames.rs\0");
    let record =
        SourceLocationData::without_name_or_color(&SourceLocation { function, file, line: 45 });
    let name = text(b"loop\0");
    let mut backend = Recorder::new();

    let pending = ZoneContext::<true>::new(&record, true);
    let reply = backend.perform(pending.call());
    let before = pending.open(reply);
    backend.perform(frame_mark_start::<true>(name));
    let pending = ZoneContext::<true>::new(&record, true);
    let reply = backend.perform(pending.call());
    let within = pending.open(reply);
    let before_ctx = before.context().unwrap();
    let within_ctx = within.context().unwrap();
    backend.perform(before.close());
    backend.perform(within.close());
    backend.perform(frame_mark_end::<true>(name));

    assert_eq!(
        backend.calls(),
        &[
            Call::ZoneBegin { srcloc: record.data(), active: 1 },
            Call::FrameMarkStart { name },
            Call::ZoneBegin { srcloc: record.data(), active: 1 },
            Call::ZoneEnd { ctx: before_ctx },
            Call::ZoneEnd { ctx: within_ctx },
            Call::FrameMarkEnd { name },
        ]
    );
    let start = backend.calls().iter().position(|c| *c == Call::FrameMarkStart { name });
    let end = backend.calls().iter().position(|c| *c == Call::FrameMarkEnd { name });
    assert_eq!(start, Some(1));
    assert_eq!(end, Some(5));
}

#[test]
fn image_call_carries_all_it_was_given() {
    let pixels = [0x11u8, 0x22, 0x33, 0x44, 0x55, 0x66, 0x77, 0x88];
    assert_eq!(
        frame_mark_image_unchecked::<true>(&pixels, 2, 1, 3, true),
        Some(Call::FrameImage { image: &pixels, w: 2, h: 1, offset: 3, flip: 1 })
    );
    assert_eq!(
        frame_mark_image_unchecked::<true>(&pixels, 1, 2, 0, false),
        Some(Call::FrameImage { image: &pixels, w: 1, h: 2, offset: 0, flip: 0 })
    );
}

#[test]
fn image_is_not_judged_here() {
    let none: [u8; 0] = [];
    assert_eq!(
        frame_mark_image_unchecked::<true>(&none, 0, 0, 255, false),
        Some(Call::FrameImage { image: &none, w: 0, h: 0, offset: 255, flip: 0 })
    );
    assert_eq!(
        frame_mark_image_unchecked::<true>(&none, u16::MAX, u16::MAX, 0, true),
        Some(Call::FrameImage { image: &none, w: u16::MAX, h: u16::MAX, offset: 0, flip: 1 })
    );
}
