use tracy_rs::sys::source_location_data;
use tracy_rs::{CText, SourceLocation, SourceLocationData};

fn text(bytes: &'static [u8]) -> CText<'static> {
    CText::from_bytes_with_nul(bytes).unwrap()
}

fn here() -> SourceLocation<'static> {
    SourceLocation { function: text(b"game::update\0"), file: text(b"src/game.rs\0"), line: 42 }
}

#[test]
fn record_without_name_or_color_has_neither() {
    let loc = here();
    let record = SourceLocationData::without_name_or_color(&loc);
    assert_eq!(record.data().name, None);
    assert_eq!(record.data().color, 0);
    assert_eq!(record.data().function, loc.function);
    assert_eq!(record.data().file, loc.file);
    assert_eq!(record.data().line, 42);
}

#[test]
fn record_with_name_and_color_has_both() {
    let loc = here();
    let record = SourceLocationData::with_name_and_color(&loc, text(b"X\0"), 0xff00ff);
    assert_eq!(
        *record.data(),
        source_location_data {
            name: Some(text(b"X\0")),
            function: text(b"game::update\0"),
            file: text(b"src/game.rs\0"),
            line: 42,
            color: 0xff00ff,
        }
    );
    assert_eq!(record.data().name.unwrap().as_bytes_with_nul(), b"X\0");
}

#[test]
fn record_with_color_has_no_name() {
    let loc = here();
    let record = SourceLocationData::with_color(&loc, 0x2f4f4f);
    assert_eq!(
        *record.data(),
        source_location_data {
            name: None,
            function: loc.function,
            file: loc.file,
            line: 42,
            color: 0x2f4f4f,
        }
    );
}

#[test]
fn record_with_name_has_no_color() {
    let loc = here();
    let record = SourceLocationData::with_name(&loc, text(b"physics\0"));
    assert_eq!(
        *record.data(),
        source_location_data {
            name: Some(text(b"physics\0")),
            function: loc.function,
            file: loc.file,
            line: 42,
            color: 0,
        }
    );
}

#[test]
fn color_is_kept_as_given() {
    let loc = here();
    assert_eq!(SourceLocationData::with_color(&loc, 0).data().color, 0);
    assert_eq!(SourceLocationData::with_color(&loc, 0xffffff).data().color, 0xffffff);
    assert_eq!(SourceLocationData::with_color(&loc, u32::MAX).data().color, u32::MAX);
}

#[test]
fn one_location_gives_differing_records() {
    let loc = here();
    let plain = SourceLocationData::without_name_or_color(&loc);
    let named = SourceLocationData::with_name(&loc, text(b"a\0"));
    assert_ne!(plain, named);
    assert_eq!(plain.data().line, named.data().line);
    assert_eq!(plain.data().file, named.data().file);
    assert_eq!(plain.data().function, named.data().function);
    assert_eq!(plain, SourceLocationData::with_color(&loc, 0));
}

#[test]
fn record_borrows_the_text_of_its_location() {
    let function: &'static [u8] = b"f\0";
    let file: &'static [u8] = b"g.rs\0";
    let loc = SourceLocation { function: text(function), file: text(file), line: 1 };
    let record = SourceLocationData::without_name_or_color(&loc);
    assert_eq!(record.data().function.as_bytes_with_nul().as_ptr(), function.as_ptr());
    assert_eq!(record.data().file.as_bytes_with_nul().as_ptr(), file.as_ptr());
}
