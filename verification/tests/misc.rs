use tdf::color::{color_to_i32, parse_color_to_i32};
use tdf::geometry::Rect;
use tdf::layout::{box_size, centered_box, help_box, layout_of_parts, loading_area, text_extent, HELP_PAGE, LOADING};
use tdf::renderer::{RenderError, RenderNotif};
use tdf::status::{bottom_message, page_label, rendered_label, Tone};
use tdf::termsize::{cell_size, parse_size_response, SizeError, SIZE_QUERY};
use tdf::text::{char_to_digit, push_decimal, push_text};
use tdf::tui::{BottomMessage, InputCommand, RenderLayout, RenderedInfo, Tui};
use tdf::converter::{ConvertedImage};
use tdf::watch::{on_file_event, on_watch_error, reload_notif, FileEventKind, WatchAction};

#[test]
fn hex_colours_keep_their_bytes() {
    for (text, rgb) in [("#000000", [0u8, 0, 0]), ("#FFFFFF", [255, 255, 255]), ("#12aBcd", [0x12, 0xab, 0xcd])] {
        let v = parse_color_to_i32(text).unwrap();
        assert_eq!(v.to_be_bytes(), [0, rgb[0], rgb[1], rgb[2]]);
    }
    for r in 0..=255u8 {
        let text = format!("#{r:02x}{:02X}7f", 255 - r);
        assert_eq!(parse_color_to_i32(&text).unwrap().to_be_bytes(), [0, r, 255 - r, 0x7f]);
    }
}

#[test]
fn other_colour_notations_are_read_too() {
    assert_eq!(parse_color_to_i32("000000").unwrap(), 0);
    assert_eq!(parse_color_to_i32("FFFFFF").unwrap(), 0xff_ffff);
    assert_eq!(parse_color_to_i32("rgb(255, 0, 16)").unwrap(), 0xff_0010);
    assert_eq!(parse_color_to_i32("red").unwrap(), 0xff_0000);
    assert_eq!(parse_color_to_i32("#ff000080").unwrap(), 0xff_0000);
}

#[test]
fn what_names_no_colour_is_an_error() {
    assert!(parse_color_to_i32("#12345").is_err());
    assert!(parse_color_to_i32("not a colour").is_err());
    assert!(!parse_color_to_i32("#gggggg").unwrap_err().message.is_empty());
}

#[test]
fn colours_pack_into_three_bytes() {
    assert_eq!(color_to_i32((0x12, 0x34, 0x56, 0xff)), 0x12_3456);
    assert_eq!(color_to_i32((255, 255, 255, 0)), 0xff_ffff);
    assert_eq!(color_to_i32((0, 0, 1, 7)), 1);
}

#[test]
fn the_size_answer_gives_width_and_height() {
    assert_eq!(SIZE_QUERY, "\x1b[14t");
    assert_eq!(parse_size_response(b"\x1b[4;600;800"), Ok((800, 600)));
    assert_eq!(parse_size_response(b"\x1b[4;600;800t"), Ok((800, 600)));
    assert_eq!(parse_size_response(b"\x1b[4;600;800;1"), Ok((800, 600)));
    assert_eq!(parse_size_response(b"600;800"), Ok((800, 600)));
    assert_eq!(parse_size_response(b"\x1b[4\x1b[4;;+600;65535"), Ok((65535, 600)));
    assert_eq!(parse_size_response(b"\x1b[4;0;0"), Ok((0, 0)));
}

#[test]
fn a_broken_size_answer_says_what_is_wrong() {
    assert_eq!(parse_size_response(b""), Err(SizeError::Unparseable));
    assert_eq!(parse_size_response(b"\x1b[4;600"), Err(SizeError::Unparseable));
    assert_eq!(parse_size_response(b"\x1b[4;;;"), Err(SizeError::Unparseable));
    assert_eq!(parse_size_response(b"\x1b[4;6x0;800"), Err(SizeError::BadHeight));
    assert_eq!(parse_size_response(b"\x1b[4;65536;800"), Err(SizeError::BadHeight));
    assert_eq!(parse_size_response(b"\x1b[4;+;800"), Err(SizeError::BadHeight));
    assert_eq!(parse_size_response(b"\x1b[5;600;800"), Err(SizeError::BadHeight));
    assert_eq!(parse_size_response(b"\x1b[4;600;"), Err(SizeError::BadWidth));
    assert_eq!(parse_size_response(b"\x1b[4;600;-1"), Err(SizeError::BadWidth));
    assert_eq!(parse_size_response(b"\x1b[4;600;99999999999999999999"), Err(SizeError::BadWidth));
}

#[test]
fn cells_divide_the_window() {
    assert_eq!(cell_size(800, 600, 100, 30), Some((8, 20)));
    assert_eq!(cell_size(805, 619, 100, 30), Some((8, 20)));
    assert_eq!(cell_size(800, 600, 0, 30), None);
    assert_eq!(cell_size(800, 600, 100, 0), None);
}

#[test]
fn file_events_are_sorted() {
    assert_eq!(on_file_event(FileEventKind::Modify, &vec![false, false]), WatchAction::Ignore);
    assert_eq!(on_file_event(FileEventKind::Modify, &vec![]), WatchAction::Ignore);
    assert_eq!(on_file_event(FileEventKind::Access, &vec![true]), WatchAction::Ignore);
    assert_eq!(
        on_file_event(FileEventKind::Remove, &vec![false, true]),
        WatchAction::Report(RenderError::Converting("File was deleted".to_string()))
    );
    for kind in [FileEventKind::Create, FileEventKind::Modify, FileEventKind::Any, FileEventKind::Other] {
        assert_eq!(on_file_event(kind, &vec![true]), WatchAction::Reload);
    }
    assert_eq!(
        on_watch_error("lost".to_string()),
        WatchAction::Report(RenderError::Notify("lost".to_string()))
    );
    assert_eq!(reload_notif(), RenderNotif::Reload);
}

#[test]
fn the_screen_is_divided_into_bars_and_pages() {
    let frame = Rect { x: 0, y: 0, width: 80, height: 24 };
    let full = Tui::main_layout(frame, true);
    assert!(full.same_as(&RenderLayout { page_area: frame, top_and_bottom: None }));
    let bars = Tui::main_layout(frame, false);
    // every row is as wide as what lies inside the margin, whatever its height
    for height in 0..12 {
        let small = Tui::main_layout(Rect { x: 1, y: 1, width: 30, height }, false);
        let (top, bottom) = small.top_and_bottom.unwrap();
        for part in [top, small.page_area, bottom] {
            if height >= 2 {
                assert_eq!((part.x, part.width), (3, 26));
            } else {
                assert_eq!((part.x, part.width), (0, 0));
            }
        }
    }
    assert_eq!(bars.page_area, Rect { x: 2, y: 4, width: 76, height: 16 });
    assert_eq!(
        bars.top_and_bottom,
        Some((Rect { x: 2, y: 1, width: 76, height: 3 }, Rect { x: 2, y: 20, width: 76, height: 3 }))
    );
    let a = Rect { x: 1, y: 1, width: 1, height: 1 };
    let b = Rect { x: 2, y: 2, width: 2, height: 2 };
    let c = Rect { x: 3, y: 3, width: 3, height: 3 };
    let l = layout_of_parts(&vec![a, b, c]);
    assert_eq!((l.page_area, l.top_and_bottom), (b, Some((a, c))));
}

#[test]
fn the_loading_word_stands_in_the_middle() {
    assert_eq!(LOADING.len(), 10);
    assert_eq!(loading_area(Rect { x: 2, y: 4, width: 30, height: 5 }), Rect { x: 12, y: 4, width: 10, height: 5 });
    assert_eq!(
        centered_box(Rect { x: 0, y: 0, width: 100, height: 50 }, Some((40, 10))),
        Some(Rect { x: 30, y: 20, width: 40, height: 10 })
    );
    assert_eq!(centered_box(Rect { x: 0, y: 0, width: 100, height: 50 }, None), None);
}

#[test]
fn the_help_box_holds_the_help_page() {
    let lines: Vec<&str> = HELP_PAGE.lines().collect();
    let longest = lines.iter().map(|l| l.len()).max().unwrap();
    assert_eq!(text_extent(HELP_PAGE.as_bytes()), (longest, lines.len()));
    assert_eq!(box_size(HELP_PAGE.as_bytes()), Some((longest as u16 + 6, lines.len() as u16 + 4)));
    let r = help_box(Rect { x: 0, y: 0, width: 200, height: 100 }).unwrap();
    assert_eq!((r.width, r.height), (longest as u16 + 6, lines.len() as u16 + 4));
    assert_eq!(text_extent(b""), (0, 0));
    assert_eq!(text_extent(b"ab\n\nabcd\n"), (4, 3));
    assert_eq!(text_extent(b"\nabc"), (3, 2));
    assert_eq!(box_size(&vec![b'x'; 70000]), None);
}

#[test]
fn numbers_are_written_in_decimal() {
    let mut s = String::from("n=");
    push_decimal(&mut s, 0);
    push_text(&mut s, ",");
    push_decimal(&mut s, 907);
    push_text(&mut s, ",");
    push_decimal(&mut s, u128::MAX);
    assert_eq!(s, format!("n=0,907,{}", u128::MAX));
    assert_eq!(char_to_digit('7'), Some(7));
    assert_eq!(char_to_digit('0'), Some(0));
    assert_eq!(char_to_digit('a'), None);
    assert_eq!(char_to_digit('٣'), None);
}

#[test]
fn labels_count_what_is_ready() {
    assert_eq!(page_label(0, 10), "1 / 10 ");
    assert_eq!(page_label(usize::MAX, 0), format!("{} / 0 ", usize::MAX as u128 + 1));
    assert_eq!(rendered_label(&vec![]), "");
    let img = Some(ConvertedImage::Generic { cell_w: 1, cell_h: 1 });
    let slots = vec![
        RenderedInfo { img, num_results: Some(2) },
        RenderedInfo { img: None, num_results: None },
        RenderedInfo { img, num_results: Some(usize::MAX) },
    ];
    assert_eq!(rendered_label(&slots), "Rendered: 66%");
    assert_eq!(
        bottom_message(&BottomMessage::SearchResults("x".to_string()), &slots),
        (format!("Results for 'x': {} (searched: 66%)", usize::MAX), Tone::Info)
    );
    assert_eq!(
        bottom_message(&BottomMessage::SearchResults("x".to_string()), &vec![]),
        ("Results for 'x': 0 (searched: 0%)".to_string(), Tone::Info)
    );
    assert_eq!(bottom_message(&BottomMessage::Help, &slots), ("?: Show help page".to_string(), Tone::Info));
    assert_eq!(bottom_message(&BottomMessage::Error("e".to_string()), &slots), ("e".to_string(), Tone::Error));
    assert_eq!(
        bottom_message(&BottomMessage::Input(InputCommand::GoToPage(12)), &slots),
        ("Go to: 12".to_string(), Tone::Info)
    );
    assert_eq!(
        bottom_message(&BottomMessage::Input(InputCommand::Search("a b".to_string())), &slots),
        ("Search: a b".to_string(), Tone::Info)
    );
    assert_eq!(
        bottom_message(&BottomMessage::Reloaded, &slots),
        ("Document was reloaded!".to_string(), Tone::Info)
    );
}
