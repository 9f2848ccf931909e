use tdf::converter::{kitty_image_id, ConvertedImage, Converter, ConverterMsg, MaybeTransferred};
use tdf::paint::{
    convert_next, convert_page, frame_of, paint_highlights, paint_page, Decoded, RgbFrame,
    HIGHLIGHT_DIM,
};
use tdf::renderer::{HighlightRect, ImageData, PageInfo, RenderError};

fn info(page_num: usize) -> PageInfo {
    PageInfo {
        img_data: ImageData { pixels: vec![page_num as u8], cell_w: 3, cell_h: 4 },
        page_num,
        result_rects: vec![],
    }
}

fn ppm(width: u32, height: u32, fill: u8) -> Vec<u8> {
    // a binary pixmap: its magic number, the size, the largest value, the pixels
    let mut bytes = vec![b'P', b'6'];
    bytes.extend(format!("\n{width} {height}\n255\n").into_bytes());
    bytes.extend(vec![fill; (width * height * 3) as usize]);
    bytes
}

#[test]
fn w_h_gives_the_cell_size() {
    assert_eq!(ConvertedImage::Generic { cell_w: 7, cell_h: 9 }.w_h(), (7, 9));
    let k = ConvertedImage::Kitty { img: MaybeTransferred::Transferred(3), cell_w: 2, cell_h: 5 };
    assert_eq!(k.w_h(), (2, 5));
}

#[test]
fn kitty_ids_are_one_more_than_the_page() {
    assert_eq!(kitty_image_id(0), Some(1));
    assert_eq!(kitty_image_id(41), Some(42));
    assert_eq!(kitty_image_id(0x7fff_fffe), Some(0x7fff_ffff));
    assert_eq!(kitty_image_id(0x7fff_ffff), None);
    assert_eq!(kitty_image_id(usize::MAX), None);
}

#[test]
fn num_pages_empties_the_converter_and_clamps_the_page() {
    let mut c = Converter::new();
    c.handle_msg(ConverterMsg::NumPages(10));
    c.handle_msg(ConverterMsg::GoToPage(7));
    c.handle_msg(ConverterMsg::AddImg(info(7)));
    c.handle_msg(ConverterMsg::NumPages(5));
    assert_eq!(c.n_pages(), 5);
    assert_eq!(c.page(), 4);
    assert_eq!(c.next_page(20), None);
    c.handle_msg(ConverterMsg::NumPages(0));
    assert_eq!(c.page(), 0);
    assert_eq!(c.next_page(20), None);
}

#[test]
fn next_page_takes_the_nearest_waiting_render() {
    let mut c = Converter::new();
    c.handle_msg(ConverterMsg::NumPages(10));
    c.handle_msg(ConverterMsg::GoToPage(5));
    for p in [2, 4, 6, 7] {
        c.handle_msg(ConverterMsg::AddImg(info(p)));
    }
    assert_eq!(c.next_page(20).map(|i| i.page_num), Some(6));
    assert_eq!(c.next_page(20).map(|i| i.page_num), Some(4));
    assert_eq!(c.next_page(20).map(|i| i.page_num), Some(7));
    assert_eq!(c.next_page(20).map(|i| i.page_num), Some(2));
    assert_eq!(c.next_page(20), None);
}

#[test]
fn next_page_stays_inside_its_window() {
    let mut c = Converter::new();
    c.handle_msg(ConverterMsg::NumPages(100));
    c.handle_msg(ConverterMsg::GoToPage(50));
    c.handle_msg(ConverterMsg::AddImg(info(10)));
    c.handle_msg(ConverterMsg::AddImg(info(59)));
    c.handle_msg(ConverterMsg::AddImg(info(60)));
    assert_eq!(c.next_page(20).map(|i| i.page_num), Some(59));
    c.handle_msg(ConverterMsg::GoToPage(50));
    assert_eq!(c.next_page(20), None);
    assert_eq!(c.next_page(0), None);
}

#[test]
fn a_render_for_a_missing_page_is_dropped() {
    let mut c = Converter::new();
    c.handle_msg(ConverterMsg::NumPages(2));
    c.handle_msg(ConverterMsg::AddImg(info(2)));
    assert_eq!(c.next_page(20), None);
    c.handle_msg(ConverterMsg::GoToPage(9));
    c.handle_msg(ConverterMsg::AddImg(info(1)));
    assert_eq!(c.next_page(20), None);
}

#[test]
fn a_later_render_replaces_an_earlier_one() {
    let mut c = Converter::new();
    c.handle_msg(ConverterMsg::NumPages(2));
    c.handle_msg(ConverterMsg::AddImg(info(1)));
    let mut newer = info(1);
    newer.img_data.pixels = vec![9, 9];
    c.handle_msg(ConverterMsg::AddImg(newer.clone()));
    assert_eq!(c.next_page(20), Some(newer));
}

#[test]
fn highlights_dim_the_blue_strictly_inside() {
    let mut frame = RgbFrame { width: 5, height: 4, data: vec![200; 5 * 4 * 3] };
    let rects = vec![HighlightRect { ul_x: 0, ul_y: 0, lr_x: 3, lr_y: 3 }];
    paint_highlights(&mut frame, &rects);
    for y in 0..4u32 {
        for x in 0..5u32 {
            let i = ((y * 5 + x) * 3) as usize;
            let inside = (x == 1 || x == 2) && (y == 1 || y == 2);
            assert_eq!(frame.data[i], 200);
            assert_eq!(frame.data[i + 1], 200);
            assert_eq!(frame.data[i + 2], if inside { 200 - HIGHLIGHT_DIM } else { 200 });
        }
    }
}

#[test]
fn overlapping_highlights_dim_twice_and_stop_at_zero() {
    let mut frame = RgbFrame { width: 3, height: 3, data: vec![130; 27] };
    let r = HighlightRect { ul_x: 0, ul_y: 0, lr_x: 2, lr_y: 2 };
    paint_highlights(&mut frame, &vec![r, r]);
    assert_eq!(frame.data[(1 * 3 + 1) * 3 + 2], 0);
    assert_eq!(frame.data[2], 130);
    let mut dark = RgbFrame { width: 3, height: 3, data: vec![100; 27] };
    paint_highlights(&mut dark, &vec![r]);
    assert_eq!(dark.data[(1 * 3 + 1) * 3 + 2], 0);
}

#[test]
fn frame_of_wants_three_bytes_for_each_pixel() {
    assert_eq!(
        frame_of(Decoded::Rgb8 { width: 2, height: 1, data: vec![1, 2, 3, 4, 5, 6] }),
        Some(RgbFrame { width: 2, height: 1, data: vec![1, 2, 3, 4, 5, 6] })
    );
    assert_eq!(frame_of(Decoded::Rgb8 { width: 2, height: 1, data: vec![1, 2, 3] }), None);
    assert_eq!(frame_of(Decoded::Other), None);
    assert_eq!(
        frame_of(Decoded::Rgb8 { width: 0, height: 9, data: vec![] }),
        Some(RgbFrame { width: 0, height: 9, data: vec![] })
    );
}

#[test]
fn paint_page_refuses_another_pixel_layout() {
    let r = paint_page(Decoded::Other, &info(3));
    assert_eq!(
        r,
        Err(RenderError::Converting("Can't load image: unexpected pixel layout".to_string()))
    );
}

#[test]
fn convert_page_decodes_and_tints() {
    let page = PageInfo {
        img_data: ImageData { pixels: ppm(4, 4, 255), cell_w: 2, cell_h: 1 },
        page_num: 6,
        result_rects: vec![HighlightRect { ul_x: 0, ul_y: 0, lr_x: 3, lr_y: 2 }],
    };
    let painted = convert_page(&page).unwrap();
    assert_eq!((painted.frame.width, painted.frame.height), (4, 4));
    assert_eq!(painted.page_num, 6);
    assert_eq!(painted.num_results, 1);
    assert_eq!((painted.cell_w, painted.cell_h), (2, 1));
    let blue = |x: usize, y: usize| painted.frame.data[(y * 4 + x) * 3 + 2];
    assert_eq!(blue(1, 1), 128);
    assert_eq!(blue(2, 1), 128);
    assert_eq!(blue(0, 1), 255);
    assert_eq!(blue(1, 2), 255);
    assert_eq!(painted.frame.data[(1 * 4 + 1) * 3], 255);
}

#[test]
fn convert_page_reports_bytes_that_are_no_image() {
    let page = PageInfo {
        img_data: ImageData { pixels: b"not an image".to_vec(), cell_w: 2, cell_h: 1 },
        page_num: 0,
        result_rects: vec![],
    };
    match convert_page(&page) {
        Err(RenderError::Converting(msg)) => assert!(msg.starts_with("Can't load image: ")),
        other => panic!("unexpected result {other:?}"),
    }
}

#[test]
fn convert_page_refuses_a_grey_image() {
    // a binary greymap
    let mut bytes = vec![b'P', b'5'];
    bytes.extend(b"\n2 2\n255\n");
    bytes.extend([1, 2, 3, 4]);
    let page = PageInfo {
        img_data: ImageData { pixels: bytes, cell_w: 2, cell_h: 1 },
        page_num: 0,
        result_rects: vec![],
    };
    assert_eq!(
        convert_page(&page),
        Err(RenderError::Converting("Can't load image: unexpected pixel layout".to_string()))
    );
}

#[test]
fn convert_next_takes_the_render_out() {
    let mut c = Converter::new();
    c.handle_msg(ConverterMsg::NumPages(3));
    c.handle_msg(ConverterMsg::AddImg(PageInfo {
        img_data: ImageData { pixels: ppm(2, 2, 9), cell_w: 1, cell_h: 1 },
        page_num: 2,
        result_rects: vec![],
    }));
    let painted = convert_next(&mut c, 20).unwrap().unwrap();
    assert_eq!(painted.page_num, 2);
    assert_eq!(painted.frame.data, vec![9; 12]);
    assert!(convert_next(&mut c, 20).is_none());
}
