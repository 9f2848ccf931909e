use tdf::converter::{ConvertedImage, ConvertedPage, ConverterMsg, MaybeTransferred};
use tdf::event_loop::{
    area_changed, dispatch, on_converted, on_display_result, on_render_info, on_resumed, Outgoing,
};
use tdf::geometry::{Position, Rect};
use tdf::kitty::{
    request_for, DisplayError, DisplayLocation, DisplayResult, DisplaySession, KittyDisplay,
    KittyFailure, KittyReadyToDisplay, KittyRequest,
};
use tdf::renderer::{HighlightRect, ImageData, PageInfo, RenderError, RenderInfo, RenderNotif};
use tdf::tui::{InputAction, RenderLayout, RenderedInfo, Tui};
use tdf::FitOrFill;

fn entry(page_num: usize, img: MaybeTransferred) -> KittyReadyToDisplay {
    KittyReadyToDisplay {
        img,
        page_num,
        pos: Position { x: page_num as u16, y: 1 },
        display_loc: DisplayLocation::new(),
    }
}

fn failure(message: &str, no_entity: bool) -> KittyFailure {
    KittyFailure { message: message.to_string(), no_entity }
}

fn run(display: KittyDisplay, answers: Vec<Result<u32, KittyFailure>>) -> (Vec<KittyRequest>, DisplayResult) {
    let mut session = DisplaySession::start(display);
    let mut asked = vec![];
    let mut answers = answers.into_iter();
    while let Some(req) = session.next_request() {
        asked.push(req);
        session.record(answers.next().unwrap());
    }
    (asked, session.finish())
}

#[test]
fn no_change_asks_nothing() {
    let (asked, result) = run(KittyDisplay::NoChange, vec![]);
    assert!(asked.is_empty());
    assert_eq!(result, DisplayResult { transferred: vec![], error: None });
}

#[test]
fn clearing_asks_once() {
    let (asked, result) = run(KittyDisplay::ClearImages, vec![Ok(1)]);
    assert_eq!(asked, vec![KittyRequest::ClearAll]);
    assert_eq!(result.error, None);
}

#[test]
fn a_failed_clear_shows_nothing() {
    let list = vec![entry(0, MaybeTransferred::NotYet)];
    let (asked, result) = run(KittyDisplay::DisplayImages(list), vec![Err(failure("no", false))]);
    assert_eq!(asked, vec![KittyRequest::ClearAll]);
    assert_eq!(
        result.error,
        Some(DisplayError {
            pages: vec![],
            description: "Couldn't clear previous images".to_string(),
            failure: failure("no", false),
        })
    );
}

#[test]
fn images_are_sent_once_and_shown_by_id_afterwards() {
    let list = vec![entry(0, MaybeTransferred::NotYet), entry(4, MaybeTransferred::Transferred(5))];
    let (asked, result) = run(KittyDisplay::DisplayImages(list.clone()), vec![Ok(0), Ok(1), Ok(5)]);
    assert_eq!(asked, vec![
        KittyRequest::ClearAll,
        KittyRequest::TransmitAndDisplay {
            page_num: 0,
            pos: Position { x: 0, y: 1 },
            display_loc: DisplayLocation::new()
        },
        KittyRequest::Display {
            image_id: 5,
            page_num: 4,
            pos: Position { x: 4, y: 1 },
            display_loc: DisplayLocation::new()
        },
    ]);
    assert_eq!(result, DisplayResult { transferred: vec![(0, 1)], error: None });
    assert_eq!(request_for(&list[1]), asked[2]);
}

#[test]
fn failures_are_collected_and_the_first_is_kept() {
    let list = vec![
        entry(1, MaybeTransferred::Transferred(2)),
        entry(2, MaybeTransferred::NotYet),
        entry(3, MaybeTransferred::NotYet),
    ];
    let (asked, result) = run(KittyDisplay::DisplayImages(list), vec![
        Ok(0),
        Err(failure("evicted", true)),
        Ok(3),
        Err(failure("broken pipe", false)),
    ]);
    assert_eq!(asked.len(), 4);
    assert_eq!(result.transferred, vec![(2, 3)]);
    // the failure that says more than "no such image" is the one reported
    assert_eq!(
        result.error,
        Some(DisplayError {
            pages: vec![1, 3],
            description: "Couldn't transfer image to the terminal".to_string(),
            failure: failure("broken pipe", false),
        })
    );
}

#[test]
fn of_several_failures_the_first_of_its_kind_is_kept() {
    let list = || {
        KittyDisplay::DisplayImages(vec![
            entry(1, MaybeTransferred::NotYet),
            entry(2, MaybeTransferred::NotYet),
            entry(3, MaybeTransferred::NotYet),
        ])
    };
    let report = |answers| run(list(), answers).1.error.unwrap();
    let gone = |m: &str| Err(failure(m, true));
    let loud = |m: &str| Err(failure(m, false));
    assert_eq!(report(vec![Ok(0), loud("a"), gone("b"), loud("c")]).failure, failure("a", false));
    assert_eq!(report(vec![Ok(0), gone("a"), gone("b"), loud("c")]).failure, failure("c", false));
    assert_eq!(report(vec![Ok(0), gone("a"), gone("b"), Ok(3)]).failure, failure("a", true));
    assert_eq!(report(vec![Ok(0), gone("a"), loud("b"), loud("c")]).pages, vec![1, 2, 3]);
}

#[test]
fn a_later_failure_reaches_the_status_line() {
    let mut t = tui_with_images();
    let (_, result) = run(
        KittyDisplay::DisplayImages(vec![entry(1, MaybeTransferred::Transferred(2)), entry(2, MaybeTransferred::NotYet)]),
        vec![Ok(0), Err(failure("evicted", true)), Err(failure("broken pipe", false))],
    );
    assert_eq!(on_display_result(&mut t, result), vec![
        RenderNotif::PageNeedsReRender(1),
        RenderNotif::PageNeedsReRender(2)
    ]);
    assert_eq!(t.status().message, "Couldn't transfer image to the terminal: broken pipe");
}

#[test]
fn a_resume_asks_for_the_pages_that_the_terminal_held() {
    let mut t = tui_with_images();
    t.image_transferred(1, 2);
    t.image_transferred(3, 4);
    assert_eq!(on_resumed(&mut t), vec![RenderNotif::PageNeedsReRender(1), RenderNotif::PageNeedsReRender(3)]);
    assert_eq!(t.slot(1), Some(RenderedInfo { img: None, num_results: Some(1) }));
    assert_eq!(
        t.slot(0).unwrap().img,
        Some(ConvertedImage::Kitty { img: MaybeTransferred::NotYet, cell_w: 5, cell_h: 5 })
    );
    assert!(on_resumed(&mut t).is_empty());
}

fn tui_with_images() -> Tui {
    let mut t = Tui::new("d".to_string(), None, false, true);
    t.set_n_pages(4);
    for p in 0..4 {
        t.page_ready(ConvertedImage::Kitty { img: MaybeTransferred::NotYet, cell_w: 5, cell_h: 5 }, p, 1);
    }
    t
}

#[test]
fn an_evicted_image_is_rendered_again_in_silence() {
    let mut t = tui_with_images();
    let result = DisplayResult {
        transferred: vec![(0, 1)],
        error: Some(DisplayError {
            pages: vec![1, 3],
            description: "Couldn't transfer image to the terminal".to_string(),
            failure: failure("evicted", true),
        }),
    };
    let out = on_display_result(&mut t, result);
    assert_eq!(out, vec![RenderNotif::PageNeedsReRender(1), RenderNotif::PageNeedsReRender(3)]);
    assert_eq!(t.status().message, "?: Show help page");
    assert_eq!(
        t.slot(0).unwrap().img,
        Some(ConvertedImage::Kitty { img: MaybeTransferred::Transferred(1), cell_w: 5, cell_h: 5 })
    );
    assert_eq!(t.slot(1), Some(RenderedInfo { img: None, num_results: Some(1) }));
    assert_eq!(
        t.slot(2).unwrap().img,
        Some(ConvertedImage::Kitty { img: MaybeTransferred::NotYet, cell_w: 5, cell_h: 5 })
    );
    assert_eq!(t.slot(3).unwrap().img, None);
}

#[test]
fn another_failure_is_shown() {
    let mut t = tui_with_images();
    let result = DisplayResult {
        transferred: vec![],
        error: Some(DisplayError {
            pages: vec![2],
            description: "Couldn't transfer image to the terminal".to_string(),
            failure: failure("broken pipe", false),
        }),
    };
    assert_eq!(on_display_result(&mut t, result), vec![RenderNotif::PageNeedsReRender(2)]);
    assert_eq!(t.status().message, "Couldn't transfer image to the terminal: broken pipe");
    let mut quiet = tui_with_images();
    assert!(on_display_result(&mut quiet, DisplayResult { transferred: vec![], error: None }).is_empty());
}

#[test]
fn actions_become_messages() {
    let r = dispatch(None);
    assert!(!r.needs_redraw && !r.quit && !r.suspend && !r.toggle_fullscreen && r.out.is_empty());
    let r = dispatch(Some(InputAction::Redraw));
    assert!(r.needs_redraw && r.out.is_empty());
    assert!(dispatch(Some(InputAction::QuitApp)).quit);
    assert!(dispatch(Some(InputAction::Suspend)).suspend);
    assert!(dispatch(Some(InputAction::Fullscreen)).toggle_fullscreen);
    assert_eq!(dispatch(Some(InputAction::JumpingToPage(3))).out, vec![
        Outgoing::ToRenderer(RenderNotif::JumpToPage(3)),
        Outgoing::ToConverter(ConverterMsg::GoToPage(3)),
    ]);
    assert_eq!(dispatch(Some(InputAction::Search("abc".to_string()))).out, vec![Outgoing::ToRenderer(
        RenderNotif::Search("abc".to_string())
    )]);
    assert_eq!(dispatch(Some(InputAction::Invert)).out, vec![Outgoing::ToRenderer(RenderNotif::Invert)]);
    assert_eq!(dispatch(Some(InputAction::Rotate)).out, vec![Outgoing::ToRenderer(RenderNotif::Rotate)]);
    assert_eq!(dispatch(Some(InputAction::SwitchRenderZoom(FitOrFill::Fill))).out, vec![
        Outgoing::ToRenderer(RenderNotif::SwitchFitOrFill(FitOrFill::Fill))
    ]);
}

#[test]
fn reports_of_the_renderer_reach_the_buffer_and_the_converter() {
    let mut t = Tui::new("d".to_string(), None, false, false);
    t.set_n_pages(10);
    t.set_page(8);
    assert_eq!(on_render_info(&mut t, Ok(RenderInfo::Reloaded)), vec![]);
    assert_eq!(t.status().message, "Document was reloaded!");
    assert_eq!(on_render_info(&mut t, Ok(RenderInfo::NumPages(5))), vec![Outgoing::ToConverter(
        ConverterMsg::NumPages(5)
    )]);
    assert_eq!(t.n_pages(), 5);
    assert_eq!(t.page, 4);
    let info = PageInfo {
        img_data: ImageData { pixels: vec![1], cell_w: 1, cell_h: 1 },
        page_num: 2,
        result_rects: vec![HighlightRect { ul_x: 0, ul_y: 0, lr_x: 1, lr_y: 1 }],
    };
    assert_eq!(on_render_info(&mut t, Ok(RenderInfo::Page(info.clone()))), vec![Outgoing::ToConverter(
        ConverterMsg::AddImg(info)
    )]);
    assert_eq!(t.slot(2), Some(RenderedInfo { img: None, num_results: Some(1) }));
    assert_eq!(on_render_info(&mut t, Ok(RenderInfo::SearchResults { page_num: 3, num_results: 6 })), vec![]);
    assert_eq!(t.slot(3), Some(RenderedInfo { img: None, num_results: Some(6) }));
    assert_eq!(on_render_info(&mut t, Err(RenderError::Doc("x".to_string()))), vec![]);
    assert_eq!(t.status().message, "Couldn't process document: x");
}

#[test]
fn results_of_the_converter_reach_the_buffer() {
    let mut t = Tui::new("d".to_string(), None, false, false);
    t.set_n_pages(3);
    let img = ConvertedImage::Generic { cell_w: 4, cell_h: 2 };
    on_converted(&mut t, Ok(ConvertedPage { page: img, num: 1, num_results: 2 }));
    assert_eq!(t.slot(1), Some(RenderedInfo { img: Some(img), num_results: Some(2) }));
    on_converted(&mut t, Err(RenderError::Converting("y".to_string())));
    assert_eq!(t.status().message, "Couldn't convert page after rendering: y");
}

#[test]
fn a_changed_layout_tells_the_renderer() {
    let a = Rect { x: 0, y: 0, width: 10, height: 10 };
    let b = Rect { x: 1, y: 1, width: 8, height: 8 };
    let old = RenderLayout { page_area: a, top_and_bottom: None };
    assert_eq!(area_changed(&old, &old), None);
    let new = RenderLayout { page_area: b, top_and_bottom: Some((a, a)) };
    assert_eq!(area_changed(&old, &new), Some(RenderNotif::Area(b)));
}
