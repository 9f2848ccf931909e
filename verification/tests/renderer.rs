use tdf::geometry::Rect;
use tdf::renderer::{
    fill_default, search_budget_after, Flow, HighlightRect, Job, OpenNext, OpenStep, PrevRender,
    RenderError, RenderInfo, RenderNotif, Renderer, Rotation, FIRST_SEARCH_BUDGET, RETRY_PAUSE_SECS,
    SEARCH_AT_TIME,
};
use tdf::{FitOrFill, PrerenderLimit};

fn area() -> Rect {
    Rect { x: 0, y: 0, width: 80, height: 24 }
}

fn ready(pages: usize, limit: PrerenderLimit) -> Renderer {
    let mut r = Renderer::new(limit);
    r.set_n_pages(pages);
    assert_eq!(r.apply_notif(RenderNotif::Area(area())), Flow::Restart);
    r
}

fn render_all(r: &mut Renderer) -> Vec<usize> {
    let mut order = vec![];
    loop {
        match r.next_job() {
            Job::Render { page } => {
                order.push(page);
                r.page_rendered(page, vec![], 10, 10, 1, 1, vec![]);
            }
            Job::CountHits { page } => {
                order.push(page);
                r.hits_counted(page, 0);
            }
            Job::Idle | Job::WaitForArea => return order,
        }
    }
}

#[test]
fn fill_default_resets_to_the_given_size() {
    let mut v = vec![7u32, 8, 9];
    fill_default(&mut v, 5);
    assert_eq!(v, vec![0, 0, 0, 0, 0]);
    fill_default(&mut v, 0);
    assert!(v.is_empty());
    let mut p = vec![PrevRender { successful: true, num_search_found: Some(3) }];
    fill_default(&mut p, 2);
    assert_eq!(p, vec![PrevRender { successful: false, num_search_found: None }; 2]);
}

#[test]
fn renderer_waits_for_the_first_area() {
    let mut r = Renderer::new(PrerenderLimit::All);
    r.set_n_pages(4);
    assert_eq!(r.next_job(), Job::WaitForArea);
    assert_eq!(r.area(), None);
    r.apply_notif(RenderNotif::Area(area()));
    assert_eq!(r.area(), Some(area()));
    assert_eq!(r.next_job(), Job::Render { page: 0 });
}

#[test]
fn renderer_renders_every_page_once_around_the_start() {
    let mut r = ready(6, PrerenderLimit::All);
    assert_eq!(r.apply_notif(RenderNotif::JumpToPage(3)), Flow::Restart);
    assert_eq!(render_all(&mut r), vec![3, 4, 2, 5, 1, 0]);
    assert_eq!(r.next_job(), Job::Idle);
    for p in 0..6 {
        assert_eq!(r.page_state(p), Some(PrevRender { successful: true, num_search_found: Some(0) }));
    }
    assert_eq!(r.page_state(6), None);
}

#[test]
fn renderer_respects_the_prerender_limit() {
    let mut r = ready(10, PrerenderLimit::Limited(3));
    r.apply_notif(RenderNotif::JumpToPage(5));
    assert_eq!(render_all(&mut r), vec![5, 6, 4]);
}

#[test]
fn renderer_with_an_empty_document_is_idle() {
    let mut r = ready(0, PrerenderLimit::All);
    assert_eq!(r.n_pages(), 0);
    assert_eq!(r.next_job(), Job::Idle);
}

#[test]
fn reload_changes_nothing_and_breaks_out() {
    let mut r = ready(3, PrerenderLimit::All);
    assert_eq!(r.next_job(), Job::Render { page: 0 });
    assert_eq!(r.apply_notif(RenderNotif::Reload), Flow::Reload);
    assert_eq!(r.next_job(), Job::Render { page: 1 });
}

#[test]
fn a_new_area_renders_everything_again() {
    let mut r = ready(3, PrerenderLimit::All);
    assert_eq!(render_all(&mut r), vec![0, 1, 2]);
    let wide = Rect { x: 0, y: 0, width: 120, height: 24 };
    r.apply_notif(RenderNotif::Area(wide));
    assert_eq!(r.area(), Some(wide));
    assert_eq!(r.page_state(1), Some(PrevRender { successful: false, num_search_found: Some(0) }));
    assert_eq!(render_all(&mut r), vec![0, 1, 2]);
}

#[test]
fn invert_and_rotate_render_everything_again() {
    let mut r = ready(2, PrerenderLimit::All);
    render_all(&mut r);
    assert!(!r.invert());
    r.apply_notif(RenderNotif::Invert);
    assert!(r.invert());
    assert_eq!(render_all(&mut r), vec![0, 1]);
    assert_eq!(r.rotation(), Rotation::Deg0);
    r.apply_notif(RenderNotif::Rotate);
    assert_eq!(r.rotation(), Rotation::Deg90);
    assert_eq!(render_all(&mut r), vec![0, 1]);
    r.apply_notif(RenderNotif::Rotate);
    r.apply_notif(RenderNotif::Rotate);
    r.apply_notif(RenderNotif::Rotate);
    assert_eq!(r.rotation(), Rotation::Deg0);
}

#[test]
fn switching_to_the_same_fit_renders_nothing_again() {
    let mut r = ready(2, PrerenderLimit::All);
    render_all(&mut r);
    assert_eq!(r.fit_or_fill(), FitOrFill::Fit);
    r.apply_notif(RenderNotif::SwitchFitOrFill(FitOrFill::Fit));
    assert_eq!(render_all(&mut r), Vec::<usize>::new());
    r.apply_notif(RenderNotif::SwitchFitOrFill(FitOrFill::Fill));
    assert_eq!(r.fit_or_fill(), FitOrFill::Fill);
    assert_eq!(render_all(&mut r), vec![0, 1]);
}

#[test]
fn a_jump_keeps_what_is_rendered() {
    let mut r = ready(4, PrerenderLimit::All);
    render_all(&mut r);
    r.apply_notif(RenderNotif::JumpToPage(2));
    assert_eq!(render_all(&mut r), Vec::<usize>::new());
    r.apply_notif(RenderNotif::JumpToPage(9));
    assert_eq!(r.next_job(), Job::Idle);
}

#[test]
fn a_forced_page_comes_first() {
    let mut r = ready(5, PrerenderLimit::All);
    assert_eq!(r.next_job(), Job::Render { page: 0 });
    r.page_rendered(0, vec![], 10, 10, 1, 1, vec![]);
    r.apply_notif(RenderNotif::PageNeedsReRender(3));
    r.apply_notif(RenderNotif::PageNeedsReRender(0));
    assert_eq!(r.page_state(0), Some(PrevRender { successful: false, num_search_found: Some(0) }));
    assert_eq!(r.next_job(), Job::Render { page: 3 });
    assert_eq!(r.next_job(), Job::Render { page: 0 });
    assert_eq!(r.next_job(), Job::Render { page: 0 });
    r.apply_notif(RenderNotif::PageNeedsReRender(77));
    assert_eq!(r.next_job(), Job::Render { page: 0 });
}

#[test]
fn a_failed_page_is_not_tried_again_in_the_same_pass() {
    let mut r = ready(3, PrerenderLimit::All);
    assert_eq!(r.next_job(), Job::Render { page: 0 });
    r.page_failed(0);
    assert_eq!(r.next_job(), Job::Render { page: 1 });
    r.page_rendered(1, vec![], 10, 10, 1, 1, vec![]);
    assert_eq!(r.next_job(), Job::Render { page: 2 });
    r.page_rendered(2, vec![], 10, 10, 1, 1, vec![]);
    assert_eq!(r.next_job(), Job::Idle);
    assert_eq!(r.page_state(0), Some(PrevRender { successful: false, num_search_found: None }));
    r.apply_notif(RenderNotif::JumpToPage(0));
    assert_eq!(r.next_job(), Job::Render { page: 0 });
}

#[test]
fn a_new_term_forgets_every_count() {
    let mut r = ready(3, PrerenderLimit::All);
    render_all(&mut r);
    r.apply_notif(RenderNotif::Search("abc".to_string()));
    assert_eq!(r.search_term(), Some("abc".to_string()));
    for p in 0..3 {
        assert_eq!(r.page_state(p), Some(PrevRender { successful: true, num_search_found: None }));
    }
}

#[test]
fn a_page_without_hits_is_not_rendered_again() {
    let mut r = ready(3, PrerenderLimit::All);
    render_all(&mut r);
    r.apply_notif(RenderNotif::Search("abc".to_string()));
    assert_eq!(r.next_job(), Job::Render { page: 0 });
    assert!(!r.needs_render_after_search(0, 0));
    assert_eq!(r.page_state(0), Some(PrevRender { successful: true, num_search_found: Some(0) }));
    assert_eq!(r.next_job(), Job::Render { page: 1 });
    assert!(r.needs_render_after_search(1, 2));
    assert_eq!(r.page_state(1), Some(PrevRender { successful: true, num_search_found: None }));
}

#[test]
fn dropping_the_term_resets_only_pages_with_hits() {
    let mut r = ready(3, PrerenderLimit::All);
    r.apply_notif(RenderNotif::Search("zzz".to_string()));
    let hit = HighlightRect { ul_x: 1, ul_y: 1, lr_x: 5, lr_y: 5 };
    assert_eq!(r.next_job(), Job::Render { page: 0 });
    r.page_rendered(0, vec![], 10, 10, 1, 1, vec![hit]);
    assert_eq!(r.next_job(), Job::Render { page: 1 });
    r.page_rendered(1, vec![], 10, 10, 1, 1, vec![]);
    assert_eq!(r.next_job(), Job::Render { page: 2 });
    r.page_rendered(2, vec![], 10, 10, 1, 1, vec![hit, hit]);
    r.apply_notif(RenderNotif::Search(String::new()));
    assert_eq!(r.search_term(), None);
    assert_eq!(r.page_state(0), Some(PrevRender { successful: false, num_search_found: None }));
    assert_eq!(r.page_state(1), Some(PrevRender { successful: true, num_search_found: Some(0) }));
    assert_eq!(r.page_state(2), Some(PrevRender { successful: false, num_search_found: None }));
    assert_eq!(render_all(&mut r), vec![0, 2]);
}

#[test]
fn the_search_goes_round_behind_the_render_pass() {
    let mut r = ready(30, PrerenderLimit::Limited(2));
    r.apply_notif(RenderNotif::JumpToPage(28));
    r.apply_notif(RenderNotif::Search("abc".to_string()));
    let mut rendered = vec![];
    let mut counted = vec![];
    loop {
        match r.next_job() {
            Job::Render { page } => {
                rendered.push(page);
                r.page_rendered(page, vec![], 10, 10, 1, 1, vec![]);
            }
            Job::CountHits { page } => {
                counted.push(page);
                r.hits_counted(page, 1);
            }
            _ => break,
        }
    }
    assert_eq!(rendered.len(), SEARCH_AT_TIME);
    assert_eq!(&rendered[..5], &[28, 29, 27, 0, 26]);
    assert_eq!(counted, (9..19).collect::<Vec<_>>());
    assert_eq!(counted.last(), Some(&18));
    let mut all: Vec<usize> = rendered.iter().chain(counted.iter()).copied().collect();
    all.sort();
    assert_eq!(all, (0..30).collect::<Vec<_>>());
    assert_eq!(r.page_state(12), Some(PrevRender { successful: false, num_search_found: Some(1) }));
}

#[test]
fn a_rendered_page_reports_its_rects_inside_the_image() {
    let mut r = ready(2, PrerenderLimit::All);
    r.apply_notif(RenderNotif::Search("abc".to_string()));
    let rects = vec![
        HighlightRect { ul_x: 1, ul_y: 2, lr_x: 3, lr_y: 4 },
        HighlightRect { ul_x: 90, ul_y: 2, lr_x: 300, lr_y: 400 },
    ];
    let info = r.page_rendered(1, vec![1, 2, 3], 100, 50, 7, 9, rects);
    match info {
        RenderInfo::Page(p) => {
            assert_eq!(p.page_num, 1);
            assert_eq!(p.img_data.pixels, vec![1, 2, 3]);
            assert_eq!((p.img_data.cell_w, p.img_data.cell_h), (7, 9));
            assert_eq!(p.result_rects, vec![
                HighlightRect { ul_x: 1, ul_y: 2, lr_x: 3, lr_y: 4 },
                HighlightRect { ul_x: 90, ul_y: 2, lr_x: 100, lr_y: 50 },
            ]);
        }
        other => panic!("unexpected report {other:?}"),
    }
    assert_eq!(r.page_state(1), Some(PrevRender { successful: true, num_search_found: Some(2) }));
}

#[test]
fn without_a_term_a_page_reports_no_rects() {
    let mut r = ready(1, PrerenderLimit::All);
    let info = r.page_rendered(0, vec![], 10, 10, 1, 1, vec![HighlightRect { ul_x: 0, ul_y: 0, lr_x: 1, lr_y: 1 }]);
    match info {
        RenderInfo::Page(p) => assert!(p.result_rects.is_empty()),
        other => panic!("unexpected report {other:?}"),
    }
    assert_eq!(r.page_state(0), Some(PrevRender { successful: true, num_search_found: Some(0) }));
}

#[test]
fn highlight_rect_clamp_pulls_corners_to_the_edge() {
    let r = HighlightRect { ul_x: 5, ul_y: 700, lr_x: 900, lr_y: 20 };
    assert_eq!(r.clamp(100, 50), HighlightRect { ul_x: 5, ul_y: 50, lr_x: 100, lr_y: 50 });
    let turned = HighlightRect { ul_x: 30, ul_y: 4, lr_x: 10, lr_y: 9 };
    assert_eq!(turned.clamp(100, 50), HighlightRect { ul_x: 30, ul_y: 4, lr_x: 30, lr_y: 9 });
    let fine = HighlightRect { ul_x: 1, ul_y: 2, lr_x: 3, lr_y: 4 };
    assert_eq!(fine.clamp(100, 50), fine);
}

#[test]
fn search_budget_doubles_until_fewer_are_found() {
    assert_eq!(FIRST_SEARCH_BUDGET, 10);
    assert_eq!(search_budget_after(10, 9), None);
    assert_eq!(search_budget_after(10, 10), Some(20));
    assert_eq!(search_budget_after(20, 31), Some(40));
    assert_eq!(search_budget_after(u32::MAX / 2 + 1, usize::MAX), Some(u32::MAX));
    assert_eq!(search_budget_after(u32::MAX, usize::MAX), None);
}

#[test]
fn prerender_limit_from_count() {
    assert_eq!(PrerenderLimit::from_count(None), PrerenderLimit::All);
    assert_eq!(PrerenderLimit::from_count(Some(0)), PrerenderLimit::All);
    assert_eq!(PrerenderLimit::from_count(Some(7)), PrerenderLimit::Limited(7));
}

#[test]
fn a_first_open_reports_the_page_count() {
    let mut r = Renderer::new(PrerenderLimit::All);
    assert_eq!(r.on_open(false, Ok(10)), OpenStep {
        reports: vec![Ok(RenderInfo::NumPages(10))],
        next: OpenNext::Render
    });
    assert_eq!(r.n_pages(), 10);
}

#[test]
fn a_reload_is_reported_before_the_page_count() {
    let mut r = ready(10, PrerenderLimit::All);
    render_all(&mut r);
    r.apply_notif(RenderNotif::JumpToPage(7));
    assert_eq!(r.on_open(true, Ok(5)), OpenStep {
        reports: vec![Ok(RenderInfo::Reloaded), Ok(RenderInfo::NumPages(5))],
        next: OpenNext::Render
    });
    assert_eq!(r.n_pages(), 5);
    assert_eq!(r.area(), Some(area()));
    assert_eq!(render_all(&mut r), vec![0, 1, 4, 2, 3]);
}

#[test]
fn a_failed_open_keeps_the_document_that_was_open() {
    let mut r = ready(3, PrerenderLimit::All);
    render_all(&mut r);
    assert_eq!(r.on_open(true, Err("gone".to_string())), OpenStep {
        reports: vec![Err(RenderError::Doc("gone".to_string()))],
        next: OpenNext::Render
    });
    assert_eq!(r.n_pages(), 3);
    assert_eq!(r.page_state(1), Some(PrevRender { successful: true, num_search_found: Some(0) }));
}

#[test]
fn a_failed_first_open_waits_for_a_reload() {
    let mut r = Renderer::new(PrerenderLimit::All);
    assert_eq!(r.on_open(false, Err("gone".to_string())), OpenStep {
        reports: vec![Err(RenderError::Doc("gone".to_string()))],
        next: OpenNext::WaitForReload
    });
    assert!(Renderer::ends_wait(&RenderNotif::Reload));
    assert!(!Renderer::ends_wait(&RenderNotif::Invert));
    assert!(!Renderer::ends_wait(&RenderNotif::Area(area())));
}

#[test]
fn a_document_without_pages_is_opened_again_after_a_pause() {
    let mut r = Renderer::new(PrerenderLimit::All);
    assert_eq!(RETRY_PAUSE_SECS, 1);
    assert_eq!(r.on_open(false, Ok(0)), OpenStep {
        reports: vec![Ok(RenderInfo::NumPages(0))],
        next: OpenNext::RetryAfterPause
    });
    assert_eq!(r.on_open(true, Ok(0)).next, OpenNext::RetryAfterPause);
}

#[test]
fn after_the_term_is_dropped_exactly_the_pages_with_hits_come_again() {
    let mut r = ready(6, PrerenderLimit::All);
    r.apply_notif(RenderNotif::Search("x".to_string()));
    let hit = HighlightRect { ul_x: 1, ul_y: 1, lr_x: 5, lr_y: 5 };
    loop {
        match r.next_job() {
            Job::Render { page } => {
                let rects = if page % 2 == 1 { vec![hit] } else { vec![] };
                r.page_rendered(page, vec![], 10, 10, 1, 1, rects);
            }
            Job::CountHits { page } => r.hits_counted(page, 0),
            _ => break,
        }
    }
    r.apply_notif(RenderNotif::JumpToPage(4));
    r.apply_notif(RenderNotif::Search(String::new()));
    let mut again = vec![];
    while let Job::Render { page } = r.next_job() {
        again.push(page);
        match r.page_rendered(page, vec![], 10, 10, 1, 1, vec![hit]) {
            RenderInfo::Page(info) => assert!(info.result_rects.is_empty()),
            other => panic!("unexpected report {other:?}"),
        }
    }
    assert_eq!(again, vec![5, 3, 1]);
    assert_eq!(r.next_job(), Job::Idle);
}
