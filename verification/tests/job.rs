use webshot::error::{AppError, Failure};
use webshot::job::{image_reply, Action, Event, Job, JobKind, Stage, LIFECYCLE_WAIT_SECS};
use webshot::v1::{Target, Viewport};

fn headers() -> Option<Vec<(String, String)>> {
    Some(vec![("X-Test".to_string(), "1".to_string())])
}

fn vp() -> Viewport {
    Viewport { width: 1200, height: 600 }
}

/// Drives a job through the steps that precede loading its content.
fn up_to_loading(job: Job, headers: bool) -> Job {
    let (job, a) = job.step(Event::Succeeded);
    assert!(matches!(a, Action::OpenPage));
    let (job, a) = job.step(Event::Succeeded);
    assert!(matches!(a, Action::SetViewport { width: 1200, height: 600 }));
    let job = if headers {
        let (job, a) = job.step(Event::Succeeded);
        match a {
            Action::SetExtraHeaders(h) => assert_eq!(h, vec![("X-Test".to_string(), "1".to_string())]),
            other => panic!("unexpected {:?}", other),
        }
        job
    } else {
        job
    };
    let (job, a) = job.step(Event::Succeeded);
    assert!(matches!(a, Action::EnableLifecycleEvents));
    let (job, a) = job.step(Event::Succeeded);
    assert!(matches!(a, Action::ListenLifecycle));
    job
}

#[test]
fn render_success_path() {
    let (job, a) = Job::render(vp(), None, "<h1>Hello World</h1>".to_string());
    assert!(matches!(a, Action::CreateContext));
    assert_eq!(job.stage, Stage::CreatingContext);
    let job = up_to_loading(job, false);
    let (job, a) = job.step(Event::Succeeded);
    match a {
        Action::SetContent(html) => assert_eq!(html, "<h1>Hello World</h1>"),
        other => panic!("unexpected {:?}", other),
    }
    let (job, a) = job.step(Event::Succeeded);
    assert!(matches!(a, Action::NextLifecycleEvent { start_clock: true }));
    let (job, a) = job.step(Event::Lifecycle("DOMContentLoaded".to_string()));
    assert!(matches!(a, Action::NextLifecycleEvent { start_clock: false }));
    assert_eq!(job.stage, Stage::Waiting);
    let (job, a) = job.step(Event::Lifecycle("load".to_string()));
    assert!(matches!(a, Action::Screenshot(Target::Viewport)));
    let (job, a) = job.step(Event::Image(vec![1, 2, 3]));
    assert!(matches!(a, Action::ClosePage));
    let (job, a) = job.step(Event::Failed);
    assert!(matches!(a, Action::DisposeContext));
    let (job, a) = job.step(Event::Failed);
    match a {
        Action::Finish(Ok(img)) => assert_eq!(img, vec![1, 2, 3]),
        other => panic!("unexpected {:?}", other),
    }
    assert_eq!(job.stage, Stage::Finished);
    let (_, a) = job.step(Event::Succeeded);
    assert!(matches!(a, Action::Halt));
}

#[test]
fn render_with_headers_sets_them() {
    let (job, _) = Job::render(vp(), headers(), "x".to_string());
    let job = up_to_loading(job, true);
    assert_eq!(job.stage, Stage::Listening);
}

#[test]
fn wait_ends_on_timeout() {
    let (job, _) = Job::render(vp(), None, "x".to_string());
    let job = up_to_loading(job, false);
    let (job, _) = job.step(Event::Succeeded);
    let (job, _) = job.step(Event::Succeeded);
    let (job, a) = job.step(Event::WaitOver);
    assert!(matches!(a, Action::Screenshot(Target::Viewport)));
    assert_eq!(job.stage, Stage::Shooting);
    assert_eq!(LIFECYCLE_WAIT_SECS, 10);
}

#[test]
fn render_waits_for_load_not_network_idle() {
    let (job, _) = Job::render(vp(), None, "x".to_string());
    let job = up_to_loading(job, false);
    let (job, _) = job.step(Event::Succeeded);
    let (job, _) = job.step(Event::Succeeded);
    let (job, _) = job.step(Event::Lifecycle("networkIdle".to_string()));
    assert_eq!(job.stage, Stage::Waiting);
}

#[test]
fn render_screenshot_failure_is_reported() {
    let (job, _) = Job::render(vp(), None, "x".to_string());
    let job = up_to_loading(job, false);
    let (job, _) = job.step(Event::Succeeded);
    let (job, _) = job.step(Event::Succeeded);
    let (job, _) = job.step(Event::WaitOver);
    let (job, a) = job.step(Event::Failed);
    assert!(matches!(a, Action::ClosePage));
    let (job, _) = job.step(Event::Succeeded);
    let (_, a) = job.step(Event::Succeeded);
    assert!(matches!(a, Action::Finish(Err(AppError::Internal(Failure::Screenshot)))));
}

#[test]
fn set_content_failure_is_reported() {
    let (job, _) = Job::render(vp(), None, "x".to_string());
    let job = up_to_loading(job, false);
    let (job, _) = job.step(Event::Succeeded);
    let (job, a) = job.step(Event::Failed);
    assert!(matches!(a, Action::ClosePage));
    let (job, _) = job.step(Event::Succeeded);
    let (_, a) = job.step(Event::Succeeded);
    assert!(matches!(a, Action::Finish(Err(AppError::Internal(Failure::SetContent)))));
}

#[test]
fn context_failure_finishes_at_once() {
    let (job, _) = Job::render(vp(), None, "x".to_string());
    let (job, a) = job.step(Event::Failed);
    assert!(matches!(a, Action::Finish(Err(AppError::Internal(Failure::CreateBrowserContext)))));
    assert_eq!(job.stage, Stage::Finished);
}

#[test]
fn page_failure_discards_the_context() {
    let (job, _) = Job::capture(vp(), None, Target::Page, "https://example.com/".to_string());
    let (job, _) = job.step(Event::Succeeded);
    let (job, a) = job.step(Event::Failed);
    assert!(matches!(a, Action::DiscardContext));
    let (_, a) = job.step(Event::Failed);
    assert!(matches!(a, Action::Finish(Err(AppError::Internal(Failure::CreatePage)))));
}

#[test]
fn viewport_failure_closes_the_page() {
    let (job, _) = Job::render(vp(), headers(), "x".to_string());
    let (job, _) = job.step(Event::Succeeded);
    let (job, _) = job.step(Event::Succeeded);
    let (job, a) = job.step(Event::Failed);
    assert!(matches!(a, Action::ClosePage));
    let (job, a) = job.step(Event::Succeeded);
    assert!(matches!(a, Action::DisposeContext));
    let (_, a) = job.step(Event::Succeeded);
    assert!(matches!(a, Action::Finish(Err(AppError::Internal(Failure::ConfigureViewport)))));
}

#[test]
fn header_and_listener_failures_are_reported() {
    let (job, _) = Job::render(vp(), headers(), "x".to_string());
    let (job, _) = job.step(Event::Succeeded);
    let (job, _) = job.step(Event::Succeeded);
    let (job, _) = job.step(Event::Succeeded);
    let (job, _) = job.step(Event::Failed);
    assert_eq!(job.outcome, Some(Err(AppError::Internal(Failure::ConfigureExtraHeaders))));

    let (job, _) = Job::render(vp(), None, "x".to_string());
    let (job, _) = job.step(Event::Succeeded);
    let (job, _) = job.step(Event::Succeeded);
    let (job, _) = job.step(Event::Succeeded);
    let (job, _) = job.step(Event::Failed);
    assert_eq!(job.outcome, Some(Err(AppError::Internal(Failure::EnableLifecycleEvents))));

    let (job, _) = Job::render(vp(), None, "x".to_string());
    let (job, _) = job.step(Event::Succeeded);
    let (job, _) = job.step(Event::Succeeded);
    let (job, _) = job.step(Event::Succeeded);
    let (job, _) = job.step(Event::Succeeded);
    let (job, _) = job.step(Event::Failed);
    assert_eq!(job.outcome, Some(Err(AppError::Internal(Failure::CreateEventListener))));
}

#[test]
fn capture_success_path() {
    let target = Target::Element { locator: "#chart".to_string() };
    let (job, _) = Job::capture(vp(), None, target, "https://example.com/".to_string());
    assert_eq!(job.kind, JobKind::Capture);
    let job = up_to_loading(job, false);
    let (job, a) = job.step(Event::Succeeded);
    match a {
        Action::Navigate(url) => assert_eq!(url, "https://example.com/"),
        other => panic!("unexpected {:?}", other),
    }
    let (job, _) = job.step(Event::Succeeded);
    let (job, a) = job.step(Event::Lifecycle("load".to_string()));
    assert!(matches!(a, Action::NextLifecycleEvent { start_clock: false }));
    let (job, a) = job.step(Event::Lifecycle("networkIdle".to_string()));
    match a {
        Action::Screenshot(Target::Element { locator }) => assert_eq!(locator, "#chart"),
        other => panic!("unexpected {:?}", other),
    }
    let (job, _) = job.step(Event::Image(vec![9]));
    let (job, _) = job.step(Event::Succeeded);
    let (_, a) = job.step(Event::Succeeded);
    assert!(matches!(a, Action::Finish(Ok(ref img)) if img == &vec![9u8]));
}

#[test]
fn capture_navigation_failure_falls_back() {
    let (job, _) = Job::capture(vp(), None, Target::Viewport, "https://example.com/".to_string());
    let job = up_to_loading(job, false);
    let (job, _) = job.step(Event::Succeeded);
    let (job, a) = job.step(Event::Failed);
    assert!(matches!(a, Action::FallbackScreenshot));
    let (job, a) = job.step(Event::Image(vec![7]));
    assert!(matches!(a, Action::ClosePage));
    let (job, _) = job.step(Event::Succeeded);
    let (_, a) = job.step(Event::Succeeded);
    assert!(matches!(a, Action::Finish(Err(AppError::Internal(Failure::Capture)))));
}

#[test]
fn capture_screenshot_failure_falls_back() {
    let (job, _) = Job::capture(vp(), None, Target::Page, "https://example.com/".to_string());
    let job = up_to_loading(job, false);
    let (job, _) = job.step(Event::Succeeded);
    let (job, _) = job.step(Event::Succeeded);
    let (job, _) = job.step(Event::WaitOver);
    let (job, a) = job.step(Event::Failed);
    assert!(matches!(a, Action::FallbackScreenshot));
    let (job, _) = job.step(Event::Failed);
    assert_eq!(job.outcome, Some(Err(AppError::Internal(Failure::Capture))));
}

#[test]
fn image_reply_is_png() {
    let r = image_reply(vec![137, 80, 78, 71]);
    assert_eq!(r.status, 200);
    assert_eq!(r.content_type, "image/png");
    assert_eq!(r.body, vec![137, 80, 78, 71]);
}
