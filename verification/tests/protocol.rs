use pixel_adjust::Error;
use pixel_adjust::plugin::{
    Command, Disposition, PixelFormat, about_message, can_load, dispatch, param_name,
    params_setup, supported_formats,
};
use pixel_adjust::render::{
    CheckoutResult, PreRenderOutput, Rect, SmartAction, SmartRender, pre_render, union_rect,
};

#[test]
fn dispatch_selects_one_behavior_per_command() {
    assert_eq!(dispatch(Command::About), Disposition::ReturnAboutText);
    assert_eq!(dispatch(Command::GlobalSetup), Disposition::DeclareFormats);
    assert_eq!(dispatch(Command::Render), Disposition::RunRender);
    assert_eq!(dispatch(Command::SmartPreRender), Disposition::NegotiatePreRender);
    assert_eq!(dispatch(Command::SmartRender), Disposition::RunSmartRender);
    // Unhandled commands are explicitly ignored, not an error.
    assert_eq!(dispatch(Command::Other), Disposition::Ignore);
}

#[test]
fn plugin_loads_on_any_host() {
    assert!(can_load("AE", "1.0"));
    assert!(can_load("", ""));
}

#[test]
fn about_text_is_static() {
    assert_eq!(about_message(), "{{display-name}}\r{{copyright}}\r{{description}}");
}

#[test]
fn amount_parameter_is_a_percent_slider() {
    let p = params_setup();
    assert_eq!(p.valid_min, 0);
    assert_eq!(p.valid_max, 100);
    assert_eq!(p.slider_min, 0);
    assert_eq!(p.slider_max, 100);
    assert_eq!(p.default, 50);
    assert_eq!(p.precision, 2);
    assert!(p.percent_display);
    assert_eq!(param_name(), "Example");
}

#[test]
fn formats_are_declared_most_preferred_first_on_premiere_only() {
    let v = supported_formats(true).expect("the secondary host gets a format list");
    assert_eq!(v, vec![PixelFormat::Bgra32f, PixelFormat::Bgra16u, PixelFormat::Bgra8u]);
    assert!(supported_formats(false).is_none());
}

#[test]
fn union_covers_both_rects_and_ignores_empty_ones() {
    let a = Rect { left: 0, top: 0, right: 10, bottom: 5 };
    let b = Rect { left: -3, top: 2, right: 4, bottom: 9 };
    assert_eq!(union_rect(a, b), Rect { left: -3, top: 0, right: 10, bottom: 9 });
    let empty = Rect { left: 7, top: 7, right: 7, bottom: 7 };
    assert_eq!(union_rect(a, empty), a);
    assert_eq!(union_rect(empty, b), b);
}

#[test]
fn pre_render_unions_the_checked_out_rects() {
    let mut response = PreRenderOutput {
        result_rect: Rect { left: 0, top: 0, right: 4, bottom: 4 },
        max_result_rect: Rect { left: 0, top: 0, right: 8, bottom: 8 },
    };
    let checkout = CheckoutResult {
        result_rect: Rect { left: 2, top: -2, right: 6, bottom: 3 },
        max_result_rect: Rect { left: -1, top: 0, right: 16, bottom: 2 },
    };
    assert_eq!(pre_render(Some(checkout), &mut response), Ok(()));
    assert_eq!(response.result_rect, Rect { left: 0, top: -2, right: 6, bottom: 4 });
    assert_eq!(response.max_result_rect, Rect { left: -1, top: 0, right: 16, bottom: 8 });
}

#[test]
fn pre_render_checkout_failure_cancels_untouched() {
    let before = PreRenderOutput {
        result_rect: Rect { left: 1, top: 2, right: 3, bottom: 4 },
        max_result_rect: Rect { left: 5, top: 6, right: 7, bottom: 8 },
    };
    let mut response = before;
    assert_eq!(pre_render(None, &mut response), Err(Error::InterruptCancel));
    assert_eq!(response, before);
}

#[test]
fn smart_render_happy_path_checks_in_once() {
    let mut m = SmartRender::new();
    assert_eq!(m.action, SmartAction::CheckoutPixels);
    m.on_pixels(Ok(()));
    assert_eq!(m.action, SmartAction::CheckoutOutput);
    m.on_output(Ok(()));
    assert_eq!(m.action, SmartAction::ReadAmount);
    m.on_amount(Ok(()));
    assert_eq!(m.action, SmartAction::Iterate);
    m.on_iterated(Ok(()));
    assert_eq!(m.action, SmartAction::CheckinPixels);
    m.on_checked_in(Ok(()));
    assert_eq!(m.action, SmartAction::Finished);
    assert_eq!(m.outcome(), Ok(()));
    assert_eq!(m.checkins, 1);
}

#[test]
fn smart_render_iteration_failure_still_checks_in_exactly_once() {
    let mut m = SmartRender::new();
    m.on_pixels(Ok(()));
    m.on_output(Ok(()));
    m.on_amount(Ok(()));
    m.on_iterated(Err(Error::BadCallbackParameter));
    // The failure does not skip the checkin.
    assert_eq!(m.action, SmartAction::CheckinPixels);
    m.on_checked_in(Ok(()));
    assert_eq!(m.action, SmartAction::Finished);
    assert_eq!(m.outcome(), Err(Error::BadCallbackParameter));
    assert_eq!(m.checkins, 1);
}

#[test]
fn smart_render_output_checkout_failure_still_checks_in() {
    let mut m = SmartRender::new();
    m.on_pixels(Ok(()));
    m.on_output(Err(Error::Host(-1)));
    assert_eq!(m.action, SmartAction::CheckinPixels);
    m.on_checked_in(Ok(()));
    assert_eq!(m.outcome(), Err(Error::Host(-1)));
    assert_eq!(m.checkins, 1);
}

#[test]
fn smart_render_parameter_failure_still_checks_in() {
    let mut m = SmartRender::new();
    m.on_pixels(Ok(()));
    m.on_output(Ok(()));
    m.on_amount(Err(Error::Host(-3)));
    assert_eq!(m.action, SmartAction::CheckinPixels);
    m.on_checked_in(Ok(()));
    assert_eq!(m.outcome(), Err(Error::Host(-3)));
    assert_eq!(m.checkins, 1);
}

#[test]
fn smart_render_failed_checkout_checks_nothing_in() {
    let mut m = SmartRender::new();
    m.on_pixels(Err(Error::Host(-7)));
    assert_eq!(m.action, SmartAction::Finished);
    assert_eq!(m.outcome(), Err(Error::Host(-7)));
    assert_eq!(m.checkins, 0);
}

#[test]
fn smart_render_first_failure_wins_over_checkin_failure() {
    let mut m = SmartRender::new();
    m.on_pixels(Ok(()));
    m.on_output(Ok(()));
    m.on_amount(Ok(()));
    m.on_iterated(Err(Error::InterruptCancel));
    m.on_checked_in(Err(Error::Host(-9)));
    assert_eq!(m.outcome(), Err(Error::InterruptCancel));
}

#[test]
fn smart_render_checkin_failure_is_reported() {
    let mut m = SmartRender::new();
    m.on_pixels(Ok(()));
    m.on_output(Ok(()));
    m.on_amount(Ok(()));
    m.on_iterated(Ok(()));
    m.on_checked_in(Err(Error::Host(-2)));
    assert_eq!(m.outcome(), Err(Error::Host(-2)));
    assert_eq!(m.checkins, 1);
}
