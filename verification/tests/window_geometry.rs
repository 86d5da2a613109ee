use daily_shell::window::{
    normalize_widget_scale_percent, physical_size_to_signed, plan_widget_window,
    positioning_outcome, resolve_widget_window_logical_size, widget_window_settings, BoundsError,
    WidgetWindowStep, WindowError, MAIN_WINDOW_LABEL, WIDGET_BASE_WINDOW_HEIGHT,
    WIDGET_BASE_WINDOW_WIDTH, WIDGET_MAX_SCALE_PERCENT, WIDGET_MIN_SCALE_PERCENT,
    WIDGET_WINDOW_LABEL,
};

#[test]
fn scale_limits_are_seventy_and_three_hundred() {
    assert_eq!(WIDGET_MIN_SCALE_PERCENT, 70);
    assert_eq!(WIDGET_MAX_SCALE_PERCENT, 300);
    assert_eq!(WIDGET_BASE_WINDOW_WIDTH, 360);
    assert_eq!(WIDGET_BASE_WINDOW_HEIGHT, 760);
}

#[test]
fn scale_is_clamped_to_the_allowed_range() {
    assert_eq!(normalize_widget_scale_percent(0), 70);
    assert_eq!(normalize_widget_scale_percent(69), 70);
    assert_eq!(normalize_widget_scale_percent(70), 70);
    assert_eq!(normalize_widget_scale_percent(71), 71);
    assert_eq!(normalize_widget_scale_percent(100), 100);
    assert_eq!(normalize_widget_scale_percent(299), 299);
    assert_eq!(normalize_widget_scale_percent(300), 300);
    assert_eq!(normalize_widget_scale_percent(301), 300);
    assert_eq!(normalize_widget_scale_percent(u16::MAX), 300);
}

#[test]
fn logical_size_at_known_scales() {
    assert_eq!(resolve_widget_window_logical_size(100), (360, 760));
    assert_eq!(resolve_widget_window_logical_size(70), (252, 532));
    assert_eq!(resolve_widget_window_logical_size(300), (1080, 2280));
    assert_eq!(resolve_widget_window_logical_size(125), (450, 950));
    assert_eq!(resolve_widget_window_logical_size(71), (256, 540));
    assert_eq!(resolve_widget_window_logical_size(99), (356, 752));
}

#[test]
fn logical_size_outside_the_range_is_that_of_the_nearest_limit() {
    assert_eq!(resolve_widget_window_logical_size(0), (252, 532));
    assert_eq!(resolve_widget_window_logical_size(10), (252, 532));
    assert_eq!(resolve_widget_window_logical_size(1000), (1080, 2280));
    assert_eq!(resolve_widget_window_logical_size(u16::MAX), (1080, 2280));
}

#[test]
fn logical_size_agrees_with_rounded_real_arithmetic() {
    let mut percent: u16 = 0;
    loop {
        let clamped = percent.clamp(70, 300);
        let factor = f64::from(clamped) / 100.0;
        let expected = ((360.0 * factor).round() as i32, (760.0 * factor).round() as i32);
        assert_eq!(resolve_widget_window_logical_size(percent), expected);
        if percent == u16::MAX {
            break;
        }
        percent += 1;
    }
}

#[test]
fn logical_size_is_within_half_a_pixel_of_the_exact_quotient() {
    for percent in 70u16..=300 {
        let (width, height) = resolve_widget_window_logical_size(percent);
        let exact_width = 360 * i32::from(percent);
        let exact_height = 760 * i32::from(percent);
        assert!((100 * width - exact_width).abs() < 50);
        assert!((100 * height - exact_height).abs() < 50);
    }
}

#[test]
fn physical_size_that_fits_is_handed_on_unchanged() {
    assert_eq!(physical_size_to_signed(0, 0), Ok((0, 0)));
    assert_eq!(physical_size_to_signed(540, 1140), Ok((540, 1140)));
    assert_eq!(
        physical_size_to_signed(i32::MAX as u32, i32::MAX as u32),
        Ok((i32::MAX, i32::MAX))
    );
}

#[test]
fn physical_width_that_overflows_is_reported_first() {
    assert_eq!(
        physical_size_to_signed(i32::MAX as u32 + 1, 10),
        Err(BoundsError::WidthOverflow)
    );
    assert_eq!(physical_size_to_signed(u32::MAX, u32::MAX), Err(BoundsError::WidthOverflow));
}

#[test]
fn physical_height_that_overflows_is_reported() {
    assert_eq!(
        physical_size_to_signed(10, i32::MAX as u32 + 1),
        Err(BoundsError::HeightOverflow)
    );
    assert_eq!(physical_size_to_signed(0, u32::MAX), Err(BoundsError::HeightOverflow));
}

#[test]
fn zero_from_the_window_system_is_a_refusal() {
    assert_eq!(positioning_outcome(0), Err(BoundsError::PositioningFailed));
    assert_eq!(positioning_outcome(1), Ok(()));
    assert_eq!(positioning_outcome(-1), Ok(()));
    assert_eq!(positioning_outcome(i32::MIN), Ok(()));
}

#[test]
fn bounds_errors_have_their_messages() {
    assert_eq!(
        BoundsError::WidthOverflow.message(),
        "widget width overflow while converting to physical pixels."
    );
    assert_eq!(
        BoundsError::HeightOverflow.message(),
        "widget height overflow while converting to physical pixels."
    );
    assert_eq!(
        BoundsError::PositioningFailed.message(),
        "SetWindowPos failed while resizing widget window."
    );
}

#[test]
fn window_errors_have_their_messages() {
    assert_eq!(WindowError::MainWindowUnavailable.message(), "Main window is not available.");
    assert_eq!(
        WindowError::ResizeResultLost { detail: "receiving on a closed channel".to_string() }
            .message(),
        "failed to receive widget resize result: receiving on a closed channel"
    );
    assert_eq!(
        WindowError::CreationResultLost { detail: String::new() }.message(),
        "failed to receive widget creation result: "
    );
}

#[test]
fn widget_window_is_created_on_top_and_at_base_size() {
    let settings = widget_window_settings();
    assert_eq!(settings.label, "widget");
    assert_eq!(settings.label, WIDGET_WINDOW_LABEL);
    assert_eq!(settings.title, "Daily Widget");
    assert_eq!(settings.inner_size, (360, 760));
    assert_eq!(settings.inner_size, resolve_widget_window_logical_size(100));
    assert_eq!(settings.initialization_script, "window.__DAILY_MODE__ = 'widget';");
    assert!(!settings.transparent);
    assert!(settings.decorations);
    assert!(settings.resizable);
    assert!(settings.always_on_top);
    assert!(settings.focused);
    assert!(!settings.skip_taskbar);
    assert_eq!(MAIN_WINDOW_LABEL, "main");
}

#[test]
fn existing_widget_window_is_destroyed_before_the_new_one_is_created() {
    assert_eq!(
        plan_widget_window(true),
        vec![WidgetWindowStep::DestroyExisting, WidgetWindowStep::Create, WidgetWindowStep::Show]
    );
    assert_eq!(
        plan_widget_window(false),
        vec![WidgetWindowStep::Create, WidgetWindowStep::Show]
    );
}

#[test]
fn logical_size_does_not_shrink_when_the_scale_grows() {
    let mut previous = resolve_widget_window_logical_size(0);
    for percent in 1u16..=400 {
        let size = resolve_widget_window_logical_size(percent);
        assert!(previous.0 <= size.0 && previous.1 <= size.1);
        assert!((252..=1080).contains(&size.0));
        assert!((532..=2280).contains(&size.1));
        previous = size;
    }
}
