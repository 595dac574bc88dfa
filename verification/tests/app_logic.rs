use iced_lens::editor::{
    handle_editor_event, handle_metadata_panel_event, metadata_write_notice, save_notices,
    EditorAction, EditorEvent, ImageSource, MetadataPanelAction, MetadataPanelEvent,
};
use iced_lens::models::{
    on_download_completed, on_model_disabled, on_validation_completed, processing_notice,
    rgba_size_bytes, AiModel, AiOperation, Notice,
};
use iced_lens::navigation::{MediaNavigator, NavigationDirection, NavigationMode};
use iced_lens::persisted_state::AppState;
use iced_lens::retry::{after_load_failure, failed_file_label, skipped_files_to_report, SkipDecision, SkipProgress};
use iced_lens::screen::{needs_tick, route_event, EventKind, EventRoute};
use iced_lens::settings::{handle_settings_event, SettingsEvent};
use iced_lens::config::{SortOrder, ThemeMode, BackgroundTheme};
use iced_lens::download::{download_step, DownloadEvent, DownloadMessage, DownloadPhase};
use iced_lens::filter::{
    DateField, DateRangeFilter, DateTarget, FilterChange, FilterChangeRecord, MediaFilter,
    MediaTypeFilter,
};
use iced_lens::media_list::MediaEntry;
use iced_lens::notifications::{format_skipped_files_message, skipped_others_count, truncate_filename};
use iced_lens::screen::{
    get_display_title, handle_navbar_event, handle_screen_switch, has_any_unsaved_changes,
    is_light_theme, screen_after_back_request, screen_after_editor_creation, window_title, Flags,
    NavbarAction, NavbarEvent, Screen, ScreenAction, ViewerContent, WindowState, ZoomStepCommit,
};
use iced_lens::startup::{
    deferred_validation, startup_media, startup_model_status, startup_scan, startup_settings,
    use_ai_upscale, ConfiguredValues, ModelStatus, ScanReport, StartupScan,
};

fn title(captured: Option<&str>, dc: Option<&str>, path: Option<&str>, unsaved: bool) -> String {
    let t = get_display_title(captured, dc, path);
    window_title(t.as_deref(), unsaved, "IcedLens")
}

#[test]
fn title_shows_app_name_when_no_media_loaded() {
    assert_eq!(title(None, None, None, false), "IcedLens");
}

#[test]
fn title_shows_filename_when_media_loaded() {
    assert_eq!(title(None, None, Some("/path/to/image.jpg"), false), "image.jpg - IcedLens");
}

#[test]
fn title_shows_asterisk_when_editor_has_unsaved_changes() {
    let clean = has_any_unsaved_changes(false, false, false);
    assert_eq!(title(None, None, Some("/tmp/x/test.png"), clean), "test.png - IcedLens");
    let dirty = has_any_unsaved_changes(false, true, false);
    assert_eq!(title(None, None, Some("/tmp/x/test.png"), dirty), "*test.png - IcedLens");
}

#[test]
fn title_shows_new_image_for_captured_frame() {
    let unsaved = has_any_unsaved_changes(true, false, false);
    assert_eq!(
        title(Some("New Image"), None, Some("/path/to/video.mp4"), unsaved),
        "New Image - IcedLens"
    );
}

#[test]
fn title_shows_new_image_for_captured_frame_even_with_changes() {
    let unsaved = has_any_unsaved_changes(true, true, false);
    assert_eq!(
        title(Some("New Image"), None, Some("/path/to/video.mp4"), unsaved),
        "New Image - IcedLens"
    );
}

#[test]
fn title_prefers_dublin_core_title_unless_empty() {
    assert_eq!(title(None, Some("Sunset"), Some("/p/a.jpg"), false), "Sunset - IcedLens");
    assert_eq!(title(None, Some(""), Some("/p/a.jpg"), false), "a.jpg - IcedLens");
    assert_eq!(title(None, None, None, true), "IcedLens");
}

#[test]
fn leaving_settings_applies_or_blocks_zoom_step() {
    assert_eq!(
        handle_screen_switch(Screen::Settings, Screen::Viewer, false, ZoomStepCommit::Changed(25), ViewerContent::Nothing),
        (Screen::Viewer, ScreenAction::ApplyZoomStep(25))
    );
    assert_eq!(
        handle_screen_switch(Screen::Settings, Screen::Viewer, false, ZoomStepCommit::Invalid, ViewerContent::Nothing),
        (Screen::Settings, ScreenAction::Stay)
    );
    assert_eq!(
        handle_screen_switch(Screen::Settings, Screen::Viewer, false, ZoomStepCommit::Unchanged, ViewerContent::Nothing),
        (Screen::Viewer, ScreenAction::Stay)
    );
}

#[test]
fn entering_editor_depends_on_content() {
    let go = |unsaved, content| handle_screen_switch(Screen::Viewer, Screen::ImageEditor, unsaved, ZoomStepCommit::Unchanged, content);
    assert_eq!(go(false, ViewerContent::Image), (Screen::Viewer, ScreenAction::OpenEditor));
    assert_eq!(go(false, ViewerContent::Video), (Screen::Viewer, ScreenAction::WarnVideoUnsupported));
    assert_eq!(go(false, ViewerContent::Nothing), (Screen::Viewer, ScreenAction::Stay));
    assert_eq!(go(true, ViewerContent::Image), (Screen::Viewer, ScreenAction::Stay));
    assert_eq!(screen_after_editor_creation(true), Screen::ImageEditor);
    assert_eq!(screen_after_editor_creation(false), Screen::Viewer);
}

#[test]
fn leaving_editor_closes_it_and_other_switches_are_direct() {
    assert_eq!(
        handle_screen_switch(Screen::ImageEditor, Screen::Viewer, false, ZoomStepCommit::Unchanged, ViewerContent::Image),
        (Screen::Viewer, ScreenAction::CloseEditor)
    );
    assert_eq!(
        handle_screen_switch(Screen::Viewer, Screen::Help, true, ZoomStepCommit::Invalid, ViewerContent::Nothing),
        (Screen::Help, ScreenAction::Stay)
    );
}

#[test]
fn navbar_events_map_to_actions() {
    assert_eq!(handle_navbar_event(NavbarEvent::OpenSettings), NavbarAction::Show(Screen::Settings));
    assert_eq!(handle_navbar_event(NavbarEvent::OpenDiagnostics), NavbarAction::Show(Screen::Diagnostics));
    assert_eq!(handle_navbar_event(NavbarEvent::EnterEditor), NavbarAction::RequestEditor);
    assert_eq!(handle_navbar_event(NavbarEvent::Idle), NavbarAction::Nothing);
    assert_eq!(screen_after_back_request(Screen::About, true), Screen::Viewer);
    assert_eq!(screen_after_back_request(Screen::About, false), Screen::About);
}

#[test]
fn fullscreen_toggle_twice_restores_and_closes_info_panel() {
    let mut w = WindowState { fullscreen: false, info_panel_open: true };
    assert_eq!(w.toggle_fullscreen(true), Some(true));
    assert!(w.fullscreen);
    assert!(!w.info_panel_open);
    assert_eq!(w.toggle_fullscreen(true), Some(false));
    assert!(!w.fullscreen);
    let mut no_window = WindowState { fullscreen: false, info_panel_open: false };
    assert_eq!(no_window.toggle_fullscreen(false), None);
    assert!(!no_window.fullscreen);
    assert_eq!(w.update_fullscreen_mode(true, false), None);
}

#[test]
fn theme_and_flags() {
    assert!(is_light_theme(ThemeMode::Light));
    assert!(!is_light_theme(ThemeMode::System));
    let flags = Flags::default();
    assert_eq!(flags.file_path, None);
}

#[test]
fn download_messages_follow_phases() {
    let s = download_step(DownloadPhase::ReceivingProgress, DownloadEvent::Progress(40u8));
    assert_eq!(s, Some((DownloadPhase::ReceivingProgress, DownloadMessage::Progress(40u8))));
    let s = download_step(DownloadPhase::ReceivingProgress, DownloadEvent::<u8>::ProgressClosed);
    assert_eq!(s, Some((DownloadPhase::WaitingForResult, DownloadMessage::ProgressFull)));
    let s = download_step(DownloadPhase::WaitingForResult, DownloadEvent::<u8>::Cancelled);
    assert_eq!(
        s,
        Some((DownloadPhase::Completed, DownloadMessage::Completed(Err("Download task cancelled".to_string()))))
    );
    let s = download_step(DownloadPhase::WaitingForResult, DownloadEvent::<u8>::Failed("checksum".to_string()));
    assert_eq!(s, Some((DownloadPhase::Completed, DownloadMessage::Completed(Err("checksum".to_string())))));
    assert_eq!(download_step(DownloadPhase::Completed, DownloadEvent::<u8>::Finished), None);
    assert_eq!(download_step(DownloadPhase::WaitingForResult, DownloadEvent::Progress(1u8)), None);
}

#[test]
fn filenames_are_truncated_with_ellipsis() {
    assert_eq!(truncate_filename("short.jpg"), "short.jpg");
    assert_eq!(truncate_filename("exactly12.jp"), "exactly12.jp");
    assert_eq!(truncate_filename("a_very_long_name.jpg"), "a_very_long…");
    assert_eq!(truncate_filename("ééééééééééééé"), "ééééééééééé…");
}

#[test]
fn skipped_files_message_forms() {
    let none: Vec<String> = vec![];
    assert_eq!(format_skipped_files_message(&none, "and 0 others"), "");
    let one = vec!["a.jpg".to_string()];
    assert_eq!(format_skipped_files_message(&one, "x"), "a.jpg");
    let two = vec!["a.jpg".to_string(), "b.jpg".to_string()];
    assert_eq!(format_skipped_files_message(&two, "x"), "a.jpg, b.jpg");
    let three = vec!["a.jpg".to_string(), "b.jpg".to_string(), "c.jpg".to_string()];
    assert_eq!(skipped_others_count(three.len()), Some(2));
    assert_eq!(skipped_others_count(2), None);
    assert_eq!(format_skipped_files_message(&three, "+2 more"), "a.jpg +2 more");
}

#[test]
fn startup_fills_defaults() {
    let none = ConfiguredValues {
        fit_to_window: None,
        background_theme: None,
        sort_order: None,
        overlay_timeout_secs: None,
        video_autoplay: None,
        audio_normalization: None,
        frame_cache_mb: None,
        frame_history_mb: None,
        persist_filters: None,
    };
    let s = startup_settings(none);
    assert!(s.fit_to_window);
    assert_eq!(s.background_theme, BackgroundTheme::Dark);
    assert_eq!(s.sort_order, SortOrder::Alphabetical);
    assert_eq!(s.overlay_timeout_secs, 3);
    assert!(!s.video_autoplay);
    assert!(s.audio_normalization);
    assert_eq!(s.frame_cache_mb, 64);
    assert_eq!(s.frame_history_mb, 128);
    let set = ConfiguredValues { fit_to_window: Some(false), sort_order: Some(SortOrder::CreatedDate), ..none };
    let s = startup_settings(set);
    assert!(!s.fit_to_window);
    assert_eq!(s.sort_order, SortOrder::CreatedDate);
}

#[test]
fn model_status_decisions() {
    assert_eq!(startup_model_status(true, true), (ModelStatus::Validating, true));
    assert_eq!(startup_model_status(true, false), (ModelStatus::NotDownloaded, false));
    assert_eq!(deferred_validation(ModelStatus::NeedsValidation), (ModelStatus::Validating, true));
    assert_eq!(deferred_validation(ModelStatus::Ready), (ModelStatus::Ready, false));
    assert!(use_ai_upscale(true, ModelStatus::Ready));
    assert!(!use_ai_upscale(true, ModelStatus::Validating));
    assert!(!use_ai_upscale(false, ModelStatus::Ready));
}

#[test]
fn startup_path_handling() {
    assert_eq!(startup_scan(None, false), StartupScan::Nothing);
    assert_eq!(startup_scan(Some("/d".to_string()), true), StartupScan::Directory("/d".to_string()));
    assert_eq!(startup_scan(Some("/d/a.jpg".to_string()), false), StartupScan::File("/d/a.jpg".to_string()));
    assert_eq!(
        startup_media(StartupScan::File("/d/a.jpg".to_string()), ScanReport::Failed),
        (Some("/d/a.jpg".to_string()), true)
    );
    assert_eq!(
        startup_media(StartupScan::Directory("/d".to_string()), ScanReport::Selected("/d/b.jpg".to_string())),
        (Some("/d/b.jpg".to_string()), false)
    );
    assert_eq!(startup_media(StartupScan::Directory("/d".to_string()), ScanReport::NoMedia), (None, false));
    assert_eq!(startup_media(StartupScan::Directory("/d".to_string()), ScanReport::Failed), (None, true));
}

#[test]
fn filter_changes_and_records() {
    let f = MediaFilter::new();
    let (f, rec) = f.apply_change(FilterChange::MediaTypeChanged(MediaTypeFilter::VideosOnly));
    assert_eq!(rec, FilterChangeRecord::MediaType { from: MediaTypeFilter::All, to: MediaTypeFilter::VideosOnly });
    let (f, rec) = f.apply_change(FilterChange::ToggleDateFilter(true));
    assert_eq!(rec, FilterChangeRecord::DateRangeEnabled);
    assert_eq!(f.date_range, Some(DateRangeFilter::new()));
    let (f, _) = f.apply_change(FilterChange::DateFieldChanged(DateField::Created));
    let (f, _) = f.apply_change(FilterChange::DateSubmit(DateTarget::Start, Some(100)));
    assert_eq!(f.date_range, Some(DateRangeFilter { field: DateField::Created, start: Some(100), end: None }));
    let (f, rec) = f.apply_change(FilterChange::ResetFilters);
    assert_eq!(rec, FilterChangeRecord::Cleared { had_media_type_filter: true, had_date_filter: true });
    assert!(!f.is_active());
}

#[test]
fn date_range_matching() {
    let r = DateRangeFilter { field: DateField::Modified, start: Some(10), end: Some(20) };
    assert!(r.matches(&MediaEntry::with_dates("/a.jpg".to_string(), Some(10), None)));
    assert!(r.matches(&MediaEntry::with_dates("/a.jpg".to_string(), Some(20), None)));
    assert!(!r.matches(&MediaEntry::with_dates("/a.jpg".to_string(), Some(21), None)));
    assert!(!r.matches(&MediaEntry::with_dates("/a.jpg".to_string(), None, Some(15))));
    assert!(DateRangeFilter::new().matches(&MediaEntry::new("/a.jpg".to_string())));
}

#[test]
fn events_are_routed_by_screen_and_capture() {
    for screen in [Screen::Viewer, Screen::Settings, Screen::ImageEditor, Screen::Help, Screen::About, Screen::Diagnostics] {
        assert_eq!(route_event(screen, EventKind::FileDropped, true), EventRoute::OpenDroppedFile);
    }
    assert_eq!(route_event(Screen::ImageEditor, EventKind::Keyboard, false), EventRoute::Editor);
    assert_eq!(route_event(Screen::ImageEditor, EventKind::Keyboard, true), EventRoute::Ignore);
    assert_eq!(route_event(Screen::ImageEditor, EventKind::WindowResized, true), EventRoute::Viewer);
    assert_eq!(route_event(Screen::ImageEditor, EventKind::Other, false), EventRoute::Ignore);
    assert_eq!(route_event(Screen::Viewer, EventKind::WheelScrolled, true), EventRoute::Viewer);
    assert_eq!(route_event(Screen::Viewer, EventKind::Keyboard, true), EventRoute::Ignore);
    assert_eq!(route_event(Screen::Settings, EventKind::WheelScrolled, false), EventRoute::Ignore);
    assert_eq!(route_event(Screen::Help, EventKind::Keyboard, false), EventRoute::Viewer);
    assert!(needs_tick(false, true, false));
    assert!(!needs_tick(false, false, false));
}

#[test]
fn settings_events_map_to_responses() {
    let r = handle_settings_event(SettingsEvent::BackToViewerWithZoomChange(25));
    assert!(r.show_viewer && r.persist_preferences);
    assert_eq!(r.zoom_step_percent, Some(25));
    let r = handle_settings_event(SettingsEvent::BackToViewer);
    assert!(r.show_viewer && !r.persist_preferences);
    let r = handle_settings_event(SettingsEvent::LanguageSelected("fr".to_string()));
    assert_eq!(r.language.as_deref(), Some("fr"));
    assert!(!r.persist_preferences);
    let r = handle_settings_event(SettingsEvent::SortOrderSelected(SortOrder::ModifiedDate));
    assert!(r.persist_preferences && !r.show_viewer);
    let r = handle_settings_event(SettingsEvent::RequestEnableUpscale);
    assert_eq!(r.start_download, Some(AiModel::Upscale));
    let r = handle_settings_event(SettingsEvent::DisableDeblur);
    assert_eq!(r.disable_model, Some(AiModel::Deblur));
    let r = handle_settings_event(SettingsEvent::Idle);
    assert!(!r.show_viewer && !r.persist_preferences && r.zoom_step_percent.is_none());
}

#[test]
fn model_lifecycle_outcomes() {
    let o = on_download_completed(AiModel::Deblur, false, Ok(()));
    assert_eq!(o.status, Some(ModelStatus::Validating));
    assert!(o.start_validation);
    let o = on_download_completed(AiModel::Deblur, false, Err("timeout".to_string()));
    assert_eq!(o.status, Some(ModelStatus::Error("timeout".to_string())));
    assert_eq!(
        o.notice,
        Some(Notice::Error { key: "notification-deblur-download-error", error: Some("timeout".to_string()) })
    );
    let o = on_validation_completed(AiModel::Upscale, false, Ok(()), false);
    assert_eq!(o.enable, Some(true));
    assert_eq!(o.notice, Some(Notice::Success("notification-upscale-ready")));
    let o = on_validation_completed(AiModel::Upscale, false, Ok(()), true);
    assert_eq!(o.notice, None);
    let o = on_validation_completed(AiModel::Upscale, false, Err("bad".to_string()), false);
    assert_eq!(o.enable, Some(false));
    assert!(o.delete_model_file);
    let o = on_validation_completed(AiModel::Upscale, true, Ok(()), false);
    assert_eq!(o.enable, None);
    assert_eq!(o.status, None);
    let o = on_model_disabled();
    assert_eq!(o.enable, Some(false));
    assert!(o.delete_model_file);
}

#[test]
fn state_records_model_switches() {
    let mut s = AppState::default();
    s.set_model_enabled(AiModel::Upscale, true);
    assert!(s.enable_upscale && !s.enable_deblur);
    s.set_model_enabled(AiModel::Deblur, true);
    s.set_model_enabled(AiModel::Upscale, false);
    assert!(!s.enable_upscale && s.enable_deblur);
}

#[test]
fn skipping_unloadable_media() {
    let files: Vec<MediaEntry> = ["a.jpg", "b.jpg", "c.mp4", "d.jpg"]
        .iter()
        .map(|n| MediaEntry::new(format!("/m/{n}")))
        .collect();
    let mut nav = MediaNavigator::new();
    nav.scan_directory(files, "/m/a.jpg", SortOrder::Alphabetical);
    let start = SkipProgress { direction: NavigationDirection::Next, skip_attempts: 0, skipped_files: vec![] };
    // b.jpg failed: the editor tries the image after it, skipping the video.
    let d = after_load_failure(&nav, NavigationMode::ImagesOnly, start.clone(), failed_file_label(Some("/m/b.jpg")), 5);
    let SkipDecision::Retry { path, progress } = d else { panic!("expected a retry") };
    assert_eq!(path, "/m/d.jpg");
    assert_eq!(progress.skip_attempts, 1);
    assert_eq!(progress.skipped_files, vec!["b.jpg".to_string()]);
    // The viewer goes through all media.
    let d = after_load_failure(&nav, NavigationMode::AllMedia, start.clone(), "b.jpg".to_string(), 5);
    assert!(matches!(d, SkipDecision::Retry { ref path, .. } if path == "/m/c.mp4"));
    // With no attempts allowed, the request stops at once.
    let d = after_load_failure(&nav, NavigationMode::AllMedia, start, "b.jpg".to_string(), 0);
    assert_eq!(d, SkipDecision::GiveUp { skipped_files: vec!["b.jpg".to_string()] });
    assert_eq!(failed_file_label(None), "unknown");
    assert_eq!(skipped_files_to_report(Some(progress)), Some(vec!["b.jpg".to_string()]));
    assert_eq!(skipped_files_to_report(None), None);
}

#[test]
fn ai_operation_notices() {
    assert_eq!(
        processing_notice(AiOperation::Deblur, false, true, Ok(())),
        Some(Notice::Success("notification-deblur-apply-success"))
    );
    assert_eq!(
        processing_notice(AiOperation::UpscaleResize, false, true, Err("oom".to_string())),
        Some(Notice::Error { key: "notification-upscale-resize-error", error: Some("oom".to_string()) })
    );
    assert_eq!(processing_notice(AiOperation::Deblur, true, true, Ok(())), None);
    assert_eq!(processing_notice(AiOperation::Deblur, false, false, Ok(())), None);
    assert_eq!(rgba_size_bytes(4, 3), 48);
    assert_eq!(rgba_size_bytes(65536, 65536), 17_179_869_184);
}

#[test]
fn editor_events_map_to_actions() {
    let file = ImageSource::File("/p/a.png".to_string());
    let frame = ImageSource::CapturedFrame { video_path: "/p/v.mp4".to_string() };
    assert_eq!(
        handle_editor_event(EditorEvent::ExitEditor, file.clone(), false, &ModelStatus::NotDownloaded),
        EditorAction::CloseEditor { reload: Some("/p/a.png".to_string()) }
    );
    assert_eq!(
        handle_editor_event(EditorEvent::ExitEditor, frame, false, &ModelStatus::NotDownloaded),
        EditorAction::CloseEditor { reload: None }
    );
    assert_eq!(
        handle_editor_event(EditorEvent::NavigatePrevious, file.clone(), false, &ModelStatus::Ready),
        EditorAction::Navigate(NavigationDirection::Previous)
    );
    assert_eq!(
        handle_editor_event(EditorEvent::UpscaleResizeRequested { width: 800, height: 600 }, file.clone(), true, &ModelStatus::Ready),
        EditorAction::Resize { width: 800, height: 600, use_ai: true }
    );
    assert_eq!(
        handle_editor_event(EditorEvent::UpscaleResizeRequested { width: 800, height: 600 }, file, true, &ModelStatus::Validating),
        EditorAction::Resize { width: 800, height: 600, use_ai: false }
    );
}

#[test]
fn save_outcome_notices() {
    assert_eq!(save_notices(true, None), vec![Notice::Success("notification-save-success")]);
    assert_eq!(
        save_notices(true, Some("notification-metadata-lost")),
        vec![Notice::Success("notification-save-success"), Notice::Warning("notification-metadata-lost")]
    );
    assert_eq!(
        save_notices(false, None),
        vec![Notice::Error { key: "notification-save-error", error: None }]
    );
}

#[test]
fn metadata_panel_events_map_to_actions() {
    let save = MetadataPanelEvent::SaveRequested("/p/a.jpg".to_string());
    assert_eq!(
        handle_metadata_panel_event(save.clone(), true, true, None, None),
        MetadataPanelAction::Write("/p/a.jpg".to_string())
    );
    assert_eq!(
        handle_metadata_panel_event(save.clone(), true, false, None, None),
        MetadataPanelAction::RejectInvalid
    );
    assert_eq!(handle_metadata_panel_event(save, false, false, None, None), MetadataPanelAction::Nothing);
    assert_eq!(
        handle_metadata_panel_event(
            MetadataPanelEvent::SaveAsRequested,
            true,
            true,
            Some("/saves".to_string()),
            Some("a.jpg".to_string())
        ),
        MetadataPanelAction::OpenSaveAsDialog {
            directory: Some("/saves".to_string()),
            file_name: Some("a.jpg".to_string())
        }
    );
    assert_eq!(
        handle_metadata_panel_event(MetadataPanelEvent::SaveAsRequested, true, false, None, None),
        MetadataPanelAction::RejectInvalid
    );
    assert_eq!(
        handle_metadata_panel_event(MetadataPanelEvent::Close, true, true, None, None),
        MetadataPanelAction::ClosePanel
    );
    assert_eq!(metadata_write_notice(true), Notice::Success("notification-metadata-save-success"));
    assert_eq!(
        metadata_write_notice(false),
        Notice::Error { key: "notification-metadata-save-error", error: None }
    );
}
