use lumen_frame::photo::watermark_file_name;
use lumen_frame::ui::export::{can_start_export, export_status, ExportRun, ExportState};

#[test]
fn an_export_needs_photos_a_folder_and_no_export_running() {
    assert!(can_start_export(3, true, &ExportState::Idle));
    assert!(can_start_export(3, true, &ExportState::Finished { succeeded: 1, failed: 0 }));
    assert!(!can_start_export(0, true, &ExportState::Idle));
    assert!(!can_start_export(3, false, &ExportState::Idle));
    assert!(!can_start_export(3, true, &ExportState::Running { completed: 1, total: 3 }));
}

#[test]
fn a_run_counts_every_photo_once() {
    let (mut run, state) = ExportRun::start(3);
    assert_eq!(state, ExportState::Running { completed: 0, total: 3 });
    assert_eq!(run.record(true), ExportState::Running { completed: 1, total: 3 });
    assert!(!run.is_done());
    assert_eq!(run.record(false), ExportState::Running { completed: 2, total: 3 });
    assert_eq!(run.record(true), ExportState::Running { completed: 3, total: 3 });
    assert!(run.is_done());
    assert_eq!(run.finish(), ExportState::Finished { succeeded: 2, failed: 1 });
}

#[test]
fn the_footer_reports_progress_and_failures() {
    assert_eq!(export_status(&ExportState::Idle), "");
    assert_eq!(export_status(&ExportState::Running { completed: 2, total: 15 }), "正在导出 2/15");
    assert_eq!(export_status(&ExportState::Finished { succeeded: 12, failed: 0 }), "已导出 12 张");
    assert_eq!(
        export_status(&ExportState::Finished { succeeded: 10, failed: 3 }),
        "已导出 10 张，3 张失败"
    );
}

#[test]
fn exported_photos_are_named_after_their_source() {
    assert_eq!(watermark_file_name(Some("DSC_0792")), "DSC_0792_watermark.jpg");
    assert_eq!(watermark_file_name(None), "__watermark.jpg");
}
