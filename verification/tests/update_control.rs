use lumen_frame::ui::update::{update_click, update_control, UpdateClick, UpdateState};

fn control(state: UpdateState) -> (String, String, bool) {
    update_control(&state)
}

#[test]
fn the_update_button_tells_where_updating_stands() {
    assert_eq!(
        control(UpdateState::Idle),
        ("检查更新".to_string(), "默认每 7 天自动检查一次".to_string(), false)
    );
    assert_eq!(
        control(UpdateState::Checking),
        ("正在检查…".to_string(), "正在连接 GitHub Releases".to_string(), true)
    );
    assert_eq!(control(UpdateState::UpToDate).1, "当前已是最新版本");
    assert_eq!(
        control(UpdateState::Available { version: "1.2.0".to_string() }),
        ("安装 1.2.0".to_string(), "发现新版本 1.2.0".to_string(), false)
    );
    assert_eq!(
        control(UpdateState::Installing { version: "1.2.0".to_string() }),
        ("正在安装…".to_string(), "正在下载并安装 1.2.0".to_string(), true)
    );
    assert_eq!(
        control(UpdateState::Installed { version: "1.2.0".to_string() }),
        ("已安装".to_string(), "已安装 1.2.0，重启应用后生效".to_string(), true)
    );
    assert_eq!(
        control(UpdateState::Failed { message: "检查更新失败：offline".to_string() }),
        ("重试".to_string(), "检查更新失败：offline".to_string(), false)
    );
}

#[test]
fn a_click_installs_what_was_found_or_checks_again() {
    assert_eq!(
        update_click(&UpdateState::Available { version: "1.2.0".to_string() }),
        UpdateClick::ConfirmInstall("1.2.0".to_string())
    );
    assert_eq!(update_click(&UpdateState::Checking), UpdateClick::Ignore);
    assert_eq!(update_click(&UpdateState::Installing { version: "1.2.0".to_string() }), UpdateClick::Ignore);
    assert_eq!(update_click(&UpdateState::Idle), UpdateClick::StartCheck);
    assert_eq!(update_click(&UpdateState::Failed { message: String::new() }), UpdateClick::StartCheck);
}
