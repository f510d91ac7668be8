//! The update control of the settings page: what its button and status line say, and
//! what a click on it does.

use vstd::prelude::*;

use crate::chars::{chars_of, string_of};

verus! {

/// Where updating stands, as the settings page shows it.
#[derive(Debug, Clone, PartialEq, Eq)]
pub enum UpdateState {
    Idle,
    Checking,
    UpToDate,
    Available { version: String },
    Installing { version: String },
    Installed { version: String },
    Failed { message: String },
}

/// What a click on the update button does.
#[derive(Debug, Clone, PartialEq, Eq)]
pub enum UpdateClick {
    /// Ask whether to install this version.
    ConfirmInstall(String),
    /// Start a check.
    StartCheck,
    /// Nothing: a check or an install is under way.
    Ignore,
}

/// The button label, the status line, and whether the button is disabled.
pub open spec fn spec_update_control(state: UpdateState) -> (Seq<char>, Seq<char>, bool) {
    match state {
        UpdateState::Idle => ("检查更新"@, "默认每 7 天自动检查一次"@, false),
        UpdateState::Checking => ("正在检查…"@, "正在连接 GitHub Releases"@, true),
        UpdateState::UpToDate => ("再次检查"@, "当前已是最新版本"@, false),
        UpdateState::Available { version } => ("安装 "@ + version@, "发现新版本 "@ + version@, false),
        UpdateState::Installing { version } => ("正在安装…"@, "正在下载并安装 "@ + version@, true),
        UpdateState::Installed { version } => (
            "已安装"@,
            "已安装 "@ + version@ + "，重启应用后生效"@,
            true,
        ),
        UpdateState::Failed { message } => ("重试"@, message@, false),
    }
}

fn concat(a: &str, b: &str) -> (s: String)
    ensures
        s@ == a@ + b@,
{
    let mut out = chars_of(a);
    let more = chars_of(b);
    let ghost before = out@;
    let mut i: usize = 0;
    while i < more.len()
        invariant
            i <= more@.len(),
            out@ == before + more@.take(i as int),
        decreases more@.len() - i,
    {
        out.push(more[i]);
        i = i + 1;
        assert(out@ == before + more@.take(i as int));
    }
    assert(more@.take(more@.len() as int) == more@);
    string_of(out.as_slice())
}

/// The update button's label, the status line beside it, and whether the button is
/// disabled.
pub fn update_control(state: &UpdateState) -> (r: (String, String, bool))
    ensures
        (r.0@, r.1@, r.2) == spec_update_control(*state),
{
    match state {
        UpdateState::Idle => ("检查更新".to_owned(), "默认每 7 天自动检查一次".to_owned(), false),
        UpdateState::Checking => ("正在检查…".to_owned(), "正在连接 GitHub Releases".to_owned(), true),
        UpdateState::UpToDate => ("再次检查".to_owned(), "当前已是最新版本".to_owned(), false),
        UpdateState::Available { version } => {
            (concat("安装 ", version.as_str()), concat("发现新版本 ", version.as_str()), false)
        },
        UpdateState::Installing { version } => {
            ("正在安装…".to_owned(), concat("正在下载并安装 ", version.as_str()), true)
        },
        UpdateState::Installed { version } => {
            let first = concat("已安装 ", version.as_str());
            ("已安装".to_owned(), concat(first.as_str(), "，重启应用后生效"), true)
        },
        UpdateState::Failed { message } => ("重试".to_owned(), message.clone(), false),
    }
}

/// What a click on the update button does in `state`: offer the version found, do
/// nothing while a check or an install runs, and otherwise check.
pub open spec fn spec_update_click(state: UpdateState) -> UpdateClick {
    match state {
        UpdateState::Available { version } => UpdateClick::ConfirmInstall(version),
        UpdateState::Checking | UpdateState::Installing { .. } => UpdateClick::Ignore,
        _ => UpdateClick::StartCheck,
    }
}

/// Decides what a click on the update button does.
pub fn update_click(state: &UpdateState) -> (c: UpdateClick)
    ensures
        c == spec_update_click(*state),
{
    match state {
        UpdateState::Available { version } => UpdateClick::ConfirmInstall(version.clone()),
        UpdateState::Checking | UpdateState::Installing { .. } => UpdateClick::Ignore,
        _ => UpdateClick::StartCheck,
    }
}

/// A disabled button is one whose click does nothing, and the other way round.
pub proof fn lemma_disabled_exactly_when_clicks_are_ignored(state: UpdateState)
    ensures
        spec_update_control(state).2 == (spec_update_click(state) is Ignore || state is Installed),
{
}

} // verus!
