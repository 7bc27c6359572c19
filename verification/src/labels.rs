//! The words and styles of the panel's cards and chart that depend on its
//! state: titles, the time of the last reading, the connection state, the
//! selected card's border, and what a resolution button asks for.

use vstd::prelude::*;
use crate::clock::{format_timestamp, hms};
use crate::panel::{display_label, display_label_of};

verus! {

/// The border style of a status card, brighter for the selected cube.
pub fn border_style(selected: bool) -> (r: &'static str)
    ensures
        selected ==> r@ == "border-color:rgba(255,255,255,0.6);box-shadow:0 0 12px rgba(255,255,255,0.2);"@,
        !selected ==> r@ == "border-color:rgba(255,255,255,0.12);box-shadow:none;"@,
{
    if selected {
        "border-color:rgba(255,255,255,0.6);box-shadow:0 0 12px rgba(255,255,255,0.2);"
    } else {
        "border-color:rgba(255,255,255,0.12);box-shadow:none;"
    }
}

/// The connection state shown in the top bar.
pub fn connection_text(connected: bool) -> (r: &'static str)
    ensures
        connected ==> r@ == "● 已连接"@,
        !connected ==> r@ == "○ 未连接"@,
{
    if connected {
        "● 已连接"
    } else {
        "○ 未连接"
    }
}

/// The title of a cube's trend chart: its label, then what the chart shows.
pub fn chart_title(cube_id: &str, label: &str) -> (r: String)
    ensures
        r@ == display_label_of(cube_id@, label@) + " — 温湿度趋势"@,
{
    let mut title = display_label(cube_id, label);
    title.append(" — 温湿度趋势");
    title
}

/// The footer of a status card: when its cube last reported, as the time of
/// day, or "--" before any reading.
pub fn updated_text(ts: i64) -> (r: String)
    ensures
        ts <= 0 ==> r@ == "更新: "@ + "--"@,
        ts > 0 ==> r@ == "更新: "@ + hms((ts / 1000 / 60 / 60) % 24, (ts / 1000 / 60) % 60, (ts / 1000) % 60),
{
    let mut text = String::from_str("更新: ");
    let time = format_timestamp(ts);
    text.append(time.as_str());
    text
}

/// The card shown for a cube the panel has no data of yet.
pub fn waiting_text(cube_id: &str) -> (r: String)
    ensures
        r@ == cube_id@ + " 等待数据..."@,
{
    let mut text = String::from_str(cube_id);
    text.append(" 等待数据...");
    text
}

/// The render size a resolution button asks the server for: its own size,
/// or (0, 0) for the native button, which has none.
pub fn resolution_request(choice: Option<(u32, u32)>) -> (r: (u32, u32))
    ensures
        r == (match choice {
            Some(size) => size,
            None => (0u32, 0u32),
        }),
{
    match choice {
        Some(size) => size,
        None => (0, 0),
    }
}

} // verus!
