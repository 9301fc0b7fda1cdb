//! The settings of the monitor as one record: its attributes, what was
//! read from the configuration file and what was noticed meanwhile.
use vstd::prelude::*;
use crate::config::{ViewMode, LogLevel, SortingOption, ConfigItem, ConfigAttr, kept_in_conf_dict, same_text};
use crate::strmap::{StrMap, Dup};

verus! {

/// The settings of the monitor, the values read for them and what was
/// noticed while reading them.
pub struct Config {
    pub keys: Vec<String>,
    pub conf_dict: StrMap<ConfigItem>,
    pub attr: StrMap<ConfigItem>,
    pub color_theme: String,
    pub theme_background: bool,
    pub update_ms: i64,
    pub proc_sorting: SortingOption,
    pub proc_reversed: bool,
    pub proc_tree: bool,
    pub tree_depth: i32,
    pub proc_colors: bool,
    pub proc_gradient: bool,
    pub proc_per_core: bool,
    pub proc_mem_bytes: bool,
    pub check_temp: bool,
    pub cpu_sensor: String,
    pub show_coretemp: bool,
    pub draw_clock: String,
    pub background_update: bool,
    pub custom_cpu_name: String,
    pub disks_filter: String,
    pub update_check: bool,
    pub mem_graphs: bool,
    pub show_swap: bool,
    pub swap_disk: bool,
    pub show_disks: bool,
    pub net_download: String,
    pub net_upload: String,
    pub net_color_fixed: bool,
    pub net_auto: bool,
    pub net_sync: bool,
    pub show_battery: bool,
    pub show_init: bool,
    pub view_mode: ViewMode,
    pub log_level: LogLevel,
    pub warnings: Vec<String>,
    pub info: Vec<String>,
    pub changed: bool,
    /// Where the configuration file is.
    pub config_file: String,
    pub recreate: bool,
    pub sorting_options: Vec<SortingOption>,
    pub log_levels: Vec<LogLevel>,
    pub view_modes: Vec<ViewMode>,
    pub cpu_sensors: Vec<String>,
    pub _initialized: bool,
}

/// The attributes of the configuration.
#[derive(Clone, Copy, Debug, PartialEq, Eq, Structural)]
pub enum AttrName {
    ColorTheme,
    ThemeBackground,
    ViewMode,
    UpdateMs,
    ProcSorting,
    ProcReversed,
    ProcTree,
    TreeDepth,
    ProcColors,
    ProcGradient,
    ProcPerCore,
    ProcMemBytes,
    CheckTemp,
    CpuSensor,
    ShowCoretemp,
    DrawClock,
    BackgroundUpdate,
    CustomCpuName,
    DisksFilter,
    MemGraphs,
    ShowSwap,
    SwapDisk,
    ShowDisks,
    NetDownload,
    NetUpload,
    NetAuto,
    NetSync,
    NetColorFixed,
    ShowBattery,
    ShowInit,
    UpdateCheck,
    LogLevel,
}

/// The kind of value that an attribute holds, numbered as `attr_variant`
/// numbers them.
pub open spec fn kind_of(a: AttrName) -> int {
    match a {
        AttrName::ColorTheme => 0,
        AttrName::ThemeBackground => 1,
        AttrName::ViewMode => 2,
        AttrName::UpdateMs => 3,
        AttrName::ProcSorting => 4,
        AttrName::ProcReversed => 1,
        AttrName::ProcTree => 1,
        AttrName::TreeDepth => 3,
        AttrName::ProcColors => 1,
        AttrName::ProcGradient => 1,
        AttrName::ProcPerCore => 1,
        AttrName::ProcMemBytes => 1,
        AttrName::CheckTemp => 1,
        AttrName::CpuSensor => 0,
        AttrName::ShowCoretemp => 1,
        AttrName::DrawClock => 0,
        AttrName::BackgroundUpdate => 1,
        AttrName::CustomCpuName => 0,
        AttrName::DisksFilter => 0,
        AttrName::MemGraphs => 1,
        AttrName::ShowSwap => 1,
        AttrName::SwapDisk => 1,
        AttrName::ShowDisks => 1,
        AttrName::NetDownload => 0,
        AttrName::NetUpload => 0,
        AttrName::NetAuto => 1,
        AttrName::NetSync => 1,
        AttrName::NetColorFixed => 1,
        AttrName::ShowBattery => 1,
        AttrName::ShowInit => 1,
        AttrName::UpdateCheck => 1,
        AttrName::LogLevel => 5,
    }
}

/// The value of attribute `a` of `c`.
pub open spec fn attr_value(c: Config, a: AttrName) -> ConfigAttr {
    match a {
        AttrName::ColorTheme => ConfigAttr::String(c.color_theme),
        AttrName::ThemeBackground => ConfigAttr::Bool(c.theme_background),
        AttrName::ViewMode => ConfigAttr::ViewMode(c.view_mode),
        AttrName::UpdateMs => ConfigAttr::Int64(c.update_ms as i64),
        AttrName::ProcSorting => ConfigAttr::SortingOption(c.proc_sorting),
        AttrName::ProcReversed => ConfigAttr::Bool(c.proc_reversed),
        AttrName::ProcTree => ConfigAttr::Bool(c.proc_tree),
        AttrName::TreeDepth => ConfigAttr::Int64(c.tree_depth as i64),
        AttrName::ProcColors => ConfigAttr::Bool(c.proc_colors),
        AttrName::ProcGradient => ConfigAttr::Bool(c.proc_gradient),
        AttrName::ProcPerCore => ConfigAttr::Bool(c.proc_per_core),
        AttrName::ProcMemBytes => ConfigAttr::Bool(c.proc_mem_bytes),
        AttrName::CheckTemp => ConfigAttr::Bool(c.check_temp),
        AttrName::CpuSensor => ConfigAttr::String(c.cpu_sensor),
        AttrName::ShowCoretemp => ConfigAttr::Bool(c.show_coretemp),
        AttrName::DrawClock => ConfigAttr::String(c.draw_clock),
        AttrName::BackgroundUpdate => ConfigAttr::Bool(c.background_update),
        AttrName::CustomCpuName => ConfigAttr::String(c.custom_cpu_name),
        AttrName::DisksFilter => ConfigAttr::String(c.disks_filter),
        AttrName::MemGraphs => ConfigAttr::Bool(c.mem_graphs),
        AttrName::ShowSwap => ConfigAttr::Bool(c.show_swap),
        AttrName::SwapDisk => ConfigAttr::Bool(c.swap_disk),
        AttrName::ShowDisks => ConfigAttr::Bool(c.show_disks),
        AttrName::NetDownload => ConfigAttr::String(c.net_download),
        AttrName::NetUpload => ConfigAttr::String(c.net_upload),
        AttrName::NetAuto => ConfigAttr::Bool(c.net_auto),
        AttrName::NetSync => ConfigAttr::Bool(c.net_sync),
        AttrName::NetColorFixed => ConfigAttr::Bool(c.net_color_fixed),
        AttrName::ShowBattery => ConfigAttr::Bool(c.show_battery),
        AttrName::ShowInit => ConfigAttr::Bool(c.show_init),
        AttrName::UpdateCheck => ConfigAttr::Bool(c.update_check),
        AttrName::LogLevel => ConfigAttr::LogLevel(c.log_level),
    }
}

/// `c` with `color_theme` set from `v`, when `v` is of its kind.
pub open spec fn with_color_theme(c: Config, v: ConfigAttr) -> Config {
    match v {
        ConfigAttr::String(x) => Config { color_theme: x, ..c },
        _ => c,
    }
}

/// `c` with `theme_background` set from `v`, when `v` is of its kind.
pub open spec fn with_theme_background(c: Config, v: ConfigAttr) -> Config {
    match v {
        ConfigAttr::Bool(x) => Config { theme_background: x, ..c },
        _ => c,
    }
}

/// `c` with `view_mode` set from `v`, when `v` is of its kind.
pub open spec fn with_view_mode(c: Config, v: ConfigAttr) -> Config {
    match v {
        ConfigAttr::ViewMode(x) => Config { view_mode: x, ..c },
        _ => c,
    }
}

/// `c` with `update_ms` set from `v`, when `v` is of its kind.
pub open spec fn with_update_ms(c: Config, v: ConfigAttr) -> Config {
    match v {
        ConfigAttr::Int64(x) => Config { update_ms: x, ..c },
        _ => c,
    }
}

/// `c` with `proc_sorting` set from `v`, when `v` is of its kind.
pub open spec fn with_proc_sorting(c: Config, v: ConfigAttr) -> Config {
    match v {
        ConfigAttr::SortingOption(x) => Config { proc_sorting: x, ..c },
        _ => c,
    }
}

/// `c` with `proc_reversed` set from `v`, when `v` is of its kind.
pub open spec fn with_proc_reversed(c: Config, v: ConfigAttr) -> Config {
    match v {
        ConfigAttr::Bool(x) => Config { proc_reversed: x, ..c },
        _ => c,
    }
}

/// `c` with `proc_tree` set from `v`, when `v` is of its kind.
pub open spec fn with_proc_tree(c: Config, v: ConfigAttr) -> Config {
    match v {
        ConfigAttr::Bool(x) => Config { proc_tree: x, ..c },
        _ => c,
    }
}

/// `c` with `tree_depth` set from `v`, when `v` is of its kind.
pub open spec fn with_tree_depth(c: Config, v: ConfigAttr) -> Config {
    match v {
        ConfigAttr::Int64(x) => Config { tree_depth: x as i32, ..c },
        _ => c,
    }
}

/// `c` with `proc_colors` set from `v`, when `v` is of its kind.
pub open spec fn with_proc_colors(c: Config, v: ConfigAttr) -> Config {
    match v {
        ConfigAttr::Bool(x) => Config { proc_colors: x, ..c },
        _ => c,
    }
}

/// `c` with `proc_gradient` set from `v`, when `v` is of its kind.
pub open spec fn with_proc_gradient(c: Config, v: ConfigAttr) -> Config {
    match v {
        ConfigAttr::Bool(x) => Config { proc_gradient: x, ..c },
        _ => c,
    }
}

/// `c` with `proc_per_core` set from `v`, when `v` is of its kind.
pub open spec fn with_proc_per_core(c: Config, v: ConfigAttr) -> Config {
    match v {
        ConfigAttr::Bool(x) => Config { proc_per_core: x, ..c },
        _ => c,
    }
}

/// `c` with `proc_mem_bytes` set from `v`, when `v` is of its kind.
pub open spec fn with_proc_mem_bytes(c: Config, v: ConfigAttr) -> Config {
    match v {
        ConfigAttr::Bool(x) => Config { proc_mem_bytes: x, ..c },
        _ => c,
    }
}

/// `c` with `check_temp` set from `v`, when `v` is of its kind.
pub open spec fn with_check_temp(c: Config, v: ConfigAttr) -> Config {
    match v {
        ConfigAttr::Bool(x) => Config { check_temp: x, ..c },
        _ => c,
    }
}

/// `c` with `cpu_sensor` set from `v`, when `v` is of its kind.
pub open spec fn with_cpu_sensor(c: Config, v: ConfigAttr) -> Config {
    match v {
        ConfigAttr::String(x) => Config { cpu_sensor: x, ..c },
        _ => c,
    }
}

/// `c` with `show_coretemp` set from `v`, when `v` is of its kind.
pub open spec fn with_show_coretemp(c: Config, v: ConfigAttr) -> Config {
    match v {
        ConfigAttr::Bool(x) => Config { show_coretemp: x, ..c },
        _ => c,
    }
}

/// `c` with `draw_clock` set from `v`, when `v` is of its kind.
pub open spec fn with_draw_clock(c: Config, v: ConfigAttr) -> Config {
    match v {
        ConfigAttr::String(x) => Config { draw_clock: x, ..c },
        _ => c,
    }
}

/// `c` with `background_update` set from `v`, when `v` is of its kind.
pub open spec fn with_background_update(c: Config, v: ConfigAttr) -> Config {
    match v {
        ConfigAttr::Bool(x) => Config { background_update: x, ..c },
        _ => c,
    }
}

/// `c` with `custom_cpu_name` set from `v`, when `v` is of its kind.
pub open spec fn with_custom_cpu_name(c: Config, v: ConfigAttr) -> Config {
    match v {
        ConfigAttr::String(x) => Config { custom_cpu_name: x, ..c },
        _ => c,
    }
}

/// `c` with `disks_filter` set from `v`, when `v` is of its kind.
pub open spec fn with_disks_filter(c: Config, v: ConfigAttr) -> Config {
    match v {
        ConfigAttr::String(x) => Config { disks_filter: x, ..c },
        _ => c,
    }
}

/// `c` with `mem_graphs` set from `v`, when `v` is of its kind.
pub open spec fn with_mem_graphs(c: Config, v: ConfigAttr) -> Config {
    match v {
        ConfigAttr::Bool(x) => Config { mem_graphs: x, ..c },
        _ => c,
    }
}

/// `c` with `show_swap` set from `v`, when `v` is of its kind.
pub open spec fn with_show_swap(c: Config, v: ConfigAttr) -> Config {
    match v {
        ConfigAttr::Bool(x) => Config { show_swap: x, ..c },
        _ => c,
    }
}

/// `c` with `swap_disk` set from `v`, when `v` is of its kind.
pub open spec fn with_swap_disk(c: Config, v: ConfigAttr) -> Config {
    match v {
        ConfigAttr::Bool(x) => Config { swap_disk: x, ..c },
        _ => c,
    }
}

/// `c` with `show_disks` set from `v`, when `v` is of its kind.
pub open spec fn with_show_disks(c: Config, v: ConfigAttr) -> Config {
    match v {
        ConfigAttr::Bool(x) => Config { show_disks: x, ..c },
        _ => c,
    }
}

/// `c` with `net_download` set from `v`, when `v` is of its kind.
pub open spec fn with_net_download(c: Config, v: ConfigAttr) -> Config {
    match v {
        ConfigAttr::String(x) => Config { net_download: x, ..c },
        _ => c,
    }
}

/// `c` with `net_upload` set from `v`, when `v` is of its kind.
pub open spec fn with_net_upload(c: Config, v: ConfigAttr) -> Config {
    match v {
        ConfigAttr::String(x) => Config { net_upload: x, ..c },
        _ => c,
    }
}

/// `c` with `net_auto` set from `v`, when `v` is of its kind.
pub open spec fn with_net_auto(c: Config, v: ConfigAttr) -> Config {
    match v {
        ConfigAttr::Bool(x) => Config { net_auto: x, ..c },
        _ => c,
    }
}

/// `c` with `net_sync` set from `v`, when `v` is of its kind.
pub open spec fn with_net_sync(c: Config, v: ConfigAttr) -> Config {
    match v {
        ConfigAttr::Bool(x) => Config { net_sync: x, ..c },
        _ => c,
    }
}

/// `c` with `net_color_fixed` set from `v`, when `v` is of its kind.
pub open spec fn with_net_color_fixed(c: Config, v: ConfigAttr) -> Config {
    match v {
        ConfigAttr::Bool(x) => Config { net_color_fixed: x, ..c },
        _ => c,
    }
}

/// `c` with `show_battery` set from `v`, when `v` is of its kind.
pub open spec fn with_show_battery(c: Config, v: ConfigAttr) -> Config {
    match v {
        ConfigAttr::Bool(x) => Config { show_battery: x, ..c },
        _ => c,
    }
}

/// `c` with `show_init` set from `v`, when `v` is of its kind.
pub open spec fn with_show_init(c: Config, v: ConfigAttr) -> Config {
    match v {
        ConfigAttr::Bool(x) => Config { show_init: x, ..c },
        _ => c,
    }
}

/// `c` with `update_check` set from `v`, when `v` is of its kind.
pub open spec fn with_update_check(c: Config, v: ConfigAttr) -> Config {
    match v {
        ConfigAttr::Bool(x) => Config { update_check: x, ..c },
        _ => c,
    }
}

/// `c` with `log_level` set from `v`, when `v` is of its kind.
pub open spec fn with_log_level(c: Config, v: ConfigAttr) -> Config {
    match v {
        ConfigAttr::LogLevel(x) => Config { log_level: x, ..c },
        _ => c,
    }
}

/// `c` with attribute `a` set to `v` (`c` itself when `v` is of another
/// kind).
#[verifier::opaque]
pub open spec fn with_attr(c: Config, a: AttrName, v: ConfigAttr) -> Config {
    match a {
        AttrName::ColorTheme => with_color_theme(c, v),
        AttrName::ThemeBackground => with_theme_background(c, v),
        AttrName::ViewMode => with_view_mode(c, v),
        AttrName::UpdateMs => with_update_ms(c, v),
        AttrName::ProcSorting => with_proc_sorting(c, v),
        AttrName::ProcReversed => with_proc_reversed(c, v),
        AttrName::ProcTree => with_proc_tree(c, v),
        AttrName::TreeDepth => with_tree_depth(c, v),
        AttrName::ProcColors => with_proc_colors(c, v),
        AttrName::ProcGradient => with_proc_gradient(c, v),
        AttrName::ProcPerCore => with_proc_per_core(c, v),
        AttrName::ProcMemBytes => with_proc_mem_bytes(c, v),
        AttrName::CheckTemp => with_check_temp(c, v),
        AttrName::CpuSensor => with_cpu_sensor(c, v),
        AttrName::ShowCoretemp => with_show_coretemp(c, v),
        AttrName::DrawClock => with_draw_clock(c, v),
        AttrName::BackgroundUpdate => with_background_update(c, v),
        AttrName::CustomCpuName => with_custom_cpu_name(c, v),
        AttrName::DisksFilter => with_disks_filter(c, v),
        AttrName::MemGraphs => with_mem_graphs(c, v),
        AttrName::ShowSwap => with_show_swap(c, v),
        AttrName::SwapDisk => with_swap_disk(c, v),
        AttrName::ShowDisks => with_show_disks(c, v),
        AttrName::NetDownload => with_net_download(c, v),
        AttrName::NetUpload => with_net_upload(c, v),
        AttrName::NetAuto => with_net_auto(c, v),
        AttrName::NetSync => with_net_sync(c, v),
        AttrName::NetColorFixed => with_net_color_fixed(c, v),
        AttrName::ShowBattery => with_show_battery(c, v),
        AttrName::ShowInit => with_show_init(c, v),
        AttrName::UpdateCheck => with_update_check(c, v),
        AttrName::LogLevel => with_log_level(c, v),
    }
}

/// Setting an attribute to a value of another kind changes nothing.
pub proof fn lemma_with_wrong_kind(c: Config, a: AttrName, v: ConfigAttr)
    requires
        attr_variant(v) != kind_of(a),
    ensures
        with_attr(c, a, v) == c,
{
    reveal(with_attr);
    match a {
        AttrName::ColorTheme => {},
        AttrName::ThemeBackground => {},
        AttrName::ViewMode => {},
        AttrName::UpdateMs => {},
        AttrName::ProcSorting => {},
        AttrName::ProcReversed => {},
        AttrName::ProcTree => {},
        AttrName::TreeDepth => {},
        AttrName::ProcColors => {},
        AttrName::ProcGradient => {},
        AttrName::ProcPerCore => {},
        AttrName::ProcMemBytes => {},
        AttrName::CheckTemp => {},
        AttrName::CpuSensor => {},
        AttrName::ShowCoretemp => {},
        AttrName::DrawClock => {},
        AttrName::BackgroundUpdate => {},
        AttrName::CustomCpuName => {},
        AttrName::DisksFilter => {},
        AttrName::MemGraphs => {},
        AttrName::ShowSwap => {},
        AttrName::SwapDisk => {},
        AttrName::ShowDisks => {},
        AttrName::NetDownload => {},
        AttrName::NetUpload => {},
        AttrName::NetAuto => {},
        AttrName::NetSync => {},
        AttrName::NetColorFixed => {},
        AttrName::ShowBattery => {},
        AttrName::ShowInit => {},
        AttrName::UpdateCheck => {},
        AttrName::LogLevel => {},
    }
}

/// The number of a value's kind, as `kind_of` numbers the attributes'
/// kinds.
pub open spec fn attr_variant(v: ConfigAttr) -> int {
    match v {
        ConfigAttr::String(_) => 0,
        ConfigAttr::Bool(_) => 1,
        ConfigAttr::ViewMode(_) => 2,
        ConfigAttr::Int64(_) => 3,
        ConfigAttr::SortingOption(_) => 4,
        ConfigAttr::LogLevel(_) => 5,
    }
}

/// The number of the kind of value that attribute `a` holds.
fn kind_number(a: AttrName) -> (k: u8)
    ensures
        k == kind_of(a),
{
    match a {
        AttrName::ColorTheme => 0,
        AttrName::ThemeBackground => 1,
        AttrName::ViewMode => 2,
        AttrName::UpdateMs => 3,
        AttrName::ProcSorting => 4,
        AttrName::ProcReversed => 1,
        AttrName::ProcTree => 1,
        AttrName::TreeDepth => 3,
        AttrName::ProcColors => 1,
        AttrName::ProcGradient => 1,
        AttrName::ProcPerCore => 1,
        AttrName::ProcMemBytes => 1,
        AttrName::CheckTemp => 1,
        AttrName::CpuSensor => 0,
        AttrName::ShowCoretemp => 1,
        AttrName::DrawClock => 0,
        AttrName::BackgroundUpdate => 1,
        AttrName::CustomCpuName => 0,
        AttrName::DisksFilter => 0,
        AttrName::MemGraphs => 1,
        AttrName::ShowSwap => 1,
        AttrName::SwapDisk => 1,
        AttrName::ShowDisks => 1,
        AttrName::NetDownload => 0,
        AttrName::NetUpload => 0,
        AttrName::NetAuto => 1,
        AttrName::NetSync => 1,
        AttrName::NetColorFixed => 1,
        AttrName::ShowBattery => 1,
        AttrName::ShowInit => 1,
        AttrName::UpdateCheck => 1,
        AttrName::LogLevel => 5,
    }
}

/// Reading an attribute just set gives the value set (`tree_depth` keeps
/// it cut to 32 bits).
pub proof fn lemma_value_after_with(c: Config, a: AttrName, v: ConfigAttr)
    requires
        attr_variant(v) == kind_of(a),
    ensures
        attr_value(with_attr(c, a, v), a) == (if a == AttrName::TreeDepth {
            match v {
                ConfigAttr::Int64(x) => ConfigAttr::Int64(#[verifier::truncate] (x as i32) as i64),
                _ => v,
            }
        } else {
            v
        }),
{
    match a {
        AttrName::ColorTheme => lemma_after_with_color_theme(c, v),
        AttrName::ThemeBackground => lemma_after_with_theme_background(c, v),
        AttrName::ViewMode => lemma_after_with_view_mode(c, v),
        AttrName::UpdateMs => lemma_after_with_update_ms(c, v),
        AttrName::ProcSorting => lemma_after_with_proc_sorting(c, v),
        AttrName::ProcReversed => lemma_after_with_proc_reversed(c, v),
        AttrName::ProcTree => lemma_after_with_proc_tree(c, v),
        AttrName::TreeDepth => lemma_after_with_tree_depth(c, v),
        AttrName::ProcColors => lemma_after_with_proc_colors(c, v),
        AttrName::ProcGradient => lemma_after_with_proc_gradient(c, v),
        AttrName::ProcPerCore => lemma_after_with_proc_per_core(c, v),
        AttrName::ProcMemBytes => lemma_after_with_proc_mem_bytes(c, v),
        AttrName::CheckTemp => lemma_after_with_check_temp(c, v),
        AttrName::CpuSensor => lemma_after_with_cpu_sensor(c, v),
        AttrName::ShowCoretemp => lemma_after_with_show_coretemp(c, v),
        AttrName::DrawClock => lemma_after_with_draw_clock(c, v),
        AttrName::BackgroundUpdate => lemma_after_with_background_update(c, v),
        AttrName::CustomCpuName => lemma_after_with_custom_cpu_name(c, v),
        AttrName::DisksFilter => lemma_after_with_disks_filter(c, v),
        AttrName::MemGraphs => lemma_after_with_mem_graphs(c, v),
        AttrName::ShowSwap => lemma_after_with_show_swap(c, v),
        AttrName::SwapDisk => lemma_after_with_swap_disk(c, v),
        AttrName::ShowDisks => lemma_after_with_show_disks(c, v),
        AttrName::NetDownload => lemma_after_with_net_download(c, v),
        AttrName::NetUpload => lemma_after_with_net_upload(c, v),
        AttrName::NetAuto => lemma_after_with_net_auto(c, v),
        AttrName::NetSync => lemma_after_with_net_sync(c, v),
        AttrName::NetColorFixed => lemma_after_with_net_color_fixed(c, v),
        AttrName::ShowBattery => lemma_after_with_show_battery(c, v),
        AttrName::ShowInit => lemma_after_with_show_init(c, v),
        AttrName::UpdateCheck => lemma_after_with_update_check(c, v),
        AttrName::LogLevel => lemma_after_with_log_level(c, v),
    }
}

proof fn lemma_after_with_color_theme(c: Config, v: ConfigAttr)
    requires
        v is String,
    ensures
        attr_value(with_attr(c, AttrName::ColorTheme, v), AttrName::ColorTheme) == v,
{
    reveal(with_attr);
}

proof fn lemma_after_with_theme_background(c: Config, v: ConfigAttr)
    requires
        v is Bool,
    ensures
        attr_value(with_attr(c, AttrName::ThemeBackground, v), AttrName::ThemeBackground) == v,
{
    reveal(with_attr);
}

proof fn lemma_after_with_view_mode(c: Config, v: ConfigAttr)
    requires
        v is ViewMode,
    ensures
        attr_value(with_attr(c, AttrName::ViewMode, v), AttrName::ViewMode) == v,
{
    reveal(with_attr);
}

proof fn lemma_after_with_update_ms(c: Config, v: ConfigAttr)
    requires
        v is Int64,
    ensures
        attr_value(with_attr(c, AttrName::UpdateMs, v), AttrName::UpdateMs) == v,
{
    reveal(with_attr);
}

proof fn lemma_after_with_proc_sorting(c: Config, v: ConfigAttr)
    requires
        v is SortingOption,
    ensures
        attr_value(with_attr(c, AttrName::ProcSorting, v), AttrName::ProcSorting) == v,
{
    reveal(with_attr);
}

proof fn lemma_after_with_proc_reversed(c: Config, v: ConfigAttr)
    requires
        v is Bool,
    ensures
        attr_value(with_attr(c, AttrName::ProcReversed, v), AttrName::ProcReversed) == v,
{
    reveal(with_attr);
}

proof fn lemma_after_with_proc_tree(c: Config, v: ConfigAttr)
    requires
        v is Bool,
    ensures
        attr_value(with_attr(c, AttrName::ProcTree, v), AttrName::ProcTree) == v,
{
    reveal(with_attr);
}

proof fn lemma_after_with_tree_depth(c: Config, v: ConfigAttr)
    requires
        v is Int64,
    ensures
        attr_value(with_attr(c, AttrName::TreeDepth, v), AttrName::TreeDepth) == (match v {
            ConfigAttr::Int64(x) => ConfigAttr::Int64(#[verifier::truncate] (x as i32) as i64),
            _ => v,
        }),
{
    reveal(with_attr);
}

proof fn lemma_after_with_proc_colors(c: Config, v: ConfigAttr)
    requires
        v is Bool,
    ensures
        attr_value(with_attr(c, AttrName::ProcColors, v), AttrName::ProcColors) == v,
{
    reveal(with_attr);
}

proof fn lemma_after_with_proc_gradient(c: Config, v: ConfigAttr)
    requires
        v is Bool,
    ensures
        attr_value(with_attr(c, AttrName::ProcGradient, v), AttrName::ProcGradient) == v,
{
    reveal(with_attr);
}

proof fn lemma_after_with_proc_per_core(c: Config, v: ConfigAttr)
    requires
        v is Bool,
    ensures
        attr_value(with_attr(c, AttrName::ProcPerCore, v), AttrName::ProcPerCore) == v,
{
    reveal(with_attr);
}

proof fn lemma_after_with_proc_mem_bytes(c: Config, v: ConfigAttr)
    requires
        v is Bool,
    ensures
        attr_value(with_attr(c, AttrName::ProcMemBytes, v), AttrName::ProcMemBytes) == v,
{
    reveal(with_attr);
}

proof fn lemma_after_with_check_temp(c: Config, v: ConfigAttr)
    requires
        v is Bool,
    ensures
        attr_value(with_attr(c, AttrName::CheckTemp, v), AttrName::CheckTemp) == v,
{
    reveal(with_attr);
}

proof fn lemma_after_with_cpu_sensor(c: Config, v: ConfigAttr)
    requires
        v is String,
    ensures
        attr_value(with_attr(c, AttrName::CpuSensor, v), AttrName::CpuSensor) == v,
{
    reveal(with_attr);
}

proof fn lemma_after_with_show_coretemp(c: Config, v: ConfigAttr)
    requires
        v is Bool,
    ensures
        attr_value(with_attr(c, AttrName::ShowCoretemp, v), AttrName::ShowCoretemp) == v,
{
    reveal(with_attr);
}

proof fn lemma_after_with_draw_clock(c: Config, v: ConfigAttr)
    requires
        v is String,
    ensures
        attr_value(with_attr(c, AttrName::DrawClock, v), AttrName::DrawClock) == v,
{
    reveal(with_attr);
}

proof fn lemma_after_with_background_update(c: Config, v: ConfigAttr)
    requires
        v is Bool,
    ensures
        attr_value(with_attr(c, AttrName::BackgroundUpdate, v), AttrName::BackgroundUpdate) == v,
{
    reveal(with_attr);
}

proof fn lemma_after_with_custom_cpu_name(c: Config, v: ConfigAttr)
    requires
        v is String,
    ensures
        attr_value(with_attr(c, AttrName::CustomCpuName, v), AttrName::CustomCpuName) == v,
{
    reveal(with_attr);
}

proof fn lemma_after_with_disks_filter(c: Config, v: ConfigAttr)
    requires
        v is String,
    ensures
        attr_value(with_attr(c, AttrName::DisksFilter, v), AttrName::DisksFilter) == v,
{
    reveal(with_attr);
}

proof fn lemma_after_with_mem_graphs(c: Config, v: ConfigAttr)
    requires
        v is Bool,
    ensures
        attr_value(with_attr(c, AttrName::MemGraphs, v), AttrName::MemGraphs) == v,
{
    reveal(with_attr);
}

proof fn lemma_after_with_show_swap(c: Config, v: ConfigAttr)
    requires
        v is Bool,
    ensures
        attr_value(with_attr(c, AttrName::ShowSwap, v), AttrName::ShowSwap) == v,
{
    reveal(with_attr);
}

proof fn lemma_after_with_swap_disk(c: Config, v: ConfigAttr)
    requires
        v is Bool,
    ensures
        attr_value(with_attr(c, AttrName::SwapDisk, v), AttrName::SwapDisk) == v,
{
    reveal(with_attr);
}

proof fn lemma_after_with_show_disks(c: Config, v: ConfigAttr)
    requires
        v is Bool,
    ensures
        attr_value(with_attr(c, AttrName::ShowDisks, v), AttrName::ShowDisks) == v,
{
    reveal(with_attr);
}

proof fn lemma_after_with_net_download(c: Config, v: ConfigAttr)
    requires
        v is String,
    ensures
        attr_value(with_attr(c, AttrName::NetDownload, v), AttrName::NetDownload) == v,
{
    reveal(with_attr);
}

proof fn lemma_after_with_net_upload(c: Config, v: ConfigAttr)
    requires
        v is String,
    ensures
        attr_value(with_attr(c, AttrName::NetUpload, v), AttrName::NetUpload) == v,
{
    reveal(with_attr);
}

proof fn lemma_after_with_net_auto(c: Config, v: ConfigAttr)
    requires
        v is Bool,
    ensures
        attr_value(with_attr(c, AttrName::NetAuto, v), AttrName::NetAuto) == v,
{
    reveal(with_attr);
}

proof fn lemma_after_with_net_sync(c: Config, v: ConfigAttr)
    requires
        v is Bool,
    ensures
        attr_value(with_attr(c, AttrName::NetSync, v), AttrName::NetSync) == v,
{
    reveal(with_attr);
}

proof fn lemma_after_with_net_color_fixed(c: Config, v: ConfigAttr)
    requires
        v is Bool,
    ensures
        attr_value(with_attr(c, AttrName::NetColorFixed, v), AttrName::NetColorFixed) == v,
{
    reveal(with_attr);
}

proof fn lemma_after_with_show_battery(c: Config, v: ConfigAttr)
    requires
        v is Bool,
    ensures
        attr_value(with_attr(c, AttrName::ShowBattery, v), AttrName::ShowBattery) == v,
{
    reveal(with_attr);
}

proof fn lemma_after_with_show_init(c: Config, v: ConfigAttr)
    requires
        v is Bool,
    ensures
        attr_value(with_attr(c, AttrName::ShowInit, v), AttrName::ShowInit) == v,
{
    reveal(with_attr);
}

proof fn lemma_after_with_update_check(c: Config, v: ConfigAttr)
    requires
        v is Bool,
    ensures
        attr_value(with_attr(c, AttrName::UpdateCheck, v), AttrName::UpdateCheck) == v,
{
    reveal(with_attr);
}

proof fn lemma_after_with_log_level(c: Config, v: ConfigAttr)
    requires
        v is LogLevel,
    ensures
        attr_value(with_attr(c, AttrName::LogLevel, v), AttrName::LogLevel) == v,
{
    reveal(with_attr);
}

/// Whether every string, list and table of `c` is empty, every flag is
/// unset and every number is zero, with sorting by arguments, no view mode
/// and errors only logged.
pub open spec fn is_blank(c: Config) -> bool {
    &&& c.keys@.len() == 0
    &&& c.conf_dict@ == Map::<Seq<char>, ConfigItem>::empty()
    &&& c.attr@ == Map::<Seq<char>, ConfigItem>::empty()
    &&& c.color_theme@.len() == 0
    &&& !c.theme_background
    &&& c.update_ms == 0
    &&& c.proc_sorting == SortingOption::Arguments
    &&& !c.proc_reversed && !c.proc_tree
    &&& c.tree_depth == 0
    &&& !c.proc_colors && !c.proc_gradient && !c.proc_per_core && !c.proc_mem_bytes && !c.check_temp
    &&& c.cpu_sensor@.len() == 0
    &&& !c.show_coretemp
    &&& c.draw_clock@.len() == 0
    &&& !c.background_update
    &&& c.custom_cpu_name@.len() == 0
    &&& c.disks_filter@.len() == 0
    &&& !c.update_check && !c.mem_graphs && !c.show_swap && !c.swap_disk && !c.show_disks
    &&& c.net_download@.len() == 0
    &&& c.net_upload@.len() == 0
    &&& !c.net_color_fixed && !c.net_auto && !c.net_sync && !c.show_battery && !c.show_init
    &&& c.view_mode == ViewMode::Unset
    &&& c.log_level == LogLevel::Error
    &&& c.warnings@.len() == 0
    &&& c.info@.len() == 0
    &&& !c.changed
    &&& c.config_file@.len() == 0
    &&& !c.recreate
    &&& c.sorting_options@.len() == 0
    &&& c.log_levels@.len() == 0
    &&& c.view_modes@.len() == 0
    &&& c.cpu_sensors@.len() == 0
    &&& !c._initialized
}

impl Config {
    /// A configuration with every string and list empty and every flag
    /// unset.
    pub(crate) fn blank() -> (c: Config)
        ensures
            is_blank(c),
    {
        let conf_dict: StrMap<ConfigItem> = StrMap::new();
        let attr: StrMap<ConfigItem> = StrMap::new();
        assert(conf_dict@ =~= Map::<Seq<char>, ConfigItem>::empty());
        assert(attr@ =~= Map::<Seq<char>, ConfigItem>::empty());
        Config {
            keys: Vec::new(),
            conf_dict,
            attr,
            color_theme: String::new(),
            theme_background: false,
            update_ms: 0,
            proc_sorting: SortingOption::Arguments,
            proc_reversed: false,
            proc_tree: false,
            tree_depth: 0,
            proc_colors: false,
            proc_gradient: false,
            proc_per_core: false,
            proc_mem_bytes: false,
            check_temp: false,
            cpu_sensor: String::new(),
            show_coretemp: false,
            draw_clock: String::new(),
            background_update: false,
            custom_cpu_name: String::new(),
            disks_filter: String::new(),
            update_check: false,
            mem_graphs: false,
            show_swap: false,
            swap_disk: false,
            show_disks: false,
            net_download: String::new(),
            net_upload: String::new(),
            net_color_fixed: false,
            net_auto: false,
            net_sync: false,
            show_battery: false,
            show_init: false,
            view_mode: ViewMode::Unset,
            log_level: LogLevel::Error,
            warnings: Vec::new(),
            info: Vec::new(),
            changed: false,
            config_file: String::new(),
            recreate: false,
            sorting_options: Vec::new(),
            log_levels: Vec::new(),
            view_modes: Vec::new(),
            cpu_sensors: Vec::new(),
            _initialized: false,
        }
    }

    /// The value of attribute `a`.
    pub(crate) fn attr_get(&self, a: AttrName) -> (r: ConfigAttr)
        ensures
            r == attr_value(*self, a),
    {
        match a {
            AttrName::ColorTheme => ConfigAttr::String(self.color_theme.clone()),
            AttrName::ThemeBackground => ConfigAttr::Bool(self.theme_background),
            AttrName::ViewMode => ConfigAttr::ViewMode(self.view_mode),
            AttrName::UpdateMs => ConfigAttr::Int64(self.update_ms as i64),
            AttrName::ProcSorting => ConfigAttr::SortingOption(self.proc_sorting),
            AttrName::ProcReversed => ConfigAttr::Bool(self.proc_reversed),
            AttrName::ProcTree => ConfigAttr::Bool(self.proc_tree),
            AttrName::TreeDepth => ConfigAttr::Int64(self.tree_depth as i64),
            AttrName::ProcColors => ConfigAttr::Bool(self.proc_colors),
            AttrName::ProcGradient => ConfigAttr::Bool(self.proc_gradient),
            AttrName::ProcPerCore => ConfigAttr::Bool(self.proc_per_core),
            AttrName::ProcMemBytes => ConfigAttr::Bool(self.proc_mem_bytes),
            AttrName::CheckTemp => ConfigAttr::Bool(self.check_temp),
            AttrName::CpuSensor => ConfigAttr::String(self.cpu_sensor.clone()),
            AttrName::ShowCoretemp => ConfigAttr::Bool(self.show_coretemp),
            AttrName::DrawClock => ConfigAttr::String(self.draw_clock.clone()),
            AttrName::BackgroundUpdate => ConfigAttr::Bool(self.background_update),
            AttrName::CustomCpuName => ConfigAttr::String(self.custom_cpu_name.clone()),
            AttrName::DisksFilter => ConfigAttr::String(self.disks_filter.clone()),
            AttrName::MemGraphs => ConfigAttr::Bool(self.mem_graphs),
            AttrName::ShowSwap => ConfigAttr::Bool(self.show_swap),
            AttrName::SwapDisk => ConfigAttr::Bool(self.swap_disk),
            AttrName::ShowDisks => ConfigAttr::Bool(self.show_disks),
            AttrName::NetDownload => ConfigAttr::String(self.net_download.clone()),
            AttrName::NetUpload => ConfigAttr::String(self.net_upload.clone()),
            AttrName::NetAuto => ConfigAttr::Bool(self.net_auto),
            AttrName::NetSync => ConfigAttr::Bool(self.net_sync),
            AttrName::NetColorFixed => ConfigAttr::Bool(self.net_color_fixed),
            AttrName::ShowBattery => ConfigAttr::Bool(self.show_battery),
            AttrName::ShowInit => ConfigAttr::Bool(self.show_init),
            AttrName::UpdateCheck => ConfigAttr::Bool(self.update_check),
            AttrName::LogLevel => ConfigAttr::LogLevel(self.log_level),
        }
    }

    /// The configuration with attribute `a` set to `v` when `v` is of its
    /// kind.
    pub(crate) fn attr_put(self, a: AttrName, v: ConfigAttr) -> (r: Config)
        ensures
            r == with_attr(self, a, v),
    {
        let k = kind_number(a);
        let fits = match &v {
            ConfigAttr::String(_) => k == 0,
            ConfigAttr::Bool(_) => k == 1,
            ConfigAttr::ViewMode(_) => k == 2,
            ConfigAttr::Int64(_) => k == 3,
            ConfigAttr::SortingOption(_) => k == 4,
            ConfigAttr::LogLevel(_) => k == 5,
        };
        if !fits {
            proof { lemma_with_wrong_kind(self, a, v); }
            return self;
        }
        match v {
            ConfigAttr::String(x) => self.put_string(a, x),
            ConfigAttr::Bool(x) => self.put_bool(a, x),
            ConfigAttr::ViewMode(x) => self.put_view_mode(a, x),
            ConfigAttr::Int64(x) => self.put_int(a, x),
            ConfigAttr::SortingOption(x) => self.put_sorting(a, x),
            ConfigAttr::LogLevel(x) => self.put_log_level(a, x),
        }
    }

    /// The configuration with attribute `a`, which holds values of this
    /// kind, set to `x`.
    fn put_string(self, a: AttrName, x: String) -> (r: Config)
        requires
            kind_of(a) == 0,
        ensures
            r == with_attr(self, a, ConfigAttr::String(x)),
    {
        proof {
            reveal(with_attr);
        }
        match a {
            AttrName::ColorTheme => Config { color_theme: x, ..self },
            AttrName::CpuSensor => Config { cpu_sensor: x, ..self },
            AttrName::DrawClock => Config { draw_clock: x, ..self },
            AttrName::CustomCpuName => Config { custom_cpu_name: x, ..self },
            AttrName::DisksFilter => Config { disks_filter: x, ..self },
            AttrName::NetDownload => Config { net_download: x, ..self },
            AttrName::NetUpload => Config { net_upload: x, ..self },
            _ => self,
        }
    }

    /// The configuration with attribute `a`, which holds values of this
    /// kind, set to `x`.
    fn put_bool(self, a: AttrName, x: bool) -> (r: Config)
        requires
            kind_of(a) == 1,
        ensures
            r == with_attr(self, a, ConfigAttr::Bool(x)),
    {
        proof {
            reveal(with_attr);
        }
        match a {
            AttrName::ThemeBackground => Config { theme_background: x, ..self },
            AttrName::ProcReversed => Config { proc_reversed: x, ..self },
            AttrName::ProcTree => Config { proc_tree: x, ..self },
            AttrName::ProcColors => Config { proc_colors: x, ..self },
            AttrName::ProcGradient => Config { proc_gradient: x, ..self },
            AttrName::ProcPerCore => Config { proc_per_core: x, ..self },
            AttrName::ProcMemBytes => Config { proc_mem_bytes: x, ..self },
            AttrName::CheckTemp => Config { check_temp: x, ..self },
            AttrName::ShowCoretemp => Config { show_coretemp: x, ..self },
            AttrName::BackgroundUpdate => Config { background_update: x, ..self },
            AttrName::MemGraphs => Config { mem_graphs: x, ..self },
            AttrName::ShowSwap => Config { show_swap: x, ..self },
            AttrName::SwapDisk => Config { swap_disk: x, ..self },
            AttrName::ShowDisks => Config { show_disks: x, ..self },
            AttrName::NetAuto => Config { net_auto: x, ..self },
            AttrName::NetSync => Config { net_sync: x, ..self },
            AttrName::NetColorFixed => Config { net_color_fixed: x, ..self },
            AttrName::ShowBattery => Config { show_battery: x, ..self },
            AttrName::ShowInit => Config { show_init: x, ..self },
            AttrName::UpdateCheck => Config { update_check: x, ..self },
            _ => self,
        }
    }

    /// The configuration with attribute `a`, which holds values of this
    /// kind, set to `x`.
    fn put_view_mode(self, a: AttrName, x: ViewMode) -> (r: Config)
        requires
            kind_of(a) == 2,
        ensures
            r == with_attr(self, a, ConfigAttr::ViewMode(x)),
    {
        proof {
            reveal(with_attr);
        }
        match a {
            AttrName::ViewMode => Config { view_mode: x, ..self },
            _ => self,
        }
    }

    /// The configuration with attribute `a`, which holds values of this
    /// kind, set to `x`.
    fn put_int(self, a: AttrName, x: i64) -> (r: Config)
        requires
            kind_of(a) == 3,
        ensures
            r == with_attr(self, a, ConfigAttr::Int64(x)),
    {
        proof {
            reveal(with_attr);
        }
        match a {
            AttrName::UpdateMs => Config { update_ms: x, ..self },
            AttrName::TreeDepth => Config { tree_depth: x as i32, ..self },
            _ => self,
        }
    }

    /// The configuration with attribute `a`, which holds values of this
    /// kind, set to `x`.
    fn put_sorting(self, a: AttrName, x: SortingOption) -> (r: Config)
        requires
            kind_of(a) == 4,
        ensures
            r == with_attr(self, a, ConfigAttr::SortingOption(x)),
    {
        proof {
            reveal(with_attr);
        }
        match a {
            AttrName::ProcSorting => Config { proc_sorting: x, ..self },
            _ => self,
        }
    }

    /// The configuration with attribute `a`, which holds values of this
    /// kind, set to `x`.
    fn put_log_level(self, a: AttrName, x: LogLevel) -> (r: Config)
        requires
            kind_of(a) == 5,
        ensures
            r == with_attr(self, a, ConfigAttr::LogLevel(x)),
    {
        proof {
            reveal(with_attr);
        }
        match a {
            AttrName::LogLevel => Config { log_level: x, ..self },
            _ => self,
        }
    }

    /// The configuration with item `value` recorded under `name` (see
    /// `Config::setattr`).
    pub(crate) fn with_item(self, name: String, value: ConfigItem) -> (r: Config)
        ensures
            r == (Config { attr: r.attr, conf_dict: r.conf_dict, changed: self.changed || self._initialized, ..self }),
            r.attr@ == self.attr@.insert(name@, value),
            r.conf_dict@ == (if kept_in_conf_dict(name@) { self.conf_dict@.insert(name@, value) } else { self.conf_dict@ }),
    {
        let changed = self.changed || self._initialized;
        let kept = same_text(name.as_str(), "_initialized") || same_text(name.as_str(), "recreate")
            || same_text(name.as_str(), "changed");
        let mut conf_dict = self.conf_dict;
        if kept {
            conf_dict.insert(name.clone(), value.dup());
        }
        let mut attr = self.attr;
        attr.insert(name, value);
        Config { attr: attr, conf_dict: conf_dict, changed: changed, ..self }
    }
}

/// Setting one attribute leaves every other attribute as it was.
pub proof fn lemma_value_kept_by_with(c: Config, a: AttrName, b: AttrName, v: ConfigAttr)
    requires
        a != b,
    ensures
        attr_value(with_attr(c, a, v), b) == attr_value(c, b),
{
    match a {
        AttrName::ColorTheme => lemma_kept_by_with_color_theme(c, v, b),
        AttrName::ThemeBackground => lemma_kept_by_with_theme_background(c, v, b),
        AttrName::ViewMode => lemma_kept_by_with_view_mode(c, v, b),
        AttrName::UpdateMs => lemma_kept_by_with_update_ms(c, v, b),
        AttrName::ProcSorting => lemma_kept_by_with_proc_sorting(c, v, b),
        AttrName::ProcReversed => lemma_kept_by_with_proc_reversed(c, v, b),
        AttrName::ProcTree => lemma_kept_by_with_proc_tree(c, v, b),
        AttrName::TreeDepth => lemma_kept_by_with_tree_depth(c, v, b),
        AttrName::ProcColors => lemma_kept_by_with_proc_colors(c, v, b),
        AttrName::ProcGradient => lemma_kept_by_with_proc_gradient(c, v, b),
        AttrName::ProcPerCore => lemma_kept_by_with_proc_per_core(c, v, b),
        AttrName::ProcMemBytes => lemma_kept_by_with_proc_mem_bytes(c, v, b),
        AttrName::CheckTemp => lemma_kept_by_with_check_temp(c, v, b),
        AttrName::CpuSensor => lemma_kept_by_with_cpu_sensor(c, v, b),
        AttrName::ShowCoretemp => lemma_kept_by_with_show_coretemp(c, v, b),
        AttrName::DrawClock => lemma_kept_by_with_draw_clock(c, v, b),
        AttrName::BackgroundUpdate => lemma_kept_by_with_background_update(c, v, b),
        AttrName::CustomCpuName => lemma_kept_by_with_custom_cpu_name(c, v, b),
        AttrName::DisksFilter => lemma_kept_by_with_disks_filter(c, v, b),
        AttrName::MemGraphs => lemma_kept_by_with_mem_graphs(c, v, b),
        AttrName::ShowSwap => lemma_kept_by_with_show_swap(c, v, b),
        AttrName::SwapDisk => lemma_kept_by_with_swap_disk(c, v, b),
        AttrName::ShowDisks => lemma_kept_by_with_show_disks(c, v, b),
        AttrName::NetDownload => lemma_kept_by_with_net_download(c, v, b),
        AttrName::NetUpload => lemma_kept_by_with_net_upload(c, v, b),
        AttrName::NetAuto => lemma_kept_by_with_net_auto(c, v, b),
        AttrName::NetSync => lemma_kept_by_with_net_sync(c, v, b),
        AttrName::NetColorFixed => lemma_kept_by_with_net_color_fixed(c, v, b),
        AttrName::ShowBattery => lemma_kept_by_with_show_battery(c, v, b),
        AttrName::ShowInit => lemma_kept_by_with_show_init(c, v, b),
        AttrName::UpdateCheck => lemma_kept_by_with_update_check(c, v, b),
        AttrName::LogLevel => lemma_kept_by_with_log_level(c, v, b),
    }
}

proof fn lemma_kept_by_with_color_theme(c: Config, v: ConfigAttr, b: AttrName)
    requires
        b != AttrName::ColorTheme,
    ensures
        attr_value(with_attr(c, AttrName::ColorTheme, v), b) == attr_value(c, b),
{
    assert(with_attr(c, AttrName::ColorTheme, v) == with_color_theme(c, v)) by {
        reveal(with_attr);
    }
}

proof fn lemma_kept_by_with_theme_background(c: Config, v: ConfigAttr, b: AttrName)
    requires
        b != AttrName::ThemeBackground,
    ensures
        attr_value(with_attr(c, AttrName::ThemeBackground, v), b) == attr_value(c, b),
{
    assert(with_attr(c, AttrName::ThemeBackground, v) == with_theme_background(c, v)) by {
        reveal(with_attr);
    }
}

proof fn lemma_kept_by_with_view_mode(c: Config, v: ConfigAttr, b: AttrName)
    requires
        b != AttrName::ViewMode,
    ensures
        attr_value(with_attr(c, AttrName::ViewMode, v), b) == attr_value(c, b),
{
    assert(with_attr(c, AttrName::ViewMode, v) == with_view_mode(c, v)) by {
        reveal(with_attr);
    }
}

proof fn lemma_kept_by_with_update_ms(c: Config, v: ConfigAttr, b: AttrName)
    requires
        b != AttrName::UpdateMs,
    ensures
        attr_value(with_attr(c, AttrName::UpdateMs, v), b) == attr_value(c, b),
{
    assert(with_attr(c, AttrName::UpdateMs, v) == with_update_ms(c, v)) by {
        reveal(with_attr);
    }
}

proof fn lemma_kept_by_with_proc_sorting(c: Config, v: ConfigAttr, b: AttrName)
    requires
        b != AttrName::ProcSorting,
    ensures
        attr_value(with_attr(c, AttrName::ProcSorting, v), b) == attr_value(c, b),
{
    assert(with_attr(c, AttrName::ProcSorting, v) == with_proc_sorting(c, v)) by {
        reveal(with_attr);
    }
}

proof fn lemma_kept_by_with_proc_reversed(c: Config, v: ConfigAttr, b: AttrName)
    requires
        b != AttrName::ProcReversed,
    ensures
        attr_value(with_attr(c, AttrName::ProcReversed, v), b) == attr_value(c, b),
{
    assert(with_attr(c, AttrName::ProcReversed, v) == with_proc_reversed(c, v)) by {
        reveal(with_attr);
    }
}

proof fn lemma_kept_by_with_proc_tree(c: Config, v: ConfigAttr, b: AttrName)
    requires
        b != AttrName::ProcTree,
    ensures
        attr_value(with_attr(c, AttrName::ProcTree, v), b) == attr_value(c, b),
{
    assert(with_attr(c, AttrName::ProcTree, v) == with_proc_tree(c, v)) by {
        reveal(with_attr);
    }
}

proof fn lemma_kept_by_with_tree_depth(c: Config, v: ConfigAttr, b: AttrName)
    requires
        b != AttrName::TreeDepth,
    ensures
        attr_value(with_attr(c, AttrName::TreeDepth, v), b) == attr_value(c, b),
{
    assert(with_attr(c, AttrName::TreeDepth, v) == with_tree_depth(c, v)) by {
        reveal(with_attr);
    }
}

proof fn lemma_kept_by_with_proc_colors(c: Config, v: ConfigAttr, b: AttrName)
    requires
        b != AttrName::ProcColors,
    ensures
        attr_value(with_attr(c, AttrName::ProcColors, v), b) == attr_value(c, b),
{
    assert(with_attr(c, AttrName::ProcColors, v) == with_proc_colors(c, v)) by {
        reveal(with_attr);
    }
}

proof fn lemma_kept_by_with_proc_gradient(c: Config, v: ConfigAttr, b: AttrName)
    requires
        b != AttrName::ProcGradient,
    ensures
        attr_value(with_attr(c, AttrName::ProcGradient, v), b) == attr_value(c, b),
{
    assert(with_attr(c, AttrName::ProcGradient, v) == with_proc_gradient(c, v)) by {
        reveal(with_attr);
    }
}

proof fn lemma_kept_by_with_proc_per_core(c: Config, v: ConfigAttr, b: AttrName)
    requires
        b != AttrName::ProcPerCore,
    ensures
        attr_value(with_attr(c, AttrName::ProcPerCore, v), b) == attr_value(c, b),
{
    assert(with_attr(c, AttrName::ProcPerCore, v) == with_proc_per_core(c, v)) by {
        reveal(with_attr);
    }
}

proof fn lemma_kept_by_with_proc_mem_bytes(c: Config, v: ConfigAttr, b: AttrName)
    requires
        b != AttrName::ProcMemBytes,
    ensures
        attr_value(with_attr(c, AttrName::ProcMemBytes, v), b) == attr_value(c, b),
{
    assert(with_attr(c, AttrName::ProcMemBytes, v) == with_proc_mem_bytes(c, v)) by {
        reveal(with_attr);
    }
}

proof fn lemma_kept_by_with_check_temp(c: Config, v: ConfigAttr, b: AttrName)
    requires
        b != AttrName::CheckTemp,
    ensures
        attr_value(with_attr(c, AttrName::CheckTemp, v), b) == attr_value(c, b),
{
    assert(with_attr(c, AttrName::CheckTemp, v) == with_check_temp(c, v)) by {
        reveal(with_attr);
    }
}

proof fn lemma_kept_by_with_cpu_sensor(c: Config, v: ConfigAttr, b: AttrName)
    requires
        b != AttrName::CpuSensor,
    ensures
        attr_value(with_attr(c, AttrName::CpuSensor, v), b) == attr_value(c, b),
{
    assert(with_attr(c, AttrName::CpuSensor, v) == with_cpu_sensor(c, v)) by {
        reveal(with_attr);
    }
}

proof fn lemma_kept_by_with_show_coretemp(c: Config, v: ConfigAttr, b: AttrName)
    requires
        b != AttrName::ShowCoretemp,
    ensures
        attr_value(with_attr(c, AttrName::ShowCoretemp, v), b) == attr_value(c, b),
{
    assert(with_attr(c, AttrName::ShowCoretemp, v) == with_show_coretemp(c, v)) by {
        reveal(with_attr);
    }
}

proof fn lemma_kept_by_with_draw_clock(c: Config, v: ConfigAttr, b: AttrName)
    requires
        b != AttrName::DrawClock,
    ensures
        attr_value(with_attr(c, AttrName::DrawClock, v), b) == attr_value(c, b),
{
    assert(with_attr(c, AttrName::DrawClock, v) == with_draw_clock(c, v)) by {
        reveal(with_attr);
    }
}

proof fn lemma_kept_by_with_background_update(c: Config, v: ConfigAttr, b: AttrName)
    requires
        b != AttrName::BackgroundUpdate,
    ensures
        attr_value(with_attr(c, AttrName::BackgroundUpdate, v), b) == attr_value(c, b),
{
    assert(with_attr(c, AttrName::BackgroundUpdate, v) == with_background_update(c, v)) by {
        reveal(with_attr);
    }
}

proof fn lemma_kept_by_with_custom_cpu_name(c: Config, v: ConfigAttr, b: AttrName)
    requires
        b != AttrName::CustomCpuName,
    ensures
        attr_value(with_attr(c, AttrName::CustomCpuName, v), b) == attr_value(c, b),
{
    assert(with_attr(c, AttrName::CustomCpuName, v) == with_custom_cpu_name(c, v)) by {
        reveal(with_attr);
    }
}

proof fn lemma_kept_by_with_disks_filter(c: Config, v: ConfigAttr, b: AttrName)
    requires
        b != AttrName::DisksFilter,
    ensures
        attr_value(with_attr(c, AttrName::DisksFilter, v), b) == attr_value(c, b),
{
    assert(with_attr(c, AttrName::DisksFilter, v) == with_disks_filter(c, v)) by {
        reveal(with_attr);
    }
}

proof fn lemma_kept_by_with_mem_graphs(c: Config, v: ConfigAttr, b: AttrName)
    requires
        b != AttrName::MemGraphs,
    ensures
        attr_value(with_attr(c, AttrName::MemGraphs, v), b) == attr_value(c, b),
{
    assert(with_attr(c, AttrName::MemGraphs, v) == with_mem_graphs(c, v)) by {
        reveal(with_attr);
    }
}

proof fn lemma_kept_by_with_show_swap(c: Config, v: ConfigAttr, b: AttrName)
    requires
        b != AttrName::ShowSwap,
    ensures
        attr_value(with_attr(c, AttrName::ShowSwap, v), b) == attr_value(c, b),
{
    assert(with_attr(c, AttrName::ShowSwap, v) == with_show_swap(c, v)) by {
        reveal(with_attr);
    }
}

proof fn lemma_kept_by_with_swap_disk(c: Config, v: ConfigAttr, b: AttrName)
    requires
        b != AttrName::SwapDisk,
    ensures
        attr_value(with_attr(c, AttrName::SwapDisk, v), b) == attr_value(c, b),
{
    assert(with_attr(c, AttrName::SwapDisk, v) == with_swap_disk(c, v)) by {
        reveal(with_attr);
    }
}

proof fn lemma_kept_by_with_show_disks(c: Config, v: ConfigAttr, b: AttrName)
    requires
        b != AttrName::ShowDisks,
    ensures
        attr_value(with_attr(c, AttrName::ShowDisks, v), b) == attr_value(c, b),
{
    assert(with_attr(c, AttrName::ShowDisks, v) == with_show_disks(c, v)) by {
        reveal(with_attr);
    }
}

proof fn lemma_kept_by_with_net_download(c: Config, v: ConfigAttr, b: AttrName)
    requires
        b != AttrName::NetDownload,
    ensures
        attr_value(with_attr(c, AttrName::NetDownload, v), b) == attr_value(c, b),
{
    assert(with_attr(c, AttrName::NetDownload, v) == with_net_download(c, v)) by {
        reveal(with_attr);
    }
}

proof fn lemma_kept_by_with_net_upload(c: Config, v: ConfigAttr, b: AttrName)
    requires
        b != AttrName::NetUpload,
    ensures
        attr_value(with_attr(c, AttrName::NetUpload, v), b) == attr_value(c, b),
{
    assert(with_attr(c, AttrName::NetUpload, v) == with_net_upload(c, v)) by {
        reveal(with_attr);
    }
}

proof fn lemma_kept_by_with_net_auto(c: Config, v: ConfigAttr, b: AttrName)
    requires
        b != AttrName::NetAuto,
    ensures
        attr_value(with_attr(c, AttrName::NetAuto, v), b) == attr_value(c, b),
{
    assert(with_attr(c, AttrName::NetAuto, v) == with_net_auto(c, v)) by {
        reveal(with_attr);
    }
}

proof fn lemma_kept_by_with_net_sync(c: Config, v: ConfigAttr, b: AttrName)
    requires
        b != AttrName::NetSync,
    ensures
        attr_value(with_attr(c, AttrName::NetSync, v), b) == attr_value(c, b),
{
    assert(with_attr(c, AttrName::NetSync, v) == with_net_sync(c, v)) by {
        reveal(with_attr);
    }
}

proof fn lemma_kept_by_with_net_color_fixed(c: Config, v: ConfigAttr, b: AttrName)
    requires
        b != AttrName::NetColorFixed,
    ensures
        attr_value(with_attr(c, AttrName::NetColorFixed, v), b) == attr_value(c, b),
{
    assert(with_attr(c, AttrName::NetColorFixed, v) == with_net_color_fixed(c, v)) by {
        reveal(with_attr);
    }
}

proof fn lemma_kept_by_with_show_battery(c: Config, v: ConfigAttr, b: AttrName)
    requires
        b != AttrName::ShowBattery,
    ensures
        attr_value(with_attr(c, AttrName::ShowBattery, v), b) == attr_value(c, b),
{
    assert(with_attr(c, AttrName::ShowBattery, v) == with_show_battery(c, v)) by {
        reveal(with_attr);
    }
}

proof fn lemma_kept_by_with_show_init(c: Config, v: ConfigAttr, b: AttrName)
    requires
        b != AttrName::ShowInit,
    ensures
        attr_value(with_attr(c, AttrName::ShowInit, v), b) == attr_value(c, b),
{
    assert(with_attr(c, AttrName::ShowInit, v) == with_show_init(c, v)) by {
        reveal(with_attr);
    }
}

proof fn lemma_kept_by_with_update_check(c: Config, v: ConfigAttr, b: AttrName)
    requires
        b != AttrName::UpdateCheck,
    ensures
        attr_value(with_attr(c, AttrName::UpdateCheck, v), b) == attr_value(c, b),
{
    assert(with_attr(c, AttrName::UpdateCheck, v) == with_update_check(c, v)) by {
        reveal(with_attr);
    }
}

proof fn lemma_kept_by_with_log_level(c: Config, v: ConfigAttr, b: AttrName)
    requires
        b != AttrName::LogLevel,
    ensures
        attr_value(with_attr(c, AttrName::LogLevel, v), b) == attr_value(c, b),
{
    assert(with_attr(c, AttrName::LogLevel, v) == with_log_level(c, v)) by {
        reveal(with_attr);
    }
}

} // verus!
