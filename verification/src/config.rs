//! Configuration values: the view modes, log levels and process sortings,
//! the items read from the configuration file and the attributes of the
//! configuration.
use vstd::prelude::*;
use crate::text::{owned, push_str, i64_dec, dec_int};
use crate::strmap::Dup;
use crate::settings::{Config, AttrName, attr_value, attr_variant, kind_of, with_attr, lemma_value_after_with, lemma_value_kept_by_with};

verus! {

/// Which boxes are shown.
#[derive(Clone, Copy, Debug, PartialEq, Eq, Structural)]
pub enum ViewMode {
    Full,
    Proc,
    Stat,
    /// No mode given (printed as `None`).
    Unset,
}

/// How much goes to the error log.
#[derive(Clone, Copy, Debug, PartialEq, Eq, Structural)]
pub enum LogLevel {
    Error,
    Warning,
    Info,
    Debug,
}

/// The key by which processes are sorted.
#[derive(Clone, Copy, Debug, PartialEq, Eq, Structural)]
pub enum SortingOption {
    Pid,
    Program,
    Arguments,
    Threads,
    User,
    Memory,
    Cpu { lazy: bool },
}

/// The text of a view mode, quoted.
pub open spec fn view_mode_text(v: ViewMode) -> Seq<char> {
    match v {
        ViewMode::Full => "\"full\""@,
        ViewMode::Proc => "\"proc\""@,
        ViewMode::Stat => "\"stat\""@,
        ViewMode::Unset => "\"None\""@,
    }
}

/// The name of a view mode as `Debug` prints it.
pub open spec fn view_mode_name(v: ViewMode) -> Seq<char> {
    match v {
        ViewMode::Full => "Full"@,
        ViewMode::Proc => "Proc"@,
        ViewMode::Stat => "Stat"@,
        ViewMode::Unset => "None"@,
    }
}

/// The text of a log level, quoted.
pub open spec fn log_level_text(l: LogLevel) -> Seq<char> {
    match l {
        LogLevel::Error => "\"error\""@,
        LogLevel::Warning => "\"warning\""@,
        LogLevel::Info => "\"info\""@,
        LogLevel::Debug => "\"debug\""@,
    }
}

/// The name of a log level as `Debug` prints it.
pub open spec fn log_level_name(l: LogLevel) -> Seq<char> {
    match l {
        LogLevel::Error => "Error"@,
        LogLevel::Warning => "Warning"@,
        LogLevel::Info => "Info"@,
        LogLevel::Debug => "Debug"@,
    }
}

/// The text of a sorting option, quoted.
pub open spec fn sorting_text(s: SortingOption) -> Seq<char> {
    match s {
        SortingOption::Pid => "\"pid\""@,
        SortingOption::Program => "\"program\""@,
        SortingOption::Arguments => "\"arguments\""@,
        SortingOption::Threads => "\"threads\""@,
        SortingOption::User => "\"user\""@,
        SortingOption::Memory => "\"memory\""@,
        SortingOption::Cpu { lazy } => if lazy { "\"cpu lazy\""@ } else { "\"cpu\""@ },
    }
}

/// The name of a sorting option as `Debug` prints it.
pub open spec fn sorting_name(s: SortingOption) -> Seq<char> {
    match s {
        SortingOption::Pid => "Pid"@,
        SortingOption::Program => "Program"@,
        SortingOption::Arguments => "Arguments"@,
        SortingOption::Threads => "Threads"@,
        SortingOption::User => "User"@,
        SortingOption::Memory => "Memory"@,
        SortingOption::Cpu { lazy } => if lazy { "Cpu { lazy: true }"@ } else { "Cpu { lazy: false }"@ },
    }
}

/// The sorting option a configuration value names, if any.
pub open spec fn sorting_of(s: Seq<char>) -> Option<SortingOption> {
    if s == "pid"@ {
        Some(SortingOption::Pid)
    } else if s == "program"@ {
        Some(SortingOption::Program)
    } else if s == "arguments"@ {
        Some(SortingOption::Arguments)
    } else if s == "threads"@ {
        Some(SortingOption::Threads)
    } else if s == "user"@ {
        Some(SortingOption::User)
    } else if s == "memory"@ {
        Some(SortingOption::Memory)
    } else if s == "cpu"@ {
        Some(SortingOption::Cpu { lazy: false })
    } else if s == "cpu lazy"@ {
        Some(SortingOption::Cpu { lazy: true })
    } else {
        None
    }
}

/// The log level a configuration value names, if any.
pub open spec fn log_level_of(s: Seq<char>) -> Option<LogLevel> {
    if s == "error"@ {
        Some(LogLevel::Error)
    } else if s == "warning"@ {
        Some(LogLevel::Warning)
    } else if s == "info"@ {
        Some(LogLevel::Info)
    } else if s == "debug"@ {
        Some(LogLevel::Debug)
    } else {
        None
    }
}

/// The view mode a configuration value names, if any.
pub open spec fn view_mode_of(s: Seq<char>) -> Option<ViewMode> {
    if s == "full"@ {
        Some(ViewMode::Full)
    } else if s == "proc"@ {
        Some(ViewMode::Proc)
    } else if s == "stat"@ {
        Some(ViewMode::Stat)
    } else {
        None
    }
}

/// The characters of a string slice, compared as `==` on `str` does.
pub(crate) fn same_text(a: &str, b: &str) -> (r: bool)
    ensures
        r == (a@ == b@),
{
    crate::text::str_eq(a, b)
}

impl ViewMode {
    /// The mode, quoted, as the configuration file writes it.
    pub fn to_string(&self) -> (r: String)
        ensures
            r@ == view_mode_text(*self),
    {
        match self {
            ViewMode::Full => owned("\"full\""),
            ViewMode::Proc => owned("\"proc\""),
            ViewMode::Stat => owned("\"stat\""),
            ViewMode::Unset => owned("\"None\""),
        }
    }

    /// The name of the mode.
    pub fn name(&self) -> (r: String)
        ensures
            r@ == view_mode_name(*self),
    {
        match self {
            ViewMode::Full => owned("Full"),
            ViewMode::Proc => owned("Proc"),
            ViewMode::Stat => owned("Stat"),
            ViewMode::Unset => owned("None"),
        }
    }
}

impl LogLevel {
    /// The level, quoted, as the configuration file writes it.
    pub fn to_string(&self) -> (r: String)
        ensures
            r@ == log_level_text(*self),
    {
        match self {
            LogLevel::Error => owned("\"error\""),
            LogLevel::Warning => owned("\"warning\""),
            LogLevel::Info => owned("\"info\""),
            LogLevel::Debug => owned("\"debug\""),
        }
    }

    /// The name of the level.
    pub fn name(&self) -> (r: String)
        ensures
            r@ == log_level_name(*self),
    {
        match self {
            LogLevel::Error => owned("Error"),
            LogLevel::Warning => owned("Warning"),
            LogLevel::Info => owned("Info"),
            LogLevel::Debug => owned("Debug"),
        }
    }
}

impl SortingOption {
    /// The option, quoted, as the configuration file writes it.
    pub fn to_string(&self) -> (r: String)
        ensures
            r@ == sorting_text(*self),
    {
        match self {
            SortingOption::Pid => owned("\"pid\""),
            SortingOption::Program => owned("\"program\""),
            SortingOption::Arguments => owned("\"arguments\""),
            SortingOption::Threads => owned("\"threads\""),
            SortingOption::User => owned("\"user\""),
            SortingOption::Memory => owned("\"memory\""),
            SortingOption::Cpu { lazy } => if *lazy { owned("\"cpu lazy\"") } else { owned("\"cpu\"") },
        }
    }

    /// The name of the option.
    pub fn name(&self) -> (r: String)
        ensures
            r@ == sorting_name(*self),
    {
        match self {
            SortingOption::Pid => owned("Pid"),
            SortingOption::Program => owned("Program"),
            SortingOption::Arguments => owned("Arguments"),
            SortingOption::Threads => owned("Threads"),
            SortingOption::User => owned("User"),
            SortingOption::Memory => owned("Memory"),
            SortingOption::Cpu { lazy } => if *lazy { owned("Cpu { lazy: true }") } else { owned("Cpu { lazy: false }") },
        }
    }

    /// The option named by an already lower-cased text: `Arguments` when it
    /// names none.
    pub fn from_lowercase(x: &str) -> (r: SortingOption)
        ensures
            r == (match sorting_of(x@) {
                Some(s) => s,
                None => SortingOption::Arguments,
            }),
    {
        match sorting_of_text(x) {
            Some(s) => s,
            None => SortingOption::Arguments,
        }
    }
}

/// The sorting option `x` names, if any.
fn sorting_of_text(x: &str) -> (r: Option<SortingOption>)
    ensures
        r == sorting_of(x@),
{
    if same_text(x, "pid") {
        Some(SortingOption::Pid)
    } else if same_text(x, "program") {
        Some(SortingOption::Program)
    } else if same_text(x, "arguments") {
        Some(SortingOption::Arguments)
    } else if same_text(x, "threads") {
        Some(SortingOption::Threads)
    } else if same_text(x, "user") {
        Some(SortingOption::User)
    } else if same_text(x, "memory") {
        Some(SortingOption::Memory)
    } else if same_text(x, "cpu") {
        Some(SortingOption::Cpu { lazy: false })
    } else if same_text(x, "cpu lazy") {
        Some(SortingOption::Cpu { lazy: true })
    } else {
        None
    }
}

/// The log level `x` names, if any.
fn log_level_of_text(x: &str) -> (r: Option<LogLevel>)
    ensures
        r == log_level_of(x@),
{
    if same_text(x, "error") {
        Some(LogLevel::Error)
    } else if same_text(x, "warning") {
        Some(LogLevel::Warning)
    } else if same_text(x, "info") {
        Some(LogLevel::Info)
    } else if same_text(x, "debug") {
        Some(LogLevel::Debug)
    } else {
        None
    }
}

/// The view mode `x` names, if any.
fn view_mode_of_text(x: &str) -> (r: Option<ViewMode>)
    ensures
        r == view_mode_of(x@),
{
    if same_text(x, "full") {
        Some(ViewMode::Full)
    } else if same_text(x, "proc") {
        Some(ViewMode::Proc)
    } else if same_text(x, "stat") {
        Some(ViewMode::Stat)
    } else {
        None
    }
}

/// The lower-case form of a text, as `str::to_lowercase` gives it.
pub uninterp spec fn str_lowercase(s: Seq<char>) -> Seq<char>;

/// Whether every character of `s` is ASCII.
pub open spec fn all_ascii(s: Seq<char>) -> bool {
    forall|i: int| 0 <= i < s.len() ==> (#[trigger] s[i] as u32) < 128
}

/// `s` with its ASCII capitals made small letters.
pub open spec fn ascii_lower(s: Seq<char>) -> Seq<char> {
    Seq::new(s.len(), |i: int| if 'A' <= s[i] && s[i] <= 'Z' { ((s[i] as u32) + 32) as char } else { s[i] })
}

/// `str::to_lowercase`: the Unicode lower-case mapping of every character.
/// Its contract names the result, and says that a text of ASCII characters
/// only has its capitals made small letters, as the documentation of
/// `char::to_lowercase` gives for ASCII.
#[verifier::external_body]
pub(crate) fn lowercase(s: &str) -> (r: String)
    ensures
        r@ == str_lowercase(s@),
        all_ascii(s@) ==> r@ == ascii_lower(s@),
{
    s.to_lowercase()
}

/// A text as `Debug` prints a string: quoted, with escapes.
pub uninterp spec fn str_debug(s: Seq<char>) -> Seq<char>;

/// `<str as Debug>::fmt`: the text in double quotes, with quotes,
/// backslashes and non-printable characters escaped. Its contract names
/// the result only.
#[verifier::external_body]
pub(crate) fn debug_text(s: &str) -> (r: String)
    ensures
        r@ == str_debug(s@),
{
    format!("{:?}", s)
}

impl From<String> for SortingOption {
    /// The option that the lower-cased text names, `Arguments` when none;
    /// for a text of ASCII characters, the lower-casing makes its capitals
    /// small letters.
    fn from(x: String) -> (r: SortingOption)
        ensures
            all_ascii(x@) ==> r == (match sorting_of(ascii_lower(x@)) {
                Some(s) => s,
                None => SortingOption::Arguments,
            }),
    {
        let low = lowercase(x.as_str());
        SortingOption::from_lowercase(low.as_str())
    }
}

impl vstd::std_specs::convert::FromSpecImpl<String> for SortingOption {
    open spec fn obeys_from_spec() -> bool {
        true
    }

    open spec fn from_spec(v: String) -> SortingOption {
        match sorting_of(str_lowercase(v@)) {
            Some(s) => s,
            None => SortingOption::Arguments,
        }
    }
}

/// A value read from the configuration file.
#[derive(Debug, PartialEq, Eq)]
pub enum ConfigItem {
    Str(String),
    Int(i64),
    Bool(bool),
    ViewMode(ViewMode),
    LogLevel(LogLevel),
    SortingOption(SortingOption),
    Error,
}

/// A configuration value with its text by characters.
pub enum ItemView {
    Str(Seq<char>),
    Int(i64),
    Bool(bool),
    ViewMode(ViewMode),
    LogLevel(LogLevel),
    SortingOption(SortingOption),
    Error,
}

impl View for ConfigItem {
    type V = ItemView;

    open spec fn view(&self) -> ItemView {
        match self {
            ConfigItem::Str(s) => ItemView::Str(s@),
            ConfigItem::Int(i) => ItemView::Int(*i),
            ConfigItem::Bool(b) => ItemView::Bool(*b),
            ConfigItem::ViewMode(v) => ItemView::ViewMode(*v),
            ConfigItem::LogLevel(l) => ItemView::LogLevel(*l),
            ConfigItem::SortingOption(o) => ItemView::SortingOption(*o),
            ConfigItem::Error => ItemView::Error,
        }
    }
}

/// The text of a configuration value as the configuration file writes it.
pub open spec fn item_text(v: ItemView) -> Seq<char> {
    match v {
        ItemView::Str(s) => str_debug(s),
        ItemView::Int(i) => dec_int(i as int),
        ItemView::Bool(b) => if b { "true"@ } else { "false"@ },
        ItemView::ViewMode(m) => view_mode_name(m),
        ItemView::LogLevel(l) => log_level_name(l),
        ItemView::SortingOption(o) => sorting_name(o),
        ItemView::Error => str_debug("_error_"@),
    }
}

impl crate::strmap::Dup for ConfigItem {
    fn dup(&self) -> (r: Self) {
        match self {
            ConfigItem::Str(s) => ConfigItem::Str(s.clone()),
            ConfigItem::Int(i) => ConfigItem::Int(*i),
            ConfigItem::Bool(b) => ConfigItem::Bool(*b),
            ConfigItem::ViewMode(v) => ConfigItem::ViewMode(*v),
            ConfigItem::LogLevel(l) => ConfigItem::LogLevel(*l),
            ConfigItem::SortingOption(o) => ConfigItem::SortingOption(*o),
            ConfigItem::Error => ConfigItem::Error,
        }
    }
}

/// The message for a value that names no option of key `key`.
pub open spec fn unknown_value_message(key: Seq<char>, bad: Seq<char>) -> Seq<char> {
    "Config key \""@ + key + "\" had an unknown value: "@ + bad
}

/// A message `Config key "<key>" had an unknown value: <bad>`.
fn unknown_value(key: &str, bad: &str) -> (r: String)
    ensures
        r@ == unknown_value_message(key@, bad@),
{
    let mut r = owned("Config key \"");
    push_str(&mut r, key);
    push_str(&mut r, "\" had an unknown value: ");
    push_str(&mut r, bad);
    r
}

impl ConfigItem {
    /// The item's text as the configuration file writes it.
    pub fn to_string(&self) -> (r: String)
        ensures
            r@ == item_text(self@),
    {
        match self {
            ConfigItem::Str(s) => debug_text(s.as_str()),
            ConfigItem::Int(i) => i64_dec(*i),
            ConfigItem::Bool(b) => if *b { owned("true") } else { owned("false") },
            ConfigItem::ViewMode(v) => v.name(),
            ConfigItem::LogLevel(l) => l.name(),
            ConfigItem::SortingOption(o) => o.name(),
            ConfigItem::Error => debug_text("_error_"),
        }
    }

    /// The sorting option of a `proc_sorted` value, or the message for an
    /// unknown one.
    pub(crate) fn sorting_option(s: &String) -> (r: Result<ConfigItem, String>)
        ensures
            match sorting_of(s@) {
                Some(o) => r == Ok::<ConfigItem, String>(ConfigItem::SortingOption(o)),
                None => r matches Err(e) && e@ == unknown_value_message("proc_sorted"@, s@),
            },
    {
        match sorting_of_text(s.as_str()) {
            Some(o) => Ok(ConfigItem::SortingOption(o)),
            None => Err(unknown_value("proc_sorted", s.as_str())),
        }
    }

    /// The log level of a `log_level` value, or the message for an unknown
    /// one.
    pub(crate) fn log_level(s: &String) -> (r: Result<ConfigItem, String>)
        ensures
            match log_level_of(s@) {
                Some(l) => r == Ok::<ConfigItem, String>(ConfigItem::LogLevel(l)),
                None => r matches Err(e) && e@ == unknown_value_message("log_level"@, s@),
            },
    {
        match log_level_of_text(s.as_str()) {
            Some(l) => Ok(ConfigItem::LogLevel(l)),
            None => Err(unknown_value("log_level", s.as_str())),
        }
    }

    /// The view mode of a `view_mode` value, or the message for an unknown
    /// one.
    pub(crate) fn view_mode(s: &String) -> (r: Result<ConfigItem, String>)
        ensures
            match view_mode_of(s@) {
                Some(v) => r == Ok::<ConfigItem, String>(ConfigItem::ViewMode(v)),
                None => r matches Err(e) && e@ == unknown_value_message("view_mode"@, s@),
            },
    {
        match view_mode_of_text(s.as_str()) {
            Some(v) => Ok(ConfigItem::ViewMode(v)),
            None => Err(unknown_value("view_mode", s.as_str())),
        }
    }
}

/// The value of a configuration attribute.
#[derive(Debug, PartialEq, Eq)]
pub enum ConfigAttr {
    String(String),
    Bool(bool),
    ViewMode(ViewMode),
    Int64(i64),
    SortingOption(SortingOption),
    LogLevel(LogLevel),
}

/// The text of an attribute value: strings as they are, the others as the
/// configuration file writes them.
pub open spec fn attr_text(v: ConfigAttr) -> Seq<char> {
    match v {
        ConfigAttr::Bool(b) => if b { "true"@ } else { "false"@ },
        ConfigAttr::Int64(i) => dec_int(i as int),
        ConfigAttr::LogLevel(l) => log_level_text(l),
        ConfigAttr::SortingOption(o) => sorting_text(o),
        ConfigAttr::String(s) => s@,
        ConfigAttr::ViewMode(m) => view_mode_text(m),
    }
}

impl ConfigAttr {
    /// The value's text (see `attr_text`).
    pub fn to_string(&self) -> (r: String)
        ensures
            r@ == attr_text(*self),
    {
        match self {
            ConfigAttr::Bool(b) => if *b { owned("true") } else { owned("false") },
            ConfigAttr::Int64(i) => i64_dec(*i),
            ConfigAttr::LogLevel(l) => l.to_string(),
            ConfigAttr::SortingOption(o) => o.to_string(),
            ConfigAttr::String(s) => s.clone(),
            ConfigAttr::ViewMode(m) => m.to_string(),
        }
    }
}

/// The attribute that `name` names, if any.
pub open spec fn attr_index(name: Seq<char>) -> Option<AttrName> {
    if name == "color_theme"@ {
        Some(AttrName::ColorTheme)
    } else if name == "theme_background"@ {
        Some(AttrName::ThemeBackground)
    } else if name == "view_mode"@ {
        Some(AttrName::ViewMode)
    } else if name == "update_ms"@ {
        Some(AttrName::UpdateMs)
    } else if name == "proc_sorting"@ {
        Some(AttrName::ProcSorting)
    } else if name == "proc_reversed"@ {
        Some(AttrName::ProcReversed)
    } else if name == "proc_tree"@ {
        Some(AttrName::ProcTree)
    } else if name == "tree_depth"@ {
        Some(AttrName::TreeDepth)
    } else if name == "proc_colors"@ {
        Some(AttrName::ProcColors)
    } else if name == "proc_gradient"@ {
        Some(AttrName::ProcGradient)
    } else if name == "proc_per_core"@ {
        Some(AttrName::ProcPerCore)
    } else if name == "proc_mem_bytes"@ {
        Some(AttrName::ProcMemBytes)
    } else if name == "check_temp"@ {
        Some(AttrName::CheckTemp)
    } else if name == "cpu_sensor"@ {
        Some(AttrName::CpuSensor)
    } else if name == "show_coretemp"@ {
        Some(AttrName::ShowCoretemp)
    } else if name == "draw_clock"@ {
        Some(AttrName::DrawClock)
    } else if name == "background_update"@ {
        Some(AttrName::BackgroundUpdate)
    } else if name == "custom_cpu_name"@ {
        Some(AttrName::CustomCpuName)
    } else if name == "disks_filter"@ {
        Some(AttrName::DisksFilter)
    } else if name == "mem_graphs"@ {
        Some(AttrName::MemGraphs)
    } else if name == "show_swap"@ {
        Some(AttrName::ShowSwap)
    } else if name == "swap_disk"@ {
        Some(AttrName::SwapDisk)
    } else if name == "show_disks"@ {
        Some(AttrName::ShowDisks)
    } else if name == "net_download"@ {
        Some(AttrName::NetDownload)
    } else if name == "net_upload"@ {
        Some(AttrName::NetUpload)
    } else if name == "net_auto"@ {
        Some(AttrName::NetAuto)
    } else if name == "net_sync"@ {
        Some(AttrName::NetSync)
    } else if name == "net_color_fixed"@ {
        Some(AttrName::NetColorFixed)
    } else if name == "show_battery"@ {
        Some(AttrName::ShowBattery)
    } else if name == "show_init"@ {
        Some(AttrName::ShowInit)
    } else if name == "update_check"@ {
        Some(AttrName::UpdateCheck)
    } else if name == "log_level"@ {
        Some(AttrName::LogLevel)
    } else {
        None
    }
}

/// The name of an attribute.
pub open spec fn attr_name(a: AttrName) -> Seq<char> {
    match a {
        AttrName::ColorTheme => "color_theme"@,
        AttrName::ThemeBackground => "theme_background"@,
        AttrName::ViewMode => "view_mode"@,
        AttrName::UpdateMs => "update_ms"@,
        AttrName::ProcSorting => "proc_sorting"@,
        AttrName::ProcReversed => "proc_reversed"@,
        AttrName::ProcTree => "proc_tree"@,
        AttrName::TreeDepth => "tree_depth"@,
        AttrName::ProcColors => "proc_colors"@,
        AttrName::ProcGradient => "proc_gradient"@,
        AttrName::ProcPerCore => "proc_per_core"@,
        AttrName::ProcMemBytes => "proc_mem_bytes"@,
        AttrName::CheckTemp => "check_temp"@,
        AttrName::CpuSensor => "cpu_sensor"@,
        AttrName::ShowCoretemp => "show_coretemp"@,
        AttrName::DrawClock => "draw_clock"@,
        AttrName::BackgroundUpdate => "background_update"@,
        AttrName::CustomCpuName => "custom_cpu_name"@,
        AttrName::DisksFilter => "disks_filter"@,
        AttrName::MemGraphs => "mem_graphs"@,
        AttrName::ShowSwap => "show_swap"@,
        AttrName::SwapDisk => "swap_disk"@,
        AttrName::ShowDisks => "show_disks"@,
        AttrName::NetDownload => "net_download"@,
        AttrName::NetUpload => "net_upload"@,
        AttrName::NetAuto => "net_auto"@,
        AttrName::NetSync => "net_sync"@,
        AttrName::NetColorFixed => "net_color_fixed"@,
        AttrName::ShowBattery => "show_battery"@,
        AttrName::ShowInit => "show_init"@,
        AttrName::UpdateCheck => "update_check"@,
        AttrName::LogLevel => "log_level"@,
    }
}

/// The kind of value that attribute `name` holds, when `name` is an
/// attribute.
pub open spec fn attr_kind(name: Seq<char>) -> Option<int> {
    match attr_index(name) {
        Some(a) => Some(kind_of(a)),
        None => None,
    }
}

/// The value of attribute `name` of `c`, when `name` is an attribute.
pub open spec fn attr_of(c: Config, name: Seq<char>) -> Option<ConfigAttr> {
    match attr_index(name) {
        Some(a) => Some(attr_value(c, a)),
        None => None,
    }
}

/// `c` with attribute `name` set to `v` (`c` itself when `name` is no
/// attribute or `v` is of another kind).
pub open spec fn set_attr(c: Config, name: Seq<char>, v: ConfigAttr) -> Config {
    match attr_index(name) {
        Some(a) => with_attr(c, a, v),
        None => c,
    }
}

/// Whether `v` is of the kind that attribute `name` holds (any value fits
/// a name that is no attribute).
pub open spec fn attr_fits(name: Seq<char>, v: ConfigAttr) -> bool {
    match attr_kind(name) {
        Some(k) => attr_variant(v) == k,
        None => true,
    }
}

/// The names whose items `setattr` also keeps in `conf_dict`.
pub open spec fn kept_in_conf_dict(name: Seq<char>) -> bool {
    name == "_initialized"@ || name == "recreate"@ || name == "changed"@
}

/// The attribute that `a` names.
fn attr_lookup(a: &str) -> (r: Option<AttrName>)
    ensures
        r == attr_index(a@),
{
    if same_text(a, "color_theme") {
        Some(AttrName::ColorTheme)
    } else if same_text(a, "theme_background") {
        Some(AttrName::ThemeBackground)
    } else if same_text(a, "view_mode") {
        Some(AttrName::ViewMode)
    } else if same_text(a, "update_ms") {
        Some(AttrName::UpdateMs)
    } else if same_text(a, "proc_sorting") {
        Some(AttrName::ProcSorting)
    } else if same_text(a, "proc_reversed") {
        Some(AttrName::ProcReversed)
    } else if same_text(a, "proc_tree") {
        Some(AttrName::ProcTree)
    } else if same_text(a, "tree_depth") {
        Some(AttrName::TreeDepth)
    } else if same_text(a, "proc_colors") {
        Some(AttrName::ProcColors)
    } else if same_text(a, "proc_gradient") {
        Some(AttrName::ProcGradient)
    } else if same_text(a, "proc_per_core") {
        Some(AttrName::ProcPerCore)
    } else if same_text(a, "proc_mem_bytes") {
        Some(AttrName::ProcMemBytes)
    } else if same_text(a, "check_temp") {
        Some(AttrName::CheckTemp)
    } else if same_text(a, "cpu_sensor") {
        Some(AttrName::CpuSensor)
    } else if same_text(a, "show_coretemp") {
        Some(AttrName::ShowCoretemp)
    } else if same_text(a, "draw_clock") {
        Some(AttrName::DrawClock)
    } else if same_text(a, "background_update") {
        Some(AttrName::BackgroundUpdate)
    } else if same_text(a, "custom_cpu_name") {
        Some(AttrName::CustomCpuName)
    } else if same_text(a, "disks_filter") {
        Some(AttrName::DisksFilter)
    } else if same_text(a, "mem_graphs") {
        Some(AttrName::MemGraphs)
    } else if same_text(a, "show_swap") {
        Some(AttrName::ShowSwap)
    } else if same_text(a, "swap_disk") {
        Some(AttrName::SwapDisk)
    } else if same_text(a, "show_disks") {
        Some(AttrName::ShowDisks)
    } else if same_text(a, "net_download") {
        Some(AttrName::NetDownload)
    } else if same_text(a, "net_upload") {
        Some(AttrName::NetUpload)
    } else if same_text(a, "net_auto") {
        Some(AttrName::NetAuto)
    } else if same_text(a, "net_sync") {
        Some(AttrName::NetSync)
    } else if same_text(a, "net_color_fixed") {
        Some(AttrName::NetColorFixed)
    } else if same_text(a, "show_battery") {
        Some(AttrName::ShowBattery)
    } else if same_text(a, "show_init") {
        Some(AttrName::ShowInit)
    } else if same_text(a, "update_check") {
        Some(AttrName::UpdateCheck)
    } else if same_text(a, "log_level") {
        Some(AttrName::LogLevel)
    } else {
        None
    }
}

impl Config {
    /// The value of attribute `attr`; `None` when `attr` names no
    /// attribute.
    pub fn getattr(&self, attr: String) -> (r: Option<ConfigAttr>)
        ensures
            r == attr_of(*self, attr@),
    {
        match attr_lookup(attr.as_str()) {
            Some(a) => Some(self.attr_get(a)),
            None => None,
        }
    }

    /// Sets attribute `attr` to `to_set`, which must be of the attribute's
    /// kind (a value of another kind ends the program); a name that is no
    /// attribute changes nothing.
    pub fn setattr_configattr(&mut self, attr: String, to_set: ConfigAttr)
        requires
            attr_fits(attr@, to_set),
        ensures
            *final(self) == set_attr(*old(self), attr@, to_set),
    {
        match attr_lookup(attr.as_str()) {
            Some(a) => {
                let mut c = Config::blank();
                std::mem::swap(self, &mut c);
                let mut d = c.attr_put(a, to_set);
                std::mem::swap(self, &mut d);
            },
            None => {},
        }
    }

    /// Records item `value` under `name` in `attr`, and in `conf_dict` for
    /// the names of `kept_in_conf_dict`; once the configuration is
    /// initialized, marks it changed. Nothing else changes.
    pub fn setattr(&mut self, name: String, value: ConfigItem)
        ensures
            *final(self) == (Config {
                attr: final(self).attr,
                conf_dict: final(self).conf_dict,
                changed: old(self).changed || old(self)._initialized,
                ..*old(self)
            }),
            final(self).attr@ == old(self).attr@.insert(name@, value),
            final(self).conf_dict@ == (if kept_in_conf_dict(name@) { old(self).conf_dict@.insert(name@, value) } else { old(self).conf_dict@ }),
    {
        let mut c = Config::blank();
        std::mem::swap(self, &mut c);
        let mut d = c.with_item(name, value);
        std::mem::swap(self, &mut d);
    }
}

/// Reading back an attribute gives what was set, for every value of the
/// attribute's kind; `tree_depth` keeps the value cut to 32 bits.
pub proof fn lemma_get_after_set(c: Config, name: Seq<char>, v: ConfigAttr)
    requires
        attr_kind(name) is Some,
        attr_fits(name, v),
    ensures
        attr_of(set_attr(c, name, v), name) == (if attr_index(name) == Some(AttrName::TreeDepth) {
            match v {
                ConfigAttr::Int64(x) => Some(ConfigAttr::Int64(#[verifier::truncate] (x as i32) as i64)),
                _ => Some(v),
            }
        } else {
            Some(v)
        }),
{
    lemma_value_after_with(c, attr_index(name)->0, v);
}

/// Setting one attribute leaves every other name reading as before.
pub proof fn lemma_get_after_set_other(c: Config, name: Seq<char>, other: Seq<char>, v: ConfigAttr)
    requires
        name != other,
    ensures
        attr_of(set_attr(c, name, v), other) == attr_of(c, other),
{
    match (attr_index(name), attr_index(other)) {
        (Some(a), Some(b)) => {
            lemma_attr_index_names(name, a);
            lemma_attr_index_names(other, b);
            lemma_value_kept_by_with(c, a, b, v);
        },
        _ => {},
    }
}

/// An attribute is found only under its own name.
proof fn lemma_attr_index_names(name: Seq<char>, a: AttrName)
    requires
        attr_index(name) == Some(a),
    ensures
        name == attr_name(a),
{
}

} // verus!
