use brshtop::collector::{RunnerAction, RunnerEvent, RunnerState};
use brshtop::init::{Init, InitTexts};
use brshtop::key::KeyUnion;
use brshtop::cpucollect::{CpuCollector, Sensor, TempReading};
use brshtop::netcollect::NetCollector;
use brshtop::strmap::StrMap;
use brshtop::collector::{Collector, Collectors};
use brshtop::bench::fmt_time;
use brshtop::config::{ConfigAttr, ConfigItem, LogLevel, SortingOption, ViewMode};
use brshtop::config_file::{key_list, read_lines, sensor_list};
use brshtop::draw::Draw;
use brshtop::error::Error;
use brshtop::fx::Fx;
use brshtop::gradient::{gradient_fields, missing_gradient_fields};
use brshtop::key::Key;
use brshtop::memcollect::{disk_filter, disk_name, disk_skipped, percent_of, push_history, used_memory, MemCollector, MemFigures, SwapFigures};
use brshtop::mv;
use brshtop::nonblocking::Nonblocking;
use brshtop::scan::{find_chars, remove_all_chars, trim_chars, utf8_len_capped};
use brshtop::settings::Config;
use brshtop::stats::{DiskInfo, NetCollectorStat};
use brshtop::strmap::Dup;

fn chars(s: &str) -> Vec<char> {
    s.chars().collect()
}

fn strings(v: &[&str]) -> Vec<String> {
    v.iter().map(|s| s.to_string()).collect()
}

fn read(lines: &[&str]) -> (Result<Vec<(String, ConfigItem)>, &'static str>, Vec<String>) {
    let keys = key_list();
    let mut warnings = Vec::new();
    let r = read_lines(&keys, &"Auto".to_string(), &strings(lines), &mut warnings);
    let items = r.map(|m| {
        let mut v = Vec::new();
        for i in 0..m.len() {
            v.push((m.key_at(i).clone(), m.value_at(i).dup()));
        }
        v
    });
    (items, warnings)
}

fn item<'a>(items: &'a [(String, ConfigItem)], key: &str) -> Option<&'a ConfigItem> {
    items.iter().find(|(k, _)| k == key).map(|(_, v)| v)
}

#[test]
fn cursor_moves() {
    assert_eq!(mv::right(5), "\x1b[5C");
    assert_eq!(mv::left(12), "\x1b[12D");
    assert_eq!(mv::up(0), "\x1b[0A");
    assert_eq!(mv::down(1), "\x1b[1B");
    assert_eq!(mv::to(3, 40), "\x1b[3;40f");
    assert_eq!(mv::save, "\x1b[s");
    assert_eq!(mv::restore, "\x1b[u");
}

#[test]
fn trans_replaces_spaces() {
    assert_eq!(Fx::trans("a b  c".to_string()), "a\x1b[1Cb\x1b[1C\x1b[1Cc");
    assert_eq!(Fx::trans(String::new()), "");
    assert!(!Fx::trans(" x y ".to_string()).contains(' '));
}

#[test]
fn time_units() {
    assert_eq!(fmt_time(0), "0ns");
    assert_eq!(fmt_time(7), "7ns");
    assert_eq!(fmt_time(999), "999ns");
    assert_eq!(fmt_time(1000), "1µs");
    assert_eq!(fmt_time(999_999), "999µs");
    assert_eq!(fmt_time(1_500_000), "1ms");
    assert_eq!(fmt_time(12_345_678_901), "12s ");
    assert_eq!(fmt_time(5_000_000_000_000), "5s ");
    assert_eq!(fmt_time(340_282_366_920_938_463_463_374_607_431_768_211_455), "340s ");
}

#[test]
fn option_texts() {
    assert_eq!(ViewMode::Full.to_string(), "\"full\"");
    assert_eq!(ViewMode::Unset.name(), "None");
    assert_eq!(LogLevel::Warning.to_string(), "\"warning\"");
    assert_eq!(SortingOption::Cpu { lazy: true }.to_string(), "\"cpu lazy\"");
    assert_eq!(SortingOption::Cpu { lazy: false }.name(), "Cpu { lazy: false }");
    assert_eq!(ConfigItem::Str("a\"b".to_string()).to_string(), "\"a\\\"b\"");
    assert_eq!(ConfigItem::Int(-42).to_string(), "-42");
    assert_eq!(ConfigItem::Bool(true).to_string(), "true");
    assert_eq!(ConfigItem::Error.to_string(), "\"_error_\"");
    assert_eq!(ConfigItem::LogLevel(LogLevel::Info).to_string(), "Info");
    assert_eq!(ConfigAttr::Int64(2000).to_string(), "2000");
    assert_eq!(ConfigAttr::String("%X".to_string()).to_string(), "%X");
    assert_eq!(ConfigAttr::ViewMode(ViewMode::Stat).to_string(), "\"stat\"");
}

#[test]
fn sorting_from_text() {
    assert_eq!(SortingOption::from("CPU Lazy".to_string()), SortingOption::Cpu { lazy: true });
    assert_eq!(SortingOption::from("memory".to_string()), SortingOption::Memory);
    assert_eq!(SortingOption::from("nonsense".to_string()), SortingOption::Arguments);
    assert_eq!(SortingOption::from_lowercase("pid"), SortingOption::Pid);
}

#[test]
fn reading_version_and_keys() {
    let (items, warnings) = read(&[
        "#? Config file for brshtop v. 0.1.0",
        "proc_sorting=cpu lazy",
        "log_level=warning",
        "view_mode=proc",
        "proc_reversed=1",
        "tree_depth=0",
        "cpu_sensor=",
    ]);
    let items = items.unwrap();
    assert_eq!(item(&items, "version"), Some(&ConfigItem::Str("0.1.0".to_string())));
    assert_eq!(item(&items, "proc_sorting"), Some(&ConfigItem::SortingOption(SortingOption::Cpu { lazy: true })));
    assert_eq!(item(&items, "log_level"), Some(&ConfigItem::LogLevel(LogLevel::Warning)));
    assert_eq!(item(&items, "view_mode"), Some(&ConfigItem::ViewMode(ViewMode::Proc)));
    assert_eq!(item(&items, "proc_reversed"), Some(&ConfigItem::Bool(true)));
    assert_eq!(item(&items, "tree_depth"), Some(&ConfigItem::Bool(false)));
    assert_eq!(item(&items, "cpu_sensor"), Some(&ConfigItem::Str(String::new())));
    assert!(warnings.is_empty());
}

#[test]
fn reading_numbers_and_warnings() {
    let (items, warnings) = read(&["  update_ms=-5  ", "update_check=2000", "color_theme=Default", "proc_tree=yes"]);
    let items = items.unwrap();
    assert_eq!(item(&items, "update_ms"), Some(&ConfigItem::Int(100)));
    assert_eq!(item(&items, "update_check"), Some(&ConfigItem::Str("2000".to_string())));
    assert_eq!(item(&items, "color_theme"), None);
    assert_eq!(item(&items, "proc_tree"), None);
    assert_eq!(item(&items, "cpu_sensor"), Some(&ConfigItem::Error));
    assert_eq!(
        warnings,
        strings(&[
            "Config key \"update_ms\" can't be lower than 100!",
            "Config key \"color_theme\" should be an integer (was \"Default\")!",
            "Config key \"proc_tree\" should be an integer (was \"yes\")!",
            "Config key \"cpu_sensor\" has a malformed value or does not exist!",
        ])
    );
}

#[test]
fn reading_unknown_options_and_speeds() {
    let (items, warnings) = read(&["proc_sorting=fastest", "net_download=", "cpu_sensor=x"]);
    let items = items.unwrap();
    assert_eq!(item(&items, "proc_sorting"), Some(&ConfigItem::Error));
    assert_eq!(item(&items, "net_download"), Some(&ConfigItem::Error));
    assert_eq!(item(&items, "cpu_sensor"), Some(&ConfigItem::Error));
    assert_eq!(
        warnings,
        strings(&[
            "Config key \"proc_sorted\" had an unknown value: fastest",
            "Config key \"cpu_sensor\" should be an integer (was \"x\")!",
            "Config key \"net_download\" didn't get an acceptable value!",
            "Config key \"cpu_sensor\" has a malformed value or does not exist!",
        ])
    );
}

#[test]
fn reading_malformed_file() {
    let (items, warnings) = read(&["update_ms=-1", "#? Config without a version", "proc_tree=1"]);
    assert_eq!(items.err(), Some("Malformed configuration file."));
    assert_eq!(warnings, strings(&["Config key \"update_ms\" can't be lower than 100!"]));
}

#[test]
fn new_configuration() {
    let temps = vec![("C".to_string(), Some("core0".to_string())), ("F".to_string(), None)];
    let lines = strings(&["#? Config v. 1.2", "cpu_sensor=", "proc_mem_bytes=0"]);
    let c = Config::new("/tmp/brshtop.conf".to_string(), "1.2", &temps, Ok(lines)).unwrap();
    assert_eq!(c.cpu_sensors, strings(&["Auto", "C-core0", "F-2"]));
    assert!(c._initialized);
    assert!(!c.recreate);
    assert!(c.warnings.is_empty());
    assert_eq!(c.attr.len(), 2);
    assert_eq!(c.attr.get("proc_mem_bytes"), Some(&ConfigItem::Bool(false)));
    assert_eq!(c.update_ms, 2000);
    assert_eq!(c.config_file, "/tmp/brshtop.conf");
    let old = Config::new("p".to_string(), "2.0", &Vec::new(), Ok(strings(&["cpu_sensor="]))).unwrap();
    assert!(old.recreate);
    assert_eq!(old.warnings, strings(&["Config file is or missing, will be recreated on exit!"]));
    let e = Config::new("p".to_string(), "2.0", &Vec::new(), Err("Could not find config file."));
    assert_eq!(e.err(), Some("Could not find config file."));
}

#[test]
fn new_configuration_checked() {
    assert!(Config::new_checked("p".to_string(), "1", &Vec::new(), Ok(strings(&["update_ms=1"]))).is_none());
    let c = Config::new_checked("p".to_string(), "1", &Vec::new(), Ok(strings(&["#? Config v. 2", "cpu_sensor="])));
    let c = c.unwrap().unwrap();
    assert!(c.recreate);
    assert_eq!(c.warnings, strings(&["Config file version and brshtop version mismatch, will be recreated on exit!"]));
}

#[test]
fn attributes_round_trip() {
    let mut c = Config::new("p".to_string(), "1", &Vec::new(), Ok(strings(&["cpu_sensor="]))).unwrap();
    assert_eq!(c.getattr("update_ms".to_string()), Some(ConfigAttr::Int64(2000)));
    assert_eq!(c.getattr("no_such".to_string()), None);
    c.setattr_configattr("color_theme".to_string(), ConfigAttr::String("Nord".to_string()));
    assert_eq!(c.getattr("color_theme".to_string()), Some(ConfigAttr::String("Nord".to_string())));
    c.setattr_configattr("tree_depth".to_string(), ConfigAttr::Int64(5));
    assert_eq!(c.getattr("tree_depth".to_string()), Some(ConfigAttr::Int64(5)));
    c.setattr_configattr("view_mode".to_string(), ConfigAttr::ViewMode(ViewMode::Stat));
    assert_eq!(c.view_mode, ViewMode::Stat);
    assert_eq!(c.getattr("log_level".to_string()), Some(ConfigAttr::LogLevel(LogLevel::Warning)));
    assert!(!c.changed);
    c.setattr("recreate".to_string(), ConfigItem::Bool(true));
    assert!(c.changed);
    assert_eq!(c.conf_dict.get("recreate"), Some(&ConfigItem::Bool(true)));
}

#[test]
fn setting_one_attribute_keeps_the_others() {
    let mut c = Config::new("p".to_string(), "1", &Vec::new(), Ok(strings(&["cpu_sensor="]))).unwrap();
    let before: Vec<Option<ConfigAttr>> = ["update_ms", "proc_sorting", "tree_depth", "net_download", "log_level"]
        .iter()
        .map(|n| c.getattr(n.to_string()))
        .collect();
    c.setattr_configattr("color_theme".to_string(), ConfigAttr::String("Nord".to_string()));
    c.setattr_configattr("proc_tree".to_string(), ConfigAttr::Bool(true));
    let after: Vec<Option<ConfigAttr>> = ["update_ms", "proc_sorting", "tree_depth", "net_download", "log_level"]
        .iter()
        .map(|n| c.getattr(n.to_string()))
        .collect();
    assert_eq!(before, after);
    assert_eq!(c.getattr("proc_tree".to_string()), Some(ConfigAttr::Bool(true)));
}

#[test]
fn sensor_names() {
    let temps = vec![("C".to_string(), None), ("C".to_string(), Some("gpu".to_string())), ("K".to_string(), None)];
    assert_eq!(sensor_list(&temps), strings(&["Auto", "C-1", "C-gpu", "K-3"]));
}

#[test]
fn buffered_text_is_printed() {
    let mut d = Draw::new();
    assert_eq!(d.out(strings(&["a"]), false), None);
    assert_eq!(d.buffer("a".to_string(), strings(&["x", "y"]), false, false, 100, false, false, false), None);
    assert_eq!(d.buffer("b".to_string(), strings(&["deep"]), false, false, 200, false, false, false), None);
    assert_eq!(d.out(Vec::new(), false), None);
    assert_eq!(d.out(strings(&["a", "b"]), false), Some("deepxy".to_string()));
    assert_eq!(d.saved_buffer(), "deepxy");
    assert_eq!(d.buffer("+a!".to_string(), strings(&["z"]), false, false, 100, false, false, false), Some("xyz".to_string()));
    assert_eq!(d.buffer("b".to_string(), strings(&["once"]), false, false, 100, false, false, true), None);
    assert_eq!(d.out(strings(&["b"]), false), Some("once".to_string()));
    assert_eq!(d.out(strings(&["b"]), false), Some(String::new()));
    assert_eq!(d.saved_buffer(), "oncexyz");
}

#[test]
fn draw_clear() {
    let mut d = Draw::new();
    d.buffer("a".to_string(), strings(&["1"]), false, false, 100, false, false, false);
    d.buffer("b".to_string(), strings(&["2"]), false, false, 100, true, false, false);
    d.clear(strings(&["a"]), false);
    assert_eq!(d.strings.len(), 0);
    assert_eq!(d.saved.get("b"), Some(&"2".to_string()));
    d.clear(Vec::new(), true);
    assert_eq!(d.saved.len(), 0);
    assert_eq!(d.z_order.len(), 0);
    assert_eq!(d.out(strings(&["a"]), true), None);
}

#[test]
fn key_decoding() {
    let mut k = Key::new();
    k.decode("\x1b", false);
    k.decode("\x1b[H", false);
    k.decode("\\", false);
    assert_eq!(k.get(), Some("escape".to_string()));
    assert_eq!(k.last(), Some("\\".to_string()));
    assert_eq!(k.get(), Some("home".to_string()));
    assert_eq!(k.get(), None);
    k.decode("\x1b[<35;10;20mM", false);
    assert_eq!(k.mouse_pos, (10, 20));
    assert!(k.mouse_moved());
    assert!(!k.mouse_moved());
    for _ in 0..12 {
        k.decode("\x1b[2~", false);
    }
    let mut n = 0;
    while k.get().is_some() {
        n += 1;
    }
    assert_eq!(n, 10);
}

#[test]
fn gradient_field_names() {
    let f = gradient_fields();
    assert_eq!(f.len(), 27);
    assert_eq!(f[0], "temp_start");
    assert_eq!(f[4], "cpu_mid");
    assert_eq!(f[26], "process_end");
    let mut present = f.clone();
    present.retain(|n| n != "used_mid" && n != "upload_start");
    assert_eq!(missing_gradient_fields(&present), strings(&["used_mid", "upload_start"]));
    assert!(missing_gradient_fields(&f).is_empty());
}

#[test]
fn stat_texts() {
    assert_eq!(NetCollectorStat::Vec(vec![1, 22, 333]).to_string(), "1, 22, 333");
    assert_eq!(NetCollectorStat::Vec(vec![]).to_string(), "");
    assert_eq!(NetCollectorStat::I32(-7).to_string(), "-7");
    assert_eq!(NetCollectorStat::Bool(false).to_string(), "false");
    assert_eq!(DiskInfo::U64(18_446_744_073_709_551_615).to_string(), "18446744073709551615");
    assert_eq!(DiskInfo::Empty.to_string(), "");
    assert_eq!(DiskInfo::String("sda".to_string()).to_string(), "sda");
}

#[test]
fn standard_input_descriptor() {
    let n = Nonblocking::new();
    assert_eq!(n.fd, 0);
    assert_eq!(n.orig_fl, None);
}

#[test]
fn io_error_converts() {
    let e: Error = std::io::Error::new(std::io::ErrorKind::Other, "x").into();
    assert!(matches!(e, Error::Io(_)));
}

#[test]
fn text_scanning() {
    assert_eq!(trim_chars(&chars(" \t\u{3000}ab c\n")), chars("ab c"));
    assert_eq!(find_chars(&chars("a v. v. "), &chars("v. ")), Some(2));
    assert_eq!(find_chars(&chars("abc"), &chars("x")), None);
    assert_eq!(remove_all_chars(&chars("k=k=1k="), &chars("k=")), chars("1"));
    assert_eq!(utf8_len_capped(&chars("aé€😀"), 4, 100), 10);
    assert_eq!(utf8_len_capped(&chars("aé€😀"), 4, 5), 5);
}

#[test]
fn uncolor_gives_empty_haystack_result() {
    assert_eq!(Fx::try_uncolor("\x1b[38;2;1;2;3mhi".to_string()), Some(String::new()));
    assert_eq!(Fx::try_uncolor("abc".to_string()), Some(String::new()));
}

#[test]
fn fx_constants() {
    assert_eq!(brshtop::fx::b, "\x1b[1m");
    assert_eq!(brshtop::fx::ub, "\x1b[22m");
    assert_eq!(brshtop::fx::reset, "\x1b[0m");
}

#[test]
fn net_box_fills_bottom() {
    let mut b = brshtop::brshtop_box::BrshtopBox::new(ViewMode::Full, ViewMode::Unset);
    let mut n = brshtop::netbox::NetBox::new(&mut b, ViewMode::Full, ViewMode::Unset);
    n.calc_size(80, 40, 10, 12);
    let p = n.get_parent();
    assert_eq!(p.get_y(), 23);
    assert_eq!(p.get_height(), 18);
    assert_eq!(p.get_y() + p.get_height() - 1, 40);
    let d = n.get_graph_height_index("download".to_string()).unwrap();
    let u = n.get_graph_height_index("upload".to_string()).unwrap();
    assert_eq!((d, u), (8, 8));
    assert_eq!(b.get_buffers(), strings(&["net"]));
}

#[test]
fn proc_box_starts_at_first_line() {
    let mut b = brshtop::brshtop_box::BrshtopBox::new(ViewMode::Full, ViewMode::Unset);
    let p = brshtop::procbox::ProcBox::new(&mut b, ViewMode::Full, ViewMode::Unset);
    assert_eq!(p.get_start(), 1);
    assert_eq!(p.get_selected(), 0);
}

#[test]
fn memory_figures() {
    assert_eq!(used_memory(8000, 3000), 5000);
    assert_eq!(used_memory(3000, 8000), 0);
    assert_eq!(percent_of(1, 3), 33);
    assert_eq!(percent_of(3000, 8000), 37);
    let mut h = vec![1, 2, 3];
    push_history(&mut h, 4, 3);
    assert_eq!(h, vec![2, 3, 4]);
    push_history(&mut h, 5, 5);
    assert_eq!(h, vec![2, 3, 4, 5]);
}

#[test]
fn disk_filters() {
    assert_eq!(disk_filter(""), (Vec::new(), false));
    assert_eq!(disk_filter("exclude= boot, home "), (strings(&["boot", "home"]), true));
    assert_eq!(disk_filter(" root,data"), (strings(&["root", "data"]), false));
    assert!(!disk_skipped(&"root".to_string(), &Vec::new(), false));
    assert!(disk_skipped(&"data".to_string(), &strings(&["root"]), false));
    assert!(!disk_skipped(&"myroot".to_string(), &strings(&["root"]), false));
    assert!(disk_skipped(&"xab".to_string(), &strings(&["a", "b"]), true));
    assert_eq!(disk_name("root".to_string(), &strings(&["root", "root_", "data"])), "root__");
    assert_eq!(disk_name("boot".to_string(), &strings(&["root"])), "boot");
}

#[test]
fn nic_switching() {
    use_switch();
}

fn use_switch() {
    assert_eq!(brshtop::stats::switch_nic(0, 3, "n"), 1);
    assert_eq!(brshtop::stats::switch_nic(2, 3, "n"), 0);
    assert_eq!(brshtop::stats::switch_nic(0, 3, "b"), 2);
    assert_eq!(brshtop::stats::switch_nic(0, 1, "n"), 0);
}

#[test]
fn memory_collector_tables() {
    let mut b = brshtop::brshtop_box::BrshtopBox::new(ViewMode::Full, ViewMode::Unset);
    let mb = brshtop::membox::MemBox::new(&mut b, ViewMode::Full, ViewMode::Unset, true);
    let mut m = MemCollector::new(&mb, "Linux");
    assert_eq!(m.get_buffer(), "mem");
    assert_eq!(m.get_excludes(), strings(&["squashfs"]));
    assert_eq!(MemCollector::new(&mb, "BSD").get_excludes().len(), 7);
    assert_eq!(m.get_values_index("total".to_string()), None);
    m.set_values_index("total".to_string(), 8000);
    assert_eq!(m.get_values_index("total".to_string()), Some(8000));
    m.set_string_index("total".to_string(), "7.8 KiB".to_string());
    assert_eq!(m.get_string_index("total".to_string()), Some("7.8 KiB".to_string()));
    m.set_vlist_inner_index("used".to_string(), 2, 9);
    assert_eq!(m.get_vlist_index("used".to_string()), Some(vec![0, 0, 9]));
    m.set_vlist_inner_index("used".to_string(), 1, 5);
    assert_eq!(m.get_vlist_index("used".to_string()), Some(vec![0, 5, 0, 9]));
    assert_eq!(m.push_vlist_inner_index("used".to_string(), 7), Ok(()));
    assert_eq!(m.get_vlist_inner_index("used".to_string(), 4), Some(7));
    assert_eq!(m.get_vlist_inner_index("used".to_string(), 5), None);
    assert_eq!(m.push_vlist_inner_index("free".to_string(), 1), Err("No vec at index 'free'".to_string()));
    assert_eq!(m.remove_vlist_inner_index("used".to_string(), 9), Err("Index 9 is out of bounds".to_string()));
    assert_eq!(m.remove_vlist_inner_index("used".to_string(), 0), Ok(()));
    assert_eq!(m.get_vlist_index("used".to_string()), Some(vec![5, 0, 9, 7]));
    assert_eq!(m.remove_swap_vlist_inner_index("used".to_string(), 0), Err("No vec at index 'used'".to_string()));
    m.set_disks_inner_index("root".to_string(), "used".to_string(), DiskInfo::U64(12));
    assert!(matches!(m.get_disks_inner_index("root".to_string(), "used".to_string()), Some(DiskInfo::U64(12))));
    assert!(m.get_disks_inner_index("root".to_string(), "free".to_string()).is_none());
    m.remove_disks_index("root".to_string());
    assert!(m.get_disks_index("root".to_string()).is_none());
    m.set_old_disks_index(0, "root".to_string());
    assert_eq!(m.get_old_disks_index(0), Some("root".to_string()));
    assert_eq!(m.get_old_disks_index(1), None);
}

#[test]
fn cpu_collector_histories() {
    let mut c = brshtop::cpucollect::CpuCollector::new(2);
    assert_eq!(c.get_cpu_usage(), vec![Vec::<u32>::new(), Vec::new(), Vec::new()]);
    assert_eq!(c.get_cpu_temp().len(), 3);
    assert_eq!(c.get_buffer(), "");
    c.set_cpu_usage_inner_index(0, 0, 40);
    c.set_cpu_usage_inner_index(0, 1, 50);
    c.set_cpu_usage_inner_index(0, 5, 60);
    assert_eq!(c.get_cpu_usage_index(0), Some(vec![40, 50]));
    assert_eq!(c.get_cpu_usage_inner_index(0, 1), Some(50));
    assert_eq!(c.get_cpu_usage_inner_index(0, 2), None);
    c.set_cpu_usage_inner_index(7, 0, 9);
    assert_eq!(c.get_cpu_usage_index(3), Some(vec![9]));
    c.set_cpu_temp_index(1, vec![70, 71]);
    assert_eq!(c.get_cpu_temp(), vec![Vec::<u32>::new(), vec![70, 71], Vec::new()]);
    c.set_cpu_temp_index(5, vec![1]);
    assert_eq!(c.get_cpu_temp_index(3), Some(vec![1]));
    assert_eq!(c.get_cpu_temp_index(4), None);
    c.set_cpu_temp_high(85);
    c.set_cpu_temp_crit(100);
    assert_eq!((c.get_cpu_temp_high(), c.get_cpu_temp_crit()), (85, 100));
    c.set_sensor_method("coretemp".to_string());
    assert_eq!(c.get_sensor_method(), "coretemp");
}

#[test]
fn collector_rounds() {
    let mut c = Collector::new();
    assert!(c.get_collect_idle().is_set());
    assert!(!c.get_collect_run().is_set());
    c.set_default_collect_queue(vec![Collectors::CpuCollector, Collectors::MemCollector]);
    c.collect(Vec::new(), true, true, true, false, false);
    assert!(c.get_collect_run().is_set());
    assert!(!c.get_collect_interrupt() && !c.get_proc_interrupt() && !c.get_use_draw_list());
    assert_eq!(c.get_collect_queue().len(), 2);
    c.collect(vec![Collectors::NetCollector], false, false, false, true, false);
    assert!(c.get_use_draw_list() && c.get_redraw() && !c.get_draw_now());
    assert!(matches!(c.get_collect_queue_index(0), Some(Collectors::NetCollector)));
    assert!(c.set_collect_queue_index(5, Collectors::ProcCollector).is_none());
    assert!(c.set_collect_queue_index(0, Collectors::ProcCollector).is_some());
    assert!(matches!(c.pop_collect_queue(), Collectors::NetCollector));
    c.set_started(true);
    c.stop(true);
    assert!(c.get_stopping() && !c.get_started());
    assert!(c.get_collect_queue().is_empty());
    assert!(c.get_collect_done().is_set());
}

#[test]
fn cpu_box_layout() {
    let mut b = brshtop::brshtop_box::BrshtopBox::new(ViewMode::Full, ViewMode::Unset);
    let mut c = brshtop::cpubox::CpuBox::new(&mut b, ViewMode::Full, ViewMode::Unset);
    assert_eq!(b.get_buffers(), strings(&["cpu"]));
    assert_eq!(c.get_buffer(), "cpu");
    assert_eq!(c.get_battery_status(), "Unknown");
    assert_eq!(c.get_battery_path(), Some(String::new()));
    assert_eq!(c.get_battery_symbols().get("Charging"), Some(&"\u{25b2}".to_string()));
    assert!(c.get_clock_block());
    c.calc_size(&mut b, 80, 24, 4, false);
    let p = c.get_parent();
    assert_eq!((p.get_width(), p.get_height()), (80, 8));
    assert_eq!(b.get_b_cpu_h(), 8);
    let s = c.get_sub();
    assert_eq!((s.get_box_columns(), s.get_column_size()), (1, 2));
    c.set_battery_path(None);
    assert_eq!(c.get_battery_path(), None);
}

#[test]
fn net_collector_tables() {
    let mut b = brshtop::brshtop_box::BrshtopBox::new(ViewMode::Full, ViewMode::Unset);
    let nb = brshtop::netbox::NetBox::new(&mut b, ViewMode::Full, ViewMode::Unset);
    let config = Config::new("p".to_string(), "1", &Vec::new(), Ok(strings(&["cpu_sensor="]))).unwrap();
    let mut n = NetCollector::new(&nb, &config);
    assert_eq!(n.get_buffer(), "net");
    assert_eq!(n.get_graph_raise_index("download".to_string()), Some(5));
    assert_eq!(n.get_net_min_index("upload".to_string()), Some(-1));
    assert_eq!(n.get_net_min_index("sideways".to_string()), None);
    assert_eq!(n.get_auto_min(), config.net_auto);
    let mut dirs: StrMap<StrMap<String>> = StrMap::new();
    dirs.insert("download".to_string(), StrMap::new());
    n.set_strings_index("eth0".to_string(), dirs);
    n.set_strings_inner_inner_index("eth0".to_string(), "download".to_string(), "total".to_string(), "1.0 MiB".to_string());
    assert_eq!(n.get_strings_inner_inner_index("eth0".to_string(), "download".to_string(), "total".to_string()), "1.0 MiB");
    assert!(n.get_strings_inner_index("eth0".to_string(), "upload".to_string()).is_none());
    let mut top: StrMap<NetCollectorStat> = StrMap::new();
    top.insert("speed".to_string(), NetCollectorStat::U64(10));
    n.set_stats_index("eth0".to_string(), StrMap::new());
    n.set_stats_inner_index("eth0".to_string(), "upload".to_string(), top);
    assert!(matches!(
        n.get_stats_inner_inner_index("eth0".to_string(), "upload".to_string(), "speed".to_string()),
        NetCollectorStat::U64(10)
    ));
    let mut c = Collector::new();
    n.switch("n".to_string(), &mut c);
    assert!(!n.get_switched());
    n.nics = strings(&["eth0", "wlan0", "lo"]);
    n.switch("n".to_string(), &mut c);
    assert_eq!((n.nic_i, n.new_nic.clone()), (1, Some("wlan0".to_string())));
    n.switch("b".to_string(), &mut c);
    n.switch("b".to_string(), &mut c);
    assert_eq!((n.nic_i, n.new_nic.clone()), (2, Some("lo".to_string())));
    assert!(n.get_switched());
    assert!(c.get_collect_run().is_set() && c.get_redraw() && c.get_use_draw_list());
    assert!(matches!(c.get_collect_queue_index(0), Some(Collectors::NetCollector)));
}

fn sensor(name: &str, label: &str, current: i32) -> Sensor {
    Sensor {
        name: name.to_string(),
        label: label.to_string(),
        current,
        above_zero: current > 0,
        high: Some(80),
        critical: Some(100),
    }
}

#[test]
fn temperatures_from_sensors() {
    let mut c = CpuCollector::new(4);
    c.set_sensor_method("psutil".to_string());
    let readings = vec![
        Some(sensor("coretemp", "Package id 0", 50)),
        None,
        Some(sensor("coretemp", "Core0", 45)),
        Some(sensor("coretemp", "Core1", 47)),
    ];
    let lost = c.collect_temps(TempReading::Sensors(readings), "Auto", 4, 2, &vec![0, 1, 0, 1]);
    assert!(!lost);
    assert_eq!(c.get_cpu_temp(), vec![vec![46], vec![45], vec![47], vec![45], vec![47]]);
    assert_eq!((c.get_cpu_temp_high(), c.get_cpu_temp_crit()), (80, 100));
    assert!(!c.get_cpu_temp_only());
}

#[test]
fn temperatures_from_commands() {
    let mut c = CpuCollector::new(4);
    assert!(!c.collect_temps(TempReading::Coretemp(Some((60, vec![50, 52]))), "Auto", 4, 2, &vec![0, 1, 0, 1]));
    assert_eq!(c.get_cpu_temp(), vec![vec![60], vec![50], vec![52], vec![50], vec![52]]);
    assert_eq!((c.get_cpu_temp_high(), c.get_cpu_temp_crit()), (85, 100));
    let mut d = CpuCollector::new(1);
    assert!(!d.collect_temps(TempReading::OsxCpuTemp(Some(55)), "Auto", 1, 1, &vec![0]));
    assert_eq!(d.get_cpu_temp_index(0), Some(vec![55]));
    assert!(d.get_cpu_temp_only());
    d.set_got_sensors(true);
    assert!(d.collect_temps(TempReading::Vcgencmd(None), "Auto", 1, 1, &vec![0]));
    assert!(!d.get_got_sensors());
    assert_eq!(d.get_cpu_temp_index(0), Some(vec![55]));
}

#[test]
fn memory_round() {
    let mut b = brshtop::brshtop_box::BrshtopBox::new(ViewMode::Full, ViewMode::Unset);
    let mut mb = brshtop::membox::MemBox::new(&mut b, ViewMode::Full, ViewMode::Unset, false);
    mb.set_parent_width(2);
    let mut config = Config::new("p".to_string(), "1", &Vec::new(), Ok(strings(&["cpu_sensor="]))).unwrap();
    config.mem_graphs = true;
    config.show_swap = true;
    let mut m = MemCollector::new(&mb, "Linux");
    let mem = MemFigures { cached: 1000, total: 8000, free: 2000, available: 3000 };
    m.collect_memory(&config, &mut mb, Some(mem), Some(SwapFigures { total: 4000, free: 1000 }));
    assert_eq!(m.get_values_index("used".to_string()), Some(5000));
    assert_eq!(m.get_percent_index("used".to_string()), Some(62));
    assert_eq!(m.get_percent_index("cached".to_string()), Some(12));
    assert_eq!(m.get_percent_index("total".to_string()), None);
    assert_eq!(m.get_vlist_index("available".to_string()), Some(vec![37]));
    assert_eq!(m.get_swap_values_index("used".to_string()), Some(4));
    assert_eq!(m.get_swap_percent_index("free".to_string()), Some(100));
    assert_eq!(m.get_swap_vlist_index("used".to_string()), Some(vec![100]));
    assert!(mb.get_swap_on() && mb.get_redraw());
    for _ in 0..2 {
        let mem = MemFigures { cached: 1000, total: 8000, free: 2000, available: 3000 };
        m.collect_memory(&config, &mut mb, Some(mem), Some(SwapFigures { total: 4000, free: 1000 }));
    }
    // the swap history of "used" grew past the width of 2, so the memory
    // history of "used" loses its oldest figure each time
    assert_eq!(m.get_swap_vlist_index("used".to_string()), Some(vec![100, 100, 100]));
    assert_eq!(m.get_vlist_index("used".to_string()), Some(vec![62]));
    assert_eq!(m.get_vlist_index("cached".to_string()), Some(vec![12, 12]));
    config.show_swap = false;
    config.swap_disk = false;
    let mem = MemFigures { cached: 1000, total: 8000, free: 2000, available: 3000 };
    m.collect_memory(&config, &mut mb, Some(mem), None);
    assert!(!mb.get_swap_on());
}

#[test]
fn key_escape_forms() {
    let k = Key::new();
    assert_eq!(k.escape.len(), 26);
    let tuple = |a: &str, b: &str| KeyUnion::Tuple((a.to_string(), b.to_string()));
    assert!(k.escape.iter().any(|(u, n)| *u == tuple("[A", "OA") && n == "up"));
    assert!(k.escape.iter().any(|(u, n)| *u == tuple("[B", "OB") && n == "down"));
    assert!(k.escape.iter().any(|(u, n)| *u == tuple("[C", "OC") && n == "right"));
    assert!(k.escape.iter().any(|(u, n)| *u == tuple("[D", "OD") && n == "left"));
    assert!(k.escape.iter().any(|(u, n)| *u == KeyUnion::String("[2~".to_string()) && n == "insert"));
}

#[test]
fn selector_asks_for_a_round() {
    let mut b = brshtop::brshtop_box::BrshtopBox::new(ViewMode::Full, ViewMode::Unset);
    let mut p = brshtop::procbox::ProcBox::new(&mut b, ViewMode::Full, ViewMode::Unset);
    p.set_select_max(10);
    let mut keys: Vec<String> = Vec::new();
    let mut c = Collector::new();
    assert!(p.selector("down", (0, 0), 50, false, &mut keys, &mut c));
    assert_eq!(p.get_selected(), 1);
    assert!(c.get_collect_run().is_set() && c.get_proc_interrupt() == false && c.get_only_draw() && c.get_redraw());
    assert!(matches!(c.get_collect_queue_index(0), Some(Collectors::ProcCollector)));
    let mut d = Collector::new();
    assert!(p.selector("home", (0, 0), 50, false, &mut keys, &mut d));
    assert_eq!(p.get_selected(), 0);
    let mut e = Collector::new();
    assert!(!p.selector("home", (0, 0), 50, false, &mut keys, &mut e));
    assert!(!e.get_collect_run().is_set());
}

#[test]
fn collector_thread_rounds() {
    let mut c = Collector::new();
    let mut run = RunnerState::new(&c);
    let pass = || RunnerEvent::Pass { clock_set: false, update_second: true, menu_active: false };
    assert!(matches!(c.runner(&mut run, pass()), RunnerAction::Wait { early_clock: false }));
    c.collect(vec![Collectors::MemCollector, Collectors::CpuCollector], true, false, false, false, false);
    match c.runner(&mut run, pass()) {
        RunnerAction::Run { collector: Collectors::CpuCollector, collect: true, early_clock: false } => {}
        _ => panic!("expected the cpu collector to run"),
    }
    assert!(!c.get_collect_run().is_set() && !c.get_collect_done().is_set());
    assert!(matches!(
        c.runner(&mut run, RunnerEvent::Done { buffer: "cpu".to_string() }),
        RunnerAction::Run { collector: Collectors::MemCollector, .. }
    ));
    match c.runner(&mut run, RunnerEvent::Done { buffer: "mem".to_string() }) {
        RunnerAction::Finish { out: Some(v), late_clock: false, .. } => assert_eq!(v, strings(&["cpu", "mem"])),
        _ => panic!("expected the round to finish"),
    }
    assert!(c.get_collect_done().is_set() && c.get_collect_idle().is_set());
    c.set_stopping(true);
    c.collect(Vec::new(), true, false, false, false, false);
    assert!(matches!(c.runner(&mut run, pass()), RunnerAction::Finish { out: Some(_), .. }));
    assert!(matches!(c.runner(&mut run, pass()), RunnerAction::Exit));
}

#[test]
fn start_up_screen() {
    let mut init = Init::new();
    let mut d = Draw::new();
    let texts = InitTexts {
        banner: "BANNER".to_string(),
        black_bg: "K".to_string(),
        default_color: "D".to_string(),
        version: "0.1".to_string(),
        term_bg: "G".to_string(),
        term_fg: "F".to_string(),
        fg50: "5".to_string(),
        fgcc: "C".to_string(),
        v_line: "|".to_string(),
    };
    let samples: Vec<i32> = (0..160).map(|j| j % 100).collect();
    init.start(80, 24, samples.clone(), &texts, &mut d);
    assert_eq!(init.initbg_colors.len(), 102);
    assert_eq!(init.initbg_colors[0], "0 0 0");
    assert_eq!(init.initbg_colors[101], "50 50 50");
    assert_eq!(init.initbg_data, samples);
    let saved = d.saved_buffer();
    assert!(saved.starts_with("BANNER\x1b[1B\x1b[11DKD\x1b[1m\x1b[3mVersion: 0.1\x1b[23m\x1b[22mGF5\x1b[10;12f\x1b[1C\x1b[1C16%|"));
    assert!(saved.contains("\x1b[16;12f\x1b[1C100%|"));
    assert!(saved.ends_with("C\x1b[1m\x1b[10;19f\x1b[s"));
}
